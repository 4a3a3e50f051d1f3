use wasm_http_host::message::Method;
use wasm_http_host::router::{Methods, RouterInner};
use wasm_http_host::routing::{handler_export_name, RouteTable, Routing};

fn table_of(routes: &[(Methods, &str, &str)]) -> RouteTable {
    let mut router = RouterInner::new("");
    for (m, p, h) in routes {
        router.add(p.to_string(), h.to_string(), *m).unwrap();
    }
    RouteTable::build(&router.routes).unwrap()
}

fn params_of(r: Routing) -> (String, Vec<(String, String)>) {
    match r {
        Routing::Matched { handler, params } => (handler, params),
        other => panic!("expected a match, got {:?}", other),
    }
}

#[test]
fn static_route_matches() {
    let t = table_of(&[(Methods::GET, "/hello", "greet")]);
    let (h, p) = params_of(t.route_request(Some(Method::Get), "/hello"));
    assert_eq!(h, "greet");
    assert!(p.is_empty());
}

#[test]
fn path_parameter_is_captured() {
    let t = table_of(&[(Methods::GET, "/users/:id", "show_user")]);
    let (h, p) = params_of(t.route_request(Some(Method::Get), "/users/42"));
    assert_eq!(h, "show-user");
    assert_eq!(p, vec![("id".to_string(), "42".to_string())]);
}

#[test]
fn echo_parameter_is_captured() {
    let t = table_of(&[(Methods::GET, "/u/:n", "echo")]);
    let (h, p) = params_of(t.route_request(Some(Method::Get), "/u/alice"));
    assert_eq!(h, "echo");
    assert_eq!(p, vec![("n".to_string(), "alice".to_string())]);
}

#[test]
fn first_declared_route_wins() {
    let t = table_of(&[
        (Methods::GET, "/users/:id", "by_id"),
        (Methods::GET, "/users/42", "special"),
    ]);
    let (h, _) = params_of(t.route_request(Some(Method::Get), "/users/42"));
    assert_eq!(h, "by-id");
    let t = table_of(&[
        (Methods::GET, "/users/42", "special"),
        (Methods::GET, "/users/:id", "by_id"),
    ]);
    let (h, _) = params_of(t.route_request(Some(Method::Get), "/users/42"));
    assert_eq!(h, "special");
}

#[test]
fn same_pattern_twice_keeps_the_first() {
    let t = table_of(&[(Methods::POST, "/a", "one"), (Methods::POST, "/a", "two")]);
    let (h, _) = params_of(t.route_request(Some(Method::Post), "/a"));
    assert_eq!(h, "one");
}

#[test]
fn method_without_routes_is_bad_request() {
    let t = table_of(&[(Methods::GET, "/hello", "greet")]);
    assert!(matches!(t.route_request(Some(Method::Patch), "/hello"), Routing::BadRequest));
    assert!(matches!(t.route_request(Some(Method::Post), "/hello"), Routing::BadRequest));
    assert!(matches!(t.route_request(None, "/hello"), Routing::BadRequest));
}

#[test]
fn unmatched_path_is_not_found() {
    let t = table_of(&[(Methods::GET, "/hello", "greet"), (Methods::PUT, "/x", "put_x")]);
    assert!(matches!(t.route_request(Some(Method::Get), "/bye"), Routing::NotFound));
    assert!(matches!(t.route_request(Some(Method::Get), "/x"), Routing::NotFound));
}

#[test]
fn empty_table_is_bad_request() {
    let t = table_of(&[]);
    assert_eq!(t.len(), 0);
    assert!(matches!(t.route_request(Some(Method::Get), "/"), Routing::BadRequest));
}

#[test]
fn handler_names_are_hyphenated() {
    assert_eq!(handler_export_name("handle_get_user"), "handle-get-user");
    assert_eq!(handler_export_name("plain"), "plain");
    assert_eq!(handler_export_name(""), "");
    let t = table_of(&[(Methods::DELETE, "/k/:key", "delete_key")]);
    assert_eq!(t.handler_at(0), "delete-key");
}

#[test]
fn unsupported_pattern_is_refused() {
    let mut router = RouterInner::new("");
    router.add("/ok".to_string(), "a".to_string(), Methods::GET).unwrap();
    router.add("/\u{e9}t\u{e9}".to_string(), "b".to_string(), Methods::GET).unwrap();
    assert_eq!(RouteTable::build(&router.routes).err(), Some(1));
    let mut router = RouterInner::new("");
    router.add("/".to_string(), "root".to_string(), Methods::GET).unwrap();
    router.add("".to_string(), "empty".to_string(), Methods::GET).unwrap();
    router.add("/a/\u{e9}".to_string(), "later".to_string(), Methods::GET).unwrap();
    let t = RouteTable::build(&router.routes).unwrap();
    let (h, _) = params_of(t.route_request(Some(Method::Get), "/"));
    assert_eq!(h, "root");
}

#[test]
fn nul_in_pattern_is_refused() {
    let mut router = RouterInner::new("");
    router.add("/a\0b".to_string(), "a".to_string(), Methods::GET).unwrap();
    assert_eq!(RouteTable::build(&router.routes).err(), Some(0));
    let mut router = RouterInner::new("");
    router.add("/ok".to_string(), "a".to_string(), Methods::GET).unwrap();
    router.add("/\0".to_string(), "b".to_string(), Methods::GET).unwrap();
    assert_eq!(RouteTable::build(&router.routes).err(), Some(1));
}

#[test]
fn nul_in_path_is_not_found() {
    let t = table_of(&[(Methods::GET, "/u/:n", "echo"), (Methods::GET, "/*rest", "all")]);
    assert!(matches!(t.route_request(Some(Method::Get), "/u/a\0b"), Routing::NotFound));
    assert!(matches!(t.route_request(Some(Method::Post), "/u/a\0b"), Routing::BadRequest));
    let (h, _) = params_of(t.route_request(Some(Method::Get), "/u/ab"));
    assert_eq!(h, "echo");
}

#[test]
fn hyphenation_keeps_other_characters() {
    assert_eq!(handler_export_name("_a__\u{e9}_"), "-a--\u{e9}-");
}
