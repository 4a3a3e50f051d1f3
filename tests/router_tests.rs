use wasm_http_host::router::{Methods, RouterInner};
use wasm_http_host::server::HttpServerImplementor;

#[test]
fn routes_keep_declaration_order() {
    let mut r = RouterInner::new("/base");
    r.get("/a".to_string(), "ha".to_string()).unwrap();
    r.put("/b".to_string(), "hb".to_string()).unwrap();
    r.post("/c".to_string(), "hc".to_string()).unwrap();
    let copy = r.delete("/d".to_string(), "hd".to_string()).unwrap();
    assert_eq!(r._base_uri, "/base");
    let methods: Vec<Methods> = r.routes.iter().map(|x| x.method).collect();
    assert_eq!(methods, vec![Methods::GET, Methods::PUT, Methods::POST, Methods::DELETE]);
    assert_eq!(copy.routes.len(), 4);
    assert_eq!(copy.routes[3].route, "/d");
    assert_eq!(copy.routes[3].handler, "hd");
}

#[test]
fn handler_name_is_stored_as_given() {
    let mut imp = HttpServerImplementor::new();
    let r = imp.router_new().unwrap();
    assert_eq!(r._base_uri, "");
    let r2 = imp.router_get(&r, "/x/:y", "my_handler").unwrap();
    assert!(r.routes.is_empty());
    assert_eq!(r2.routes.len(), 1);
    assert_eq!(r2.routes[0].handler, "my_handler");
    assert_eq!(r2.routes[0].method, Methods::GET);
    let r3 = imp.router_delete(&r2, "/z", "z").unwrap();
    assert_eq!(r3.routes.len(), 2);
    assert_eq!(r3.routes[1].method, Methods::DELETE);
    let b = imp.router_new_with_base("/root").unwrap();
    assert_eq!(b._base_uri, "/root");
}

#[test]
fn serve_keeps_the_server_and_stop_lowers_the_flag() {
    let mut imp = HttpServerImplementor::new();
    assert!(!imp.has_server());
    let r = imp.router_new().unwrap();
    let r = imp.router_post(&r, "/p", "post_it").unwrap();
    let server = imp.server_serve("0.0.0.0:8080", &r).unwrap();
    assert!(imp.has_server());
    let kept = imp.server().unwrap();
    assert_eq!(kept.address, "0.0.0.0:8080");
    assert_eq!(kept.router.routes.len(), 1);
    assert!(kept.keep_going.keep_going());
    imp.server_stop(&server).unwrap();
    assert!(!kept.keep_going.keep_going());
    assert!(!server.keep_going.keep_going());
}

#[test]
fn router_added_after_serve_is_not_seen() {
    let mut imp = HttpServerImplementor::new();
    let r = imp.router_new().unwrap();
    let r = imp.router_get(&r, "/a", "a").unwrap();
    let server = imp.server_serve("127.0.0.1:1", &r).unwrap();
    let _r2 = imp.router_get(&r, "/b", "b").unwrap();
    assert_eq!(server.router.routes.len(), 1);
}
