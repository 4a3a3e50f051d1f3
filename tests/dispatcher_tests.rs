use wasm_http_host::dispatcher::{HandlerCache, Registration};
use wasm_http_host::message::HttpError;

#[test]
fn registration_resolves_once() {
    let mut cache: HandlerCache<u32> = HandlerCache::new();
    assert_eq!(cache.registration("greet"), Registration::Resolve);
    assert!(cache.record("greet".to_string(), Ok(7)).is_ok());
    assert_eq!(cache.registration("greet"), Registration::Known);
    assert_eq!(cache.registration("other"), Registration::Resolve);
    assert_eq!(cache.position("greet"), Some(0));
}

#[test]
fn failed_resolution_is_reported_and_not_cached() {
    let mut cache: HandlerCache<u32> = HandlerCache::new();
    let r = cache.record("missing-fn".to_string(), Err("no export".to_string()));
    assert_eq!(r, Err("Cannot find handler: no export".to_string()));
    assert_eq!(cache.registration("missing-fn"), Registration::Resolve);
    assert!(cache.record("missing-fn".to_string(), Ok(1)).is_ok());
    assert_eq!(cache.registration("missing-fn"), Registration::Known);
}

#[test]
fn lookup_finds_binding_or_gives_400() {
    let mut cache: HandlerCache<u32> = HandlerCache::new();
    cache.record("a".to_string(), Ok(10)).unwrap();
    cache.record("b".to_string(), Ok(20)).unwrap();
    assert_eq!(cache.lookup("b").ok(), Some(&20));
    assert_eq!(cache.lookup("a").ok(), Some(&10));
    assert!(matches!(cache.lookup("c"), Err(HttpError::StatusError(400))));
}

use wasm_http_host::dispatcher::{finish_invocation, Answer, OperationRequest, Step};
use wasm_http_host::message::Response;

type Op = OperationRequest<&'static str, u8, u16>;

#[test]
fn cached_registration_is_answered_without_lookup() {
    let mut cache: HandlerCache<u32> = HandlerCache::new();
    let op: Op = OperationRequest::RegisterHttpHandler { handler_name: "greet".to_string(), tx: 1 };
    let (name, tx) = match cache.begin(op) {
        Step::Resolve { handler_name, tx } => (handler_name, tx),
        _ => panic!("an unknown name must be looked up"),
    };
    let answer: Answer<u8, u16> = cache.finish_registration(name, tx, Ok(5));
    assert!(matches!(answer, Answer::Registered { tx: 1, reply: Ok(()) }));
    let op: Op = OperationRequest::RegisterHttpHandler { handler_name: "greet".to_string(), tx: 2 };
    assert!(matches!(cache.begin(op), Step::Done(Answer::Registered { tx: 2, reply: Ok(()) })));
    assert_eq!(cache.lookup("greet").ok(), Some(&5));
}

#[test]
fn failed_lookup_is_answered_on_its_slot() {
    let mut cache: HandlerCache<u32> = HandlerCache::new();
    let answer: Answer<u8, u16> =
        cache.finish_registration("missing-fn".to_string(), 9, Err("no export".to_string()));
    match answer {
        Answer::Registered { tx, reply } => {
            assert_eq!(tx, 9);
            assert_eq!(reply, Err("Cannot find handler: no export".to_string()));
        }
        _ => panic!("a registration is answered as one"),
    }
}

#[test]
fn invocation_steps() {
    let mut cache: HandlerCache<u32> = HandlerCache::new();
    let op: Op = OperationRequest::InvokeHttpHandler {
        handler_name: "echo".to_string(),
        http_req: "req",
        tx: 3,
    };
    assert!(matches!(
        cache.begin(op),
        Step::Done(Answer::Handled { tx: 3, reply: Err(HttpError::StatusError(400)) })
    ));
    cache.record("echo".to_string(), Ok(77)).unwrap();
    let op: Op = OperationRequest::InvokeHttpHandler {
        handler_name: "echo".to_string(),
        http_req: "req",
        tx: 4,
    };
    let (index, req, tx) = match cache.begin(op) {
        Step::Call { index, http_req, tx } => (index, http_req, tx),
        _ => panic!("a cached handler must be called"),
    };
    assert_eq!((*cache.binding(index), req, tx), (77, "req", 4));
    let answer: Answer<u8, u16> = finish_invocation(tx, Err("trap".to_string()));
    assert!(matches!(answer, Answer::Handled { tx: 4, reply: Err(HttpError::StatusError(500)) }));
    let ok = Response { status: 200, headers: None, body: None };
    let answer: Answer<u8, u16> = finish_invocation(5, Ok(Ok(ok)));
    assert!(matches!(answer, Answer::Handled { tx: 5, reply: Ok(Response { status: 200, .. }) }));
}
