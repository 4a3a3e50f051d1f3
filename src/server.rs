use vstd::prelude::*;
use std::sync::Arc;
use crate::router::{HttpRouterError, Methods, Route, RouterInner};

verus! {

#[verifier::external_type_specification]
#[verifier::external_body]
#[verifier::reject_recursive_types(R)]
#[verifier::reject_recursive_types(T)]
pub struct ExRwLock<R, T: ?Sized>(parking_lot::lock_api::RwLock<R, T>);

#[verifier::external_type_specification]
#[verifier::external_body]
pub struct ExRawRwLock(parking_lot::RawRwLock);

/// Relies on parking_lot::RwLock::new: a fresh lock, shared through an `Arc`.
#[verifier::external_body]
fn new_lock(value: bool) -> (r: Arc<parking_lot::RwLock<bool>>) {
    Arc::new(parking_lot::RwLock::new(value))
}

/// Relies on parking_lot::RwLock::read: the value the lock holds now, which
/// another thread may change at any time.
#[verifier::external_body]
fn read_lock(lock: &Arc<parking_lot::RwLock<bool>>) -> (r: bool) {
    *lock.read()
}

/// Relies on parking_lot::RwLock::write: stores the value under the lock.
#[verifier::external_body]
fn write_lock(lock: &Arc<parking_lot::RwLock<bool>>, value: bool) {
    *lock.write() = value;
}

/// Relies on Arc::clone: a second handle on the same lock.
#[verifier::external_body]
fn share_lock(lock: &Arc<parking_lot::RwLock<bool>>) -> (r: Arc<parking_lot::RwLock<bool>>) {
    Arc::clone(lock)
}

/// The shared "keep going" flag: set when the server is created, cleared
/// once by `stop`, and read by every worker after each iteration.
#[derive(Debug)]
pub struct ShutdownFlag {
    lock: Arc<parking_lot::RwLock<bool>>,
}

impl ShutdownFlag {
    /// A raised flag.
    pub fn new() -> (r: Self) {
        ShutdownFlag { lock: new_lock(true) }
    }

    /// Another handle on the same flag.
    pub fn share(&self) -> (r: Self) {
        ShutdownFlag { lock: share_lock(&self.lock) }
    }

    /// Whether the flag is still raised.
    pub fn keep_going(&self) -> (r: bool) {
        read_lock(&self.lock)
    }

    /// Lowers the flag, for every handle on it.
    pub fn lower(&self) {
        write_lock(&self.lock, false)
    }
}

/// A server handle: the bind address, the routes captured when the guest
/// asked to serve, and the shared shutdown flag.
#[derive(Debug)]
pub struct HttpServerInner {
    pub router: RouterInner,
    pub address: String,
    pub keep_going: ShutdownFlag,
}

impl HttpServerInner {
    /// A handle for the address with a copy of the router's routes and a
    /// raised flag.
    pub fn new(address: &str, router: &RouterInner) -> (r: Self)
        ensures
            r.router.same_as(*router),
            r.address@ == address@,
    {
        HttpServerInner {
            router: router.duplicate(),
            address: address.to_owned(),
            keep_going: ShutdownFlag::new(),
        }
    }

    /// A second handle on the same server: same routes, same address, same flag.
    pub fn share(&self) -> (r: Self)
        ensures
            r.router.same_as(self.router),
            r.address == self.address,
    {
        HttpServerInner {
            router: self.router.duplicate(),
            address: self.address.clone(),
            keep_going: self.keep_going.share(),
        }
    }

    /// Asks every worker to stop after its current iteration.
    pub fn stop(&mut self) -> (r: Result<(), HttpRouterError>)
        ensures
            r is Ok,
            final(self).router == old(self).router,
            final(self).address == old(self).address,
    {
        self.keep_going.lower();
        Ok(())
    }
}

/// The router and server operations offered to the guest. Routers have
/// value semantics for the guest: each route operation returns the router
/// with the new route appended.
#[derive(Debug)]
pub struct HttpServerImplementor {
    /// The server the guest asked to serve, once it has.
    pub inner: Option<HttpServerInner>,
}

/// `result` is `router` with one more route at the end, made of the
/// method, the path pattern and the handler name.
pub open spec fn with_route(
    result: RouterInner,
    router: RouterInner,
    method: Methods,
    route: Seq<char>,
    handler: Seq<char>,
) -> bool {
    &&& result._base_uri == router._base_uri
    &&& result.routes@.len() == router.routes@.len() + 1
    &&& result.routes@.drop_last() == router.routes@
    &&& result.routes@.last().method == method
    &&& result.routes@.last().route@ == route
    &&& result.routes@.last().handler@ == handler
}

impl HttpServerImplementor {
    /// No server yet.
    pub fn new() -> (r: Self)
        ensures
            r.inner is None,
    {
        HttpServerImplementor { inner: None }
    }

    /// Whether the guest has asked to serve.
    pub fn has_server(&self) -> (r: bool)
        ensures
            r == self.inner is Some,
    {
        self.inner.is_some()
    }

    /// A handle on the server the guest asked to serve, if any.
    pub fn server(&self) -> (r: Option<HttpServerInner>)
        ensures
            r is Some <==> self.inner is Some,
            r matches Some(s) ==> s.router.same_as(self.inner->0.router) && s.address
                == self.inner->0.address,
    {
        match &self.inner {
            Some(s) => Some(s.share()),
            None => None,
        }
    }

    /// A new router with no routes.
    pub fn router_new(&mut self) -> (r: Result<RouterInner, HttpRouterError>)
        ensures
            r matches Ok(router) && router._base_uri@.len() == 0 && router.routes@.len() == 0,
    {
        Ok(RouterInner::empty())
    }

    /// A new router with the given base URI and no routes.
    pub fn router_new_with_base(&mut self, base: &str) -> (r: Result<RouterInner, HttpRouterError>)
        ensures
            r matches Ok(router) && router._base_uri@ == base@ && router.routes@.len() == 0,
    {
        Ok(RouterInner::new(base))
    }

    fn router_add(router: &RouterInner, route: &str, handler: &str, method: Methods) -> (r: Result<
        RouterInner,
        HttpRouterError,
    >)
        ensures
            r matches Ok(res) && with_route(res, *router, method, route@, handler@),
    {
        let mut copy = router.duplicate();
        let r = copy.add(route.to_owned(), handler.to_owned(), method);
        assert(copy.routes@.drop_last() =~= router.routes@);
        r
    }

    /// Declares a `GET` route; the handler name is stored as given.
    pub fn router_get(&mut self, router: &RouterInner, route: &str, handler: &str) -> (r: Result<
        RouterInner,
        HttpRouterError,
    >)
        ensures
            r matches Ok(res) && with_route(res, *router, Methods::GET, route@, handler@),
    {
        Self::router_add(router, route, handler, Methods::GET)
    }

    /// Declares a `PUT` route; the handler name is stored as given.
    pub fn router_put(&mut self, router: &RouterInner, route: &str, handler: &str) -> (r: Result<
        RouterInner,
        HttpRouterError,
    >)
        ensures
            r matches Ok(res) && with_route(res, *router, Methods::PUT, route@, handler@),
    {
        Self::router_add(router, route, handler, Methods::PUT)
    }

    /// Declares a `POST` route; the handler name is stored as given.
    pub fn router_post(&mut self, router: &RouterInner, route: &str, handler: &str) -> (r: Result<
        RouterInner,
        HttpRouterError,
    >)
        ensures
            r matches Ok(res) && with_route(res, *router, Methods::POST, route@, handler@),
    {
        Self::router_add(router, route, handler, Methods::POST)
    }

    /// Declares a `DELETE` route; the handler name is stored as given.
    pub fn router_delete(&mut self, router: &RouterInner, route: &str, handler: &str) -> (r: Result<
        RouterInner,
        HttpRouterError,
    >)
        ensures
            r matches Ok(res) && with_route(res, *router, Methods::DELETE, route@, handler@),
    {
        Self::router_add(router, route, handler, Methods::DELETE)
    }

    /// Captures the router's current routes in a new server handle, keeps
    /// that handle as the server to run, and returns it.
    pub fn server_serve(&mut self, address: &str, router: &RouterInner) -> (r: Result<
        HttpServerInner,
        HttpRouterError,
    >)
        ensures
            r matches Ok(s) && s.router.same_as(*router) && s.address@ == address@,
            final(self).inner matches Some(kept) && kept.router.same_as(*router) && kept.address@
                == address@,
    {
        let server = HttpServerInner::new(address, router);
        self.inner = Some(server.share());
        Ok(server)
    }

    /// Stops the given server: its workers exit after their current iteration.
    pub fn server_stop(&mut self, server: &HttpServerInner) -> (r: Result<(), HttpRouterError>)
        ensures
            r is Ok,
    {
        server.keep_going.lower();
        Ok(())
    }
}

} // verus!
