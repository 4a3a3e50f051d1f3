use vstd::prelude::*;

verus! {

/// The methods a route can be declared with.
#[allow(clippy::upper_case_acronyms)]
#[derive(Clone, Copy, Debug, PartialEq, Eq, Structural)]
pub enum Methods {
    GET,
    PUT,
    POST,
    DELETE,
}

/// One declared route: a method, a path pattern with optional `:param`
/// segments, and the name of the guest export that handles it.
#[derive(Debug)]
pub struct Route {
    pub method: Methods,
    pub route: String,
    pub handler: String,
}

/// Errors a router operation can report to the guest.
#[derive(Debug)]
pub enum HttpRouterError {
    UnexpectedError(String),
}

/// The ordered list of routes a guest builds. Declaration order is kept and
/// is the order in which routes are tried.
#[derive(Debug)]
pub struct RouterInner {
    /// The base URI the router was created with; not applied to matching.
    pub _base_uri: String,
    pub routes: Vec<Route>,
}

impl Route {
    /// A field-by-field copy of the route.
    pub fn duplicate(&self) -> (r: Route)
        ensures
            r == *self,
    {
        Route { method: self.method, route: self.route.clone(), handler: self.handler.clone() }
    }
}

impl RouterInner {
    /// Both routers have the same base URI and the same routes in the same order.
    pub open spec fn same_as(self, other: RouterInner) -> bool {
        self._base_uri == other._base_uri && self.routes@ == other.routes@
    }

    /// A router with the given base URI and no routes.
    pub fn new(uri: &str) -> (r: Self)
        ensures
            r._base_uri@ == uri@,
            r.routes@.len() == 0,
    {
        RouterInner { _base_uri: uri.to_owned(), routes: Vec::new() }
    }

    /// A router with an empty base URI and no routes.
    pub fn empty() -> (r: Self)
        ensures
            r._base_uri@.len() == 0,
            r.routes@.len() == 0,
    {
        RouterInner { _base_uri: String::new(), routes: Vec::new() }
    }

    /// A copy of the router, route for route.
    pub fn duplicate(&self) -> (r: Self)
        ensures
            r.same_as(*self),
    {
        let mut routes: Vec<Route> = Vec::new();
        let mut i: usize = 0;
        while i < self.routes.len()
            invariant
                i <= self.routes@.len(),
                routes@ == self.routes@.subrange(0, i as int),
            decreases self.routes@.len() - i,
        {
            routes.push(self.routes[i].duplicate());
            i = i + 1;
            assert(routes@ =~= self.routes@.subrange(0, i as int));
        }
        assert(routes@ =~= self.routes@);
        RouterInner { _base_uri: self._base_uri.clone(), routes }
    }

    /// Adds a new route with `GET` method and the handler's name.
    pub fn get(&mut self, route: String, handler: String) -> (r: Result<Self, HttpRouterError>)
        ensures
            final(self)._base_uri == old(self)._base_uri,
            final(self).routes@ == old(self).routes@.push((Route { method: Methods::GET, route, handler })),
            r matches Ok(c) && c.same_as(*final(self)),
    {
        self.add(route, handler, Methods::GET)
    }

    /// Adds a new route with `PUT` method and the handler's name.
    pub fn put(&mut self, route: String, handler: String) -> (r: Result<Self, HttpRouterError>)
        ensures
            final(self)._base_uri == old(self)._base_uri,
            final(self).routes@ == old(self).routes@.push((Route { method: Methods::PUT, route, handler })),
            r matches Ok(c) && c.same_as(*final(self)),
    {
        self.add(route, handler, Methods::PUT)
    }

    /// Adds a new route with `POST` method and the handler's name.
    pub fn post(&mut self, route: String, handler: String) -> (r: Result<Self, HttpRouterError>)
        ensures
            final(self)._base_uri == old(self)._base_uri,
            final(self).routes@ == old(self).routes@.push((Route { method: Methods::POST, route, handler })),
            r matches Ok(c) && c.same_as(*final(self)),
    {
        self.add(route, handler, Methods::POST)
    }

    /// Adds a new route with `DELETE` method and the handler's name.
    pub fn delete(&mut self, route: String, handler: String) -> (r: Result<Self, HttpRouterError>)
        ensures
            final(self)._base_uri == old(self)._base_uri,
            final(self).routes@ == old(self).routes@.push((Route { method: Methods::DELETE, route, handler })),
            r matches Ok(c) && c.same_as(*final(self)),
    {
        self.add(route, handler, Methods::DELETE)
    }

    /// Adds a new route with the given method and the handler's name, and
    /// returns a copy of the router as it now stands.
    pub fn add(&mut self, route: String, handler: String, method: Methods) -> (r: Result<
        Self,
        HttpRouterError,
    >)
        ensures
            final(self)._base_uri == old(self)._base_uri,
            final(self).routes@ == old(self).routes@.push((Route { method, route, handler })),
            r matches Ok(c) && c.same_as(*final(self)),
    {
        self.routes.push(Route { method, route, handler });
        Ok(self.duplicate())
    }
}

} // verus!
