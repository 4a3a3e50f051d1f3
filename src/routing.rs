use vstd::prelude::*;
use crate::message::{pairs_view, Method};
use crate::router::{Methods, Route};

verus! {

#[verifier::external_type_specification]
#[verifier::external_body]
#[verifier::reject_recursive_types(T)]
pub struct ExRecognizer<T>(route_recognizer::Router<T>);

/// The path patterns a recognizer has been given, in the order they were added.
pub uninterp spec fn recognizer_patterns(r: route_recognizer::Router<()>) -> Seq<Seq<char>>;

/// What route_recognizer finds for a path among the given patterns: nothing,
/// or the captured parameters as (name, value) pairs.
pub uninterp spec fn recognized(patterns: Seq<Seq<char>>, path: Seq<char>) -> Option<
    Seq<(Seq<char>, Seq<char>)>,
>;

/// Relies on route_recognizer::Router::new: the router starts with no patterns.
#[verifier::external_body]
fn new_recognizer() -> (r: route_recognizer::Router<()>)
    ensures
        recognizer_patterns(r) == Seq::<Seq<char>>::empty(),
{
    route_recognizer::Router::new()
}

/// A pattern route_recognizer can take: once a leading `/` is dropped, it is
/// empty or starts with an ASCII character (`Router::add` slices the pattern
/// one byte past its start), and it holds no NUL character (its character
/// classes subtract one from each character's code).
pub open spec fn pattern_supported(p: Seq<char>) -> bool {
    let rest = if p.len() > 0 && p[0] == '/' {
        p.drop_first()
    } else {
        p
    };
    &&& rest.len() == 0 || (rest[0] as u32) < 128
    &&& !p.contains('\0')
}

/// Whether the text holds a NUL character.
pub fn contains_nul(s: &str) -> (r: bool)
    ensures
        r == s@.contains('\0'),
{
    let n = s.unicode_len();
    let mut i: usize = 0;
    while i < n
        invariant
            n == s@.len(),
            i <= n,
            forall|j: int| 0 <= j < i ==> s@[j] != '\0',
        decreases n - i,
    {
        if s.get_char(i) == '\0' {
            return true;
        }
        i = i + 1;
    }
    false
}

/// Whether route_recognizer can take the pattern.
pub fn is_pattern_supported(pattern: &str) -> (r: bool)
    ensures
        r == pattern_supported(pattern@),
{
    if contains_nul(pattern) {
        return false;
    }
    let n = pattern.unicode_len();
    if n == 0 {
        return true;
    }
    let first = pattern.get_char(0);
    if first == '/' {
        if n == 1 {
            true
        } else {
            (pattern.get_char(1) as u32) < 128
        }
    } else {
        (first as u32) < 128
    }
}

/// Relies on route_recognizer::Router::add: the pattern is appended to those
/// the router holds.
#[verifier::external_body]
fn add_pattern(r: &mut route_recognizer::Router<()>, pattern: &str)
    requires
        pattern_supported(pattern@),
    ensures
        recognizer_patterns(*final(r)) == recognizer_patterns(*old(r)).push(pattern@),
{
    r.add(pattern, ())
}

/// Relies on route_recognizer::Router::recognize: the outcome depends on the
/// router's patterns and the path alone; the parameters of a match are handed
/// out as owned (name, value) pairs. A path with a NUL character is left out:
/// its character classes subtract one from each character's code.
#[verifier::external_body]
fn recognize(r: &route_recognizer::Router<()>, path: &str) -> (res: Option<Vec<(String, String)>>)
    requires
        !path@.contains('\0'),
    ensures
        match res {
            Some(v) => recognized(recognizer_patterns(*r), path@) == Some(pairs_view(v@)),
            None => recognized(recognizer_patterns(*r), path@) is None,
        },
{
    r.recognize(path).ok().map(|m| m.params().iter().map(|(k, v)| (k.to_string(), v.to_string())).collect())
}

/// Whether the pattern alone matches the path, and with which parameters.
pub open spec fn pattern_match(pattern: Seq<char>, path: Seq<char>) -> Option<
    Seq<(Seq<char>, Seq<char>)>,
> {
    recognized(seq![pattern], path)
}

/// A handler name as the guest exports it: underscores become hyphens.
pub open spec fn export_name(name: Seq<char>) -> Seq<char> {
    name.map_values(|c: char| if c == '_' { '-' } else { c })
}

/// The name under which the handler of a declared route is registered and
/// invoked.
pub fn handler_export_name(name: &str) -> (r: String)
    ensures
        r@ == export_name(name@),
{
    let n = name.unicode_len();
    let mut r = String::new();
    let mut i: usize = 0;
    while i < n
        invariant
            n == name@.len(),
            i <= n,
            r@ == export_name(name@.subrange(0, i as int)),
        decreases n - i,
    {
        let ghost before = r@;
        let c = name.get_char(i);
        if c == '_' {
            proof {
                reveal_strlit("-");
            }
            r.append("-");
            assert("-"@ =~= seq!['-']);
        } else {
            let one = name.substring_char(i, i + 1);
            assert(one@ =~= seq![c]);
            r.append(one);
        }
        assert(r@ =~= before.push(if c == '_' { '-' } else { c }));
        assert(name@.subrange(0, i + 1) =~= name@.subrange(0, i as int).push(c));
        assert(r@ =~= export_name(name@.subrange(0, i + 1)));
        i = i + 1;
    }
    assert(name@.subrange(0, n as int) =~= name@);
    r
}

/// Whether a route declared with `declared` serves requests made with `method`.
pub open spec fn serves(declared: Methods, method: Option<Method>) -> bool {
    match method {
        Some(Method::Get) => declared == Methods::GET,
        Some(Method::Put) => declared == Methods::PUT,
        Some(Method::Post) => declared == Methods::POST,
        Some(Method::Delete) => declared == Methods::DELETE,
        _ => false,
    }
}

fn serves_exec(declared: Methods, method: Option<Method>) -> (r: bool)
    ensures
        r == serves(declared, method),
{
    match method {
        Some(Method::Get) => declared == Methods::GET,
        Some(Method::Put) => declared == Methods::PUT,
        Some(Method::Post) => declared == Methods::POST,
        Some(Method::Delete) => declared == Methods::DELETE,
        _ => false,
    }
}

/// A worker's routing table: the declared routes in declaration order, each
/// with its handler's export name and a recognizer for its pattern alone, so
/// that routes are tried one by one in the order they were declared.
pub struct RouteTable {
    routes: Vec<Route>,
    matchers: Vec<route_recognizer::Router<()>>,
}

/// The route serves the method and its pattern matches the path.
pub open spec fn accepts(route: Route, method: Option<Method>, path: Seq<char>) -> bool {
    serves(route.method, method) && pattern_match(route.route@, path) is Some
}

/// How a request is routed.
#[derive(Debug)]
pub enum Routing {
    /// No route is declared for the request's method.
    BadRequest,
    /// Routes exist for the method, but none matches the path.
    NotFound,
    /// The first declared route that matches, with the parameters it captured.
    Matched { handler: String, params: Vec<(String, String)> },
}

impl RouteTable {
    pub closed spec fn view(&self) -> Seq<Route> {
        self.routes@
    }

    pub closed spec fn wf(&self) -> bool {
        &&& self.matchers@.len() == self.routes@.len()
        &&& forall|i: int|
            0 <= i < self.routes@.len() ==> recognizer_patterns(#[trigger] self.matchers@[i])
                == seq![self.routes@[i].route@]
    }

    /// Some route of the table is declared with the method.
    pub open spec fn has_method(&self, method: Option<Method>) -> bool {
        exists|i: int| 0 <= i < self@.len() && serves(#[trigger] self@[i].method, method)
    }

    /// Entry `i` accepts the request and no earlier entry does.
    pub open spec fn is_first_match(&self, method: Option<Method>, path: Seq<char>, i: int) -> bool {
        &&& 0 <= i < self@.len()
        &&& accepts(self@[i], method, path)
        &&& forall|j: int| 0 <= j < i ==> !accepts(#[trigger] self@[j], method, path)
    }

    /// Builds the table from the declared routes, in their order. The handler
    /// names are rewritten to the guest's export names. A pattern that cannot
    /// be recognized is refused with the position of the first such route.
    pub fn build(routes: &Vec<Route>) -> (r: Result<RouteTable, usize>)
        ensures
            match r {
                Ok(t) => {
                    &&& t.wf()
                    &&& t@.len() == routes@.len()
                    &&& forall|i: int|
                        0 <= i < routes@.len() ==> {
                            &&& (#[trigger] t@[i]).method == routes@[i].method
                            &&& t@[i].route@ == routes@[i].route@
                            &&& t@[i].handler@ == export_name(routes@[i].handler@)
                        }
                },
                Err(i) => {
                    &&& i < routes@.len()
                    &&& !pattern_supported(routes@[i as int].route@)
                    &&& forall|j: int| 0 <= j < i ==> pattern_supported(#[trigger] routes@[j].route@)
                },
            },
    {
        let mut table = RouteTable { routes: Vec::new(), matchers: Vec::new() };
        let mut i: usize = 0;
        while i < routes.len()
            invariant
                i <= routes@.len(),
                table.wf(),
                table@.len() == i,
                forall|k: int|
                    0 <= k < i ==> {
                        &&& (#[trigger] table@[k]).method == routes@[k].method
                        &&& table@[k].route@ == routes@[k].route@
                        &&& table@[k].handler@ == export_name(routes@[k].handler@)
                        &&& pattern_supported(routes@[k].route@)
                    },
            decreases routes@.len() - i,
        {
            let route = &routes[i];
            if !is_pattern_supported(route.route.as_str()) {
                assert forall|j: int| 0 <= j < i implies pattern_supported(
                    #[trigger] routes@[j].route@,
                ) by {
                    assert(table@[j].route@ == routes@[j].route@);
                }
                return Err(i);
            }
            let mut matcher = new_recognizer();
            add_pattern(&mut matcher, route.route.as_str());
            proof {
                assert(Seq::<Seq<char>>::empty().push(route.route@) =~= seq![route.route@]);
            }
            table.routes.push(
                Route {
                    method: route.method,
                    route: route.route.clone(),
                    handler: handler_export_name(route.handler.as_str()),
                },
            );
            table.matchers.push(matcher);
            i = i + 1;
        }
        Ok(table)
    }

    /// The number of routes in the table.
    pub fn len(&self) -> (r: usize)
        ensures
            r == self@.len(),
    {
        self.routes.len()
    }

    /// The export name of the handler of route `i`.
    pub fn handler_at(&self, i: usize) -> (r: &String)
        requires
            i < self@.len(),
        ensures
            *r == self@[i as int].handler,
    {
        &self.routes[i].handler
    }

    /// Routes a request: 400 when no route is declared for its method, 404
    /// when none of those routes matches the path (a path holding a NUL
    /// character matches none), and otherwise the first matching route in
    /// declaration order.
    pub fn route_request(&self, method: Option<Method>, path: &str) -> (r: Routing)
        requires
            self.wf(),
        ensures
            r is BadRequest <==> !self.has_method(method),
            r is NotFound <==> (self.has_method(method) && (path@.contains('\0') || forall|i: int|
                0 <= i < self@.len() ==> !accepts(#[trigger] self@[i], method, path@))),
            r is Matched ==> !path@.contains('\0'),
            r matches Routing::Matched { handler, params } ==> exists|i: int|
                #[trigger] self.is_first_match(method, path@, i) && handler == self@[i].handler
                    && pattern_match(self@[i].route@, path@) == Some(pairs_view(params@)),
    {
        let has_nul = contains_nul(path);
        let mut seen_method = false;
        let mut i: usize = 0;
        while i < self.routes.len()
            invariant
                self.wf(),
                has_nul == path@.contains('\0'),
                i <= self@.len(),
                seen_method <==> exists|j: int| 0 <= j < i && serves(#[trigger] self@[j].method, method),
                !has_nul ==> forall|j: int| 0 <= j < i ==> !accepts(#[trigger] self@[j], method, path@),
            decreases self@.len() - i,
        {
            let route = &self.routes[i];
            if serves_exec(route.method, method) {
                seen_method = true;
            }
            if !has_nul && serves_exec(route.method, method) {
                match recognize(&self.matchers[i], path) {
                    Some(params) => {
                        assert(self.is_first_match(method, path@, i as int));
                        return Routing::Matched { handler: route.handler.clone(), params };
                    },
                    None => {},
                }
            }
            i = i + 1;
        }
        if seen_method {
            Routing::NotFound
        } else {
            Routing::BadRequest
        }
    }
}

/// Of two routes that both accept a request, the one declared later is never
/// the one chosen: the first declared route wins.
pub proof fn lemma_first_declared_route_wins(
    table: RouteTable,
    method: Option<Method>,
    path: Seq<char>,
    first: int,
    later: int,
    chosen: int,
)
    requires
        0 <= first < later < table@.len(),
        accepts(table@[first], method, path),
        accepts(table@[later], method, path),
        table.is_first_match(method, path, chosen),
    ensures
        chosen <= first,
        chosen != later,
{
}

/// When `first` is the earliest route that accepts a request, it is the one
/// chosen, whatever routes accepting the same request are declared after it.
pub proof fn lemma_earliest_accepting_route_is_chosen(
    table: RouteTable,
    method: Option<Method>,
    path: Seq<char>,
    first: int,
    chosen: int,
)
    requires
        0 <= first < table@.len(),
        accepts(table@[first], method, path),
        forall|j: int| 0 <= j < first ==> !accepts(#[trigger] table@[j], method, path),
        table.is_first_match(method, path, chosen),
    ensures
        chosen == first,
        table@[chosen].handler == table@[first].handler,
{
}

} // verus!
