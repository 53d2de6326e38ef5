//! The route table: an exact (path, method) dictionary built once at
//! startup, looked up for every request. Matching is case-sensitive and
//! exact; when one key is registered twice, the latest registration wins.
use vstd::prelude::*;
use crate::render::handle_goodbye;
use crate::render::handle_hello;
use crate::render::handle_not_found;
use crate::render::handle_submit;
use crate::render::lemma_rendered_embeds;
use crate::render::spec_rendered;
use crate::text::str_eq;

verus! {

/// The HTTP methods a route may be registered under.
#[derive(Clone, Copy, PartialEq, Eq, Structural, Debug)]
pub enum Method {
    Get,
    Post,
    Put,
    Delete,
    Head,
    Options,
    Connect,
    Patch,
    Trace,
}

/// The registered page handlers; `NotFound` is the fallback for requests
/// that match no route.
#[derive(Clone, Copy, PartialEq, Eq, Structural, Debug)]
pub enum Handler {
    Hello,
    Goodbye,
    Submit,
    NotFound,
}

/// The response triple (body, content type, status code) a handler yields
/// for the raw request text it is handed. Each page handler renders its
/// fixed title and content into the HTML template; none reads the request.
pub open spec fn handler_response(h: Handler, request: Seq<char>) -> (Seq<char>, Seq<char>, u16) {
    match h {
        Handler::Hello => (
            spec_rendered("Hello Page"@, "Hello, Rust HTTP Server!"@),
            "text/html"@,
            200,
        ),
        Handler::Goodbye => (
            spec_rendered("Goodbye Page"@, "Goodbye, Rust HTTP Server!"@),
            "text/html"@,
            200,
        ),
        Handler::Submit => (
            spec_rendered("Submission Page"@, "Data submitted successfully!"@),
            "text/html"@,
            200,
        ),
        Handler::NotFound => (spec_rendered("404 - Not Found"@, "Not Found"@), "text/html"@, 404),
    }
}

/// Runs the handler on the raw request text.
pub fn run_handler(h: Handler, request: &str) -> (r: (String, &'static str, u16))
    ensures
        (r.0@, r.1@, r.2) == handler_response(h, request@),
{
    match h {
        Handler::Hello => handle_hello(request),
        Handler::Goodbye => handle_goodbye(request),
        Handler::Submit => handle_submit(request),
        Handler::NotFound => handle_not_found(request),
    }
}

/// Every handler's page embeds its title and its content word for word in
/// the fixed template: the body is the template's opening, the title, the
/// template's middle, the content, and the template's closing.
pub proof fn lemma_pages_embed_their_content(h: Handler, request: Seq<char>)
    ensures
        ({
            let body = handler_response(h, request).0;
            let opening = "\n<!DOCTYPE html>\n<html>\n<head>\n    <title>"@;
            let middle = "</title>\n</head>\n<body>\n    <h1>"@;
            let closing = "</h1>\n</body>\n</html>\n"@;
            match h {
                Handler::Hello => body == opening + "Hello Page"@ + middle
                    + "Hello, Rust HTTP Server!"@ + closing,
                Handler::Goodbye => body == opening + "Goodbye Page"@ + middle
                    + "Goodbye, Rust HTTP Server!"@ + closing,
                Handler::Submit => body == opening + "Submission Page"@ + middle
                    + "Data submitted successfully!"@ + closing,
                Handler::NotFound => body == opening + "404 - Not Found"@ + middle + "Not Found"@
                    + closing,
            }
        }),
{
    match h {
        Handler::Hello => {
            reveal_strlit("Hello Page");
            assert forall|i: int| 0 <= i < "Hello Page"@.len() implies "Hello Page"@[i]
                != '{' by {}
            lemma_rendered_embeds("Hello Page"@, "Hello, Rust HTTP Server!"@);
        },
        Handler::Goodbye => {
            reveal_strlit("Goodbye Page");
            assert forall|i: int| 0 <= i < "Goodbye Page"@.len() implies "Goodbye Page"@[i]
                != '{' by {}
            lemma_rendered_embeds("Goodbye Page"@, "Goodbye, Rust HTTP Server!"@);
        },
        Handler::Submit => {
            reveal_strlit("Submission Page");
            assert forall|i: int| 0 <= i < "Submission Page"@.len() implies "Submission Page"@[i]
                != '{' by {}
            lemma_rendered_embeds("Submission Page"@, "Data submitted successfully!"@);
        },
        Handler::NotFound => {
            reveal_strlit("404 - Not Found");
            assert forall|i: int| 0 <= i < "404 - Not Found"@.len() implies "404 - Not Found"@[i]
                != '{' by {}
            lemma_rendered_embeds("404 - Not Found"@, "Not Found"@);
        },
    }
}

/// The immutable mapping from (exact path, method) to a handler, built
/// before connections are accepted and only read afterwards.
pub struct RouteTable {
    routes: Vec<(String, Method, Handler)>,
}

impl View for RouteTable {
    type V = Seq<(Seq<char>, Method, Handler)>;

    closed spec fn view(&self) -> Seq<(Seq<char>, Method, Handler)> {
        Seq::new(self.routes@.len(), |i: int| (self.routes@[i].0@, self.routes@[i].1, self.routes@[i].2))
    }
}

/// The handler registered for (path, method), if any; when the key was
/// registered more than once, the latest registration wins.
pub open spec fn spec_lookup(
    rs: Seq<(Seq<char>, Method, Handler)>,
    path: Seq<char>,
    method: Method,
) -> Option<Handler>
    decreases rs.len(),
{
    if rs.len() == 0 {
        None
    } else if rs.last().0 == path && rs.last().1 == method {
        Some(rs.last().2)
    } else {
        spec_lookup(rs.drop_last(), path, method)
    }
}

impl RouteTable {
    /// An empty table.
    pub fn new() -> (r: RouteTable)
        ensures
            r@ == Seq::<(Seq<char>, Method, Handler)>::empty(),
    {
        let r = RouteTable { routes: Vec::new() };
        proof {
            assert(r@ =~= Seq::<(Seq<char>, Method, Handler)>::empty());
        }
        r
    }

    /// Registers a route. Meant for startup only: the table must not change
    /// once connections are being served.
    pub fn register(&mut self, path: &str, method: Method, handler: Handler)
        ensures
            final(self)@ == old(self)@.push((path@, method, handler)),
    {
        self.routes.push((path.to_owned(), method, handler));
        proof {
            assert(self@ =~= old(self)@.push((path@, method, handler)));
        }
    }
}

/// Looks the exact (path, method) key up in the table.
pub fn find_handler(path: &str, method: Method, routes: &RouteTable) -> (r: Option<Handler>)
    ensures
        r == spec_lookup(routes@, path@, method),
{
    let n = routes.routes.len();
    let mut i: usize = n;
    proof {
        assert(routes@.take(n as int) =~= routes@);
    }
    while i > 0
        invariant
            i <= n,
            n == routes.routes.len(),
            spec_lookup(routes@, path@, method) == spec_lookup(
                routes@.take(i as int),
                path@,
                method,
            ),
        decreases i,
    {
        i -= 1;
        let entry = &routes.routes[i];
        let ghost prefix = routes@.take(i as int + 1);
        proof {
            assert(prefix.last() == routes@[i as int]);
            assert(prefix.drop_last() =~= routes@.take(i as int));
        }
        if str_eq(entry.0.as_str(), path) && entry.1 == method {
            return Some(entry.2);
        }
    }
    proof {
        assert(routes@.take(0).len() == 0);
    }
    None
}

/// Lookup hits only keys that stand in the table exactly: some entry's path
/// equals the request's path character for character, and its method is the
/// request's method. A path differing in case alone, or the wrong method on
/// a registered path, therefore finds nothing.
pub proof fn lemma_lookup_exact(
    rs: Seq<(Seq<char>, Method, Handler)>,
    path: Seq<char>,
    method: Method,
    h: Handler,
)
    requires
        spec_lookup(rs, path, method) == Some(h),
    ensures
        exists|i: int|
            0 <= i < rs.len() && rs[i].0 == path && rs[i].1 == method && rs[i].2 == h,
    decreases rs.len(),
{
    if rs.len() > 0 {
        if rs.last().0 == path && rs.last().1 == method {
            assert(rs[rs.len() - 1].0 == path && rs[rs.len() - 1].1 == method && rs[rs.len()
                - 1].2 == h);
        } else {
            lemma_lookup_exact(rs.drop_last(), path, method, h);
            let i = choose|i: int|
                0 <= i < rs.drop_last().len() && rs.drop_last()[i].0 == path
                    && rs.drop_last()[i].1 == method && rs.drop_last()[i].2 == h;
            assert(rs[i].0 == path && rs[i].1 == method && rs[i].2 == h);
        }
    }
}

/// A key no entry carries — every entry differs in path or in method —
/// finds no handler.
pub proof fn lemma_lookup_miss(
    rs: Seq<(Seq<char>, Method, Handler)>,
    path: Seq<char>,
    method: Method,
)
    requires
        forall|i: int| 0 <= i < rs.len() ==> !(rs[i].0 == path && rs[i].1 == method),
    ensures
        spec_lookup(rs, path, method) is None,
    decreases rs.len(),
{
    if rs.len() > 0 {
        assert(rs[rs.len() - 1] == rs.last());
        assert(forall|i: int|
            0 <= i < rs.drop_last().len() ==> rs.drop_last()[i] == rs[i]);
        lemma_lookup_miss(rs.drop_last(), path, method);
    }
}

/// The latest registration for a key wins.
pub proof fn lemma_register_last_wins(
    rs: Seq<(Seq<char>, Method, Handler)>,
    path: Seq<char>,
    method: Method,
    h: Handler,
)
    ensures
        spec_lookup(rs.push((path, method, h)), path, method) == Some(h),
{
    assert(rs.push((path, method, h)).last() == (path, method, h));
}

/// Registering one key leaves every other key's lookup unchanged.
pub proof fn lemma_register_other_key(
    rs: Seq<(Seq<char>, Method, Handler)>,
    path: Seq<char>,
    method: Method,
    h: Handler,
    other_path: Seq<char>,
    other_method: Method,
)
    requires
        other_path != path || other_method != method,
    ensures
        spec_lookup(rs.push((path, method, h)), other_path, other_method) == spec_lookup(
            rs,
            other_path,
            other_method,
        ),
{
    assert(rs.push((path, method, h)).drop_last() =~= rs);
}

/// The fixed route surface registered at startup: GET `/hello`, GET `/bye`,
/// POST `/submit`.
pub fn default_routes() -> (r: RouteTable)
    ensures
        r@ == seq![
            ("/hello"@, Method::Get, Handler::Hello),
            ("/bye"@, Method::Get, Handler::Goodbye),
            ("/submit"@, Method::Post, Handler::Submit),
        ],
{
    let mut table = RouteTable::new();
    table.register("/hello", Method::Get, Handler::Hello);
    table.register("/bye", Method::Get, Handler::Goodbye);
    table.register("/submit", Method::Post, Handler::Submit);
    proof {
        assert(table@ =~= seq![
            ("/hello"@, Method::Get, Handler::Hello),
            ("/bye"@, Method::Get, Handler::Goodbye),
            ("/submit"@, Method::Post, Handler::Submit),
        ]);
    }
    table
}

/// The method a request-line token names, if it is one of the known set.
pub open spec fn spec_method_of(token: Seq<char>) -> Option<Method> {
    if token == "GET"@ {
        Some(Method::Get)
    } else if token == "POST"@ {
        Some(Method::Post)
    } else if token == "PUT"@ {
        Some(Method::Put)
    } else if token == "DELETE"@ {
        Some(Method::Delete)
    } else if token == "HEAD"@ {
        Some(Method::Head)
    } else if token == "OPTIONS"@ {
        Some(Method::Options)
    } else if token == "CONNECT"@ {
        Some(Method::Connect)
    } else if token == "PATCH"@ {
        Some(Method::Patch)
    } else if token == "TRACE"@ {
        Some(Method::Trace)
    } else {
        None
    }
}

/// Recognizes a known method token; any other token — including a lowercase
/// spelling — names no method and will match no route.
pub fn method_from_token(token: &str) -> (r: Option<Method>)
    ensures
        r == spec_method_of(token@),
{
    if str_eq(token, "GET") {
        Some(Method::Get)
    } else if str_eq(token, "POST") {
        Some(Method::Post)
    } else if str_eq(token, "PUT") {
        Some(Method::Put)
    } else if str_eq(token, "DELETE") {
        Some(Method::Delete)
    } else if str_eq(token, "HEAD") {
        Some(Method::Head)
    } else if str_eq(token, "OPTIONS") {
        Some(Method::Options)
    } else if str_eq(token, "CONNECT") {
        Some(Method::Connect)
    } else if str_eq(token, "PATCH") {
        Some(Method::Patch)
    } else if str_eq(token, "TRACE") {
        Some(Method::Trace)
    } else {
        None
    }
}

} // verus!
