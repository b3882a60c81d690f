//! The server: its configuration, its handlers, and how it answers a
//! request.

use vstd::prelude::*;
use vstd::string::*;
use crate::error::{RequestFault, RequestFaultView, ServerError, ServerErrorView};
use crate::grammar::{parse_request_line, read_line};
use crate::handler::{outcome_view, HandlerResult};
use crate::request::{HttpRequest, HttpRequestView};
use crate::response::{render_response, response_text};
use crate::text::{decimal, decimal_text};

verus! {

/// A path and the handler that answers it.
struct Route<H> {
    path: String,
    handler: H,
}

/// A server: a name, the address and port it listens on, and one handler for
/// each registered path. The name is never empty and no path is registered
/// twice.
pub struct RestServer<H: Fn(HttpRequest) -> HandlerResult> {
    name: String,
    addr: String,
    port: u16,
    path_handler_map: Vec<Route<H>>,
}

/// The mathematical value of a [`RestServer`].
pub struct ServerView<H> {
    pub name: Seq<char>,
    pub addr: Seq<char>,
    pub port: u16,
    pub routes: Map<Seq<char>, H>,
}

/// Where a request is to go: the request and the handler that answers it.
pub struct Dispatch<H> {
    pub request: HttpRequestView,
    pub handler: H,
}

impl<H> ServerView<H> {
    /// A server without handlers.
    pub open spec fn fresh(name: Seq<char>, addr: Seq<char>, port: u16) -> ServerView<H> {
        ServerView { name, addr, port, routes: Map::empty() }
    }

    /// The server after `handler` was offered for `path`: unchanged where
    /// the path has a handler already.
    pub open spec fn register(self, path: Seq<char>, handler: H) -> ServerView<H> {
        if self.routes.contains_key(path) {
            self
        } else {
            ServerView { routes: self.routes.insert(path, handler), ..self }
        }
    }

    /// The error that the caller gets when a handler is offered for `path`,
    /// if it gets one.
    pub open spec fn register_error(self, path: Seq<char>) -> Option<ServerErrorView> {
        if self.routes.contains_key(path) {
            Some(ServerErrorView::DuplicatePath { server: self.name, path })
        } else {
            None
        }
    }

    /// Where the request in `lines` goes, or why it goes nowhere. Only the
    /// first line is read; the lines after it are headers, which are dropped.
    pub open spec fn dispatch(self, lines: Seq<Seq<char>>) -> Result<Dispatch<H>, ServerErrorView> {
        if lines.len() == 0 {
            Err(ServerErrorView::InvalidRequest(RequestFaultView::Empty))
        } else {
            match read_line(lines[0]) {
                Err(fault) => Err(ServerErrorView::InvalidRequest(fault)),
                Ok(request) => {
                    if self.routes.contains_key(request.path) {
                        Ok(Dispatch { request, handler: self.routes[request.path] })
                    } else {
                        Err(ServerErrorView::NotFound { path: request.path })
                    }
                },
            }
        }
    }

    /// The address that the server binds: the address, a colon, and the port
    /// in decimal.
    pub open spec fn bind_address(self) -> Seq<char> {
        self.addr + ":"@ + decimal_text(self.port as nat)
    }
}

/// The handlers of a list of routes, by path.
spec fn routes_of<H>(routes: Seq<Route<H>>) -> Map<Seq<char>, H>
    decreases routes.len(),
{
    if routes.len() == 0 {
        Map::empty()
    } else {
        routes_of(routes.drop_last()).insert(routes.last().path@, routes.last().handler)
    }
}

/// No two routes have the same path.
spec fn distinct_paths<H>(routes: Seq<Route<H>>) -> bool {
    forall|i: int, j: int| 0 <= i < j < routes.len() ==> routes[i].path@ != routes[j].path@
}

/// A path has a handler exactly if some route has that path.
proof fn lemma_routes_domain<H>(routes: Seq<Route<H>>, path: Seq<char>)
    ensures
        routes_of(routes).contains_key(path) <==> exists|i: int|
            0 <= i < routes.len() && #[trigger] routes[i].path@ == path,
    decreases routes.len(),
{
    if routes.len() > 0 {
        let front = routes.drop_last();
        lemma_routes_domain(front, path);
        if routes_of(routes).contains_key(path) {
            if routes.last().path@ == path {
                assert(routes[routes.len() - 1].path@ == path);
            } else {
                let i = choose|i: int| 0 <= i < front.len() && #[trigger] front[i].path@ == path;
                assert(routes[i].path@ == path);
            }
        }
        if exists|i: int| 0 <= i < routes.len() && #[trigger] routes[i].path@ == path {
            let i = choose|i: int| 0 <= i < routes.len() && #[trigger] routes[i].path@ == path;
            if i < front.len() {
                assert(front[i].path@ == path);
            }
        }
    }
}

/// Where paths are distinct, the handler of a route's path is that route's
/// handler.
proof fn lemma_routes_value<H>(routes: Seq<Route<H>>, i: int)
    requires
        distinct_paths(routes),
        0 <= i < routes.len(),
    ensures
        routes_of(routes).contains_key(routes[i].path@),
        routes_of(routes)[routes[i].path@] == routes[i].handler,
    decreases routes.len(),
{
    let front = routes.drop_last();
    if i < routes.len() - 1 {
        assert(distinct_paths(front)) by {
            assert forall|a: int, b: int| 0 <= a < b < front.len() implies front[a].path@
                != front[b].path@ by {
                assert(routes[a].path@ != routes[b].path@);
            }
        }
        lemma_routes_value(front, i);
        assert(front[i] == routes[i]);
        assert(routes[i].path@ != routes[routes.len() - 1].path@);
    }
}

impl<H: Fn(HttpRequest) -> HandlerResult> View for RestServer<H> {
    type V = ServerView<H>;

    closed spec fn view(&self) -> ServerView<H> {
        ServerView {
            name: self.name@,
            addr: self.addr@,
            port: self.port,
            routes: routes_of(self.path_handler_map@),
        }
    }
}

impl<H: Fn(HttpRequest) -> HandlerResult> RestServer<H> {
    #[verifier::type_invariant]
    spec fn well_formed(self) -> bool {
        &&& self.name@.len() > 0
        &&& distinct_paths(self.path_handler_map@)
        &&& forall|i: int, request: HttpRequest|
            0 <= i < self.path_handler_map.len() ==> #[trigger] call_requires(
                self.path_handler_map[i].handler,
                (request,),
            )
    }

    /// Create a new RestServer
    pub fn new(name: &str, addr: &str, port: u16) -> (result: Result<Self, ServerError>)
        ensures
            name@.len() == 0 ==> (result matches Err(error) && error@
                == ServerErrorView::InvalidConfig),
            name@.len() > 0 ==> (result matches Ok(server) && server@ == ServerView::<H>::fresh(
                name@,
                addr@,
                port,
            )),
    {
        if name.is_empty() {
            return Err(ServerError::InvalidConfig);
        }
        Ok(
            RestServer {
                name: name.to_owned(),
                addr: addr.to_owned(),
                port,
                path_handler_map: Vec::new(),
            },
        )
    }

    /// The index of the route for `path`, if there is one.
    fn position(&self, path: &String) -> (found: Option<usize>)
        ensures
            match found {
                Some(i) => {
                    &&& i < self.path_handler_map.len()
                    &&& self.path_handler_map[i as int].path@ == path@
                    &&& self@.routes.contains_key(path@)
                    &&& self@.routes[path@] == self.path_handler_map[i as int].handler
                },
                None => !self@.routes.contains_key(path@),
            },
    {
        proof {
            use_type_invariant(self);
        }
        let mut i: usize = 0;
        while i < self.path_handler_map.len()
            invariant
                i <= self.path_handler_map.len(),
                distinct_paths(self.path_handler_map@),
                forall|k: int| 0 <= k < i ==> self.path_handler_map[k].path@ != path@,
            decreases self.path_handler_map.len() - i,
        {
            if self.path_handler_map[i].path == *path {
                proof {
                    lemma_routes_value(self.path_handler_map@, i as int);
                }
                return Some(i);
            }
            i += 1;
        }
        proof {
            lemma_routes_domain(self.path_handler_map@, path@);
        }
        None
    }

    /// Adds a handler to the specified path
    pub fn register_path(&mut self, path: &str, func: H) -> (result: Result<(), ServerError>)
        requires
            forall|request: HttpRequest| call_requires(func, (request,)),
        ensures
            final(self)@ == old(self)@.register(path@, func),
            match result {
                Ok(_) => old(self)@.register_error(path@) is None,
                Err(error) => old(self)@.register_error(path@) == Some(error@),
            },
    {
        proof {
            use_type_invariant(&*self);
        }
        let path = path.to_owned();
        if self.position(&path).is_some() {
            return Err(ServerError::DuplicatePath { server: self.name.clone(), path });
        }
        let ghost before = self.path_handler_map@;
        let route = Route { path, handler: func };
        proof {
            assert(before.push(route).drop_last() =~= before);
            assert(distinct_paths(before.push(route))) by {
                lemma_routes_domain(before, path@);
            }
        }
        let mut routes: Vec<Route<H>> = Vec::new();
        std::mem::swap(&mut self.path_handler_map, &mut routes);
        routes.push(route);
        std::mem::swap(&mut self.path_handler_map, &mut routes);
        Ok(())
    }

    /// Answers one request. `lines` holds what was read from the connection
    /// before the blank line that ends the request head; the first of them
    /// is the request line, and the others are dropped. The request line is
    /// parsed, the handler of its path is called, and what the handler
    /// returns is rendered. The answer is the text to write back. A request
    /// without lines is turned away before anything is parsed.
    pub fn handle_connection(&self, lines: &Vec<String>) -> (result: Result<String, ServerError>)
        ensures
            match self@.dispatch(lines.deep_view()) {
                Err(expected) => result matches Err(error) && error@ == expected,
                Ok(dispatch) => result matches Ok(response) && exists|
                    request: HttpRequest,
                    outcome: HandlerResult,
                |
                    {
                        &&& #[trigger] call_ensures(dispatch.handler, (request,), outcome)
                        &&& request@ == dispatch.request
                        &&& response@ == response_text(outcome_view(outcome))
                    },
            },
    {
        proof {
            use_type_invariant(self);
        }
        assert(lines.deep_view().len() == lines.len());
        if lines.len() < 1 {
            return Err(ServerError::InvalidRequest(RequestFault::Empty));
        }
        assert(lines.deep_view()[0] == lines[0]@);
        let request = match parse_request_line(lines[0].as_str()) {
            Ok(request) => request,
            Err(fault) => {
                return Err(ServerError::InvalidRequest(fault));
            },
        };
        let path = request.path().to_owned();
        let at = match self.position(&path) {
            Some(at) => at,
            None => {
                return Err(ServerError::NotFound { path });
            },
        };
        let ghost asked = request;
        let outcome = (self.path_handler_map[at].handler)(request);
        proof {
            let dispatch = self@.dispatch(lines.deep_view())->Ok_0;
            assert(dispatch.request == asked@);
            assert(call_ensures(dispatch.handler, (asked,), outcome));
        }
        Ok(render_response(&outcome))
    }

    /// The name the server was made with.
    pub fn name(&self) -> (name: &str)
        ensures
            name@ == self@.name,
            name@.len() > 0,
    {
        proof {
            use_type_invariant(self);
        }
        self.name.as_str()
    }

    /// The address the server listens on.
    pub fn addr(&self) -> (addr: &str)
        ensures
            addr@ == self@.addr,
    {
        self.addr.as_str()
    }

    /// The port the server listens on.
    pub fn port(&self) -> (port: u16)
        ensures
            port == self@.port,
    {
        self.port
    }

    /// Whether a handler is registered for `path`.
    pub fn has_path(&self, path: &str) -> (registered: bool)
        ensures
            registered == self@.routes.contains_key(path@),
    {
        let path = path.to_owned();
        self.position(&path).is_some()
    }

    /// The address to bind the listening socket to.
    pub fn bind_address(&self) -> (address: String)
        ensures
            address@ == self@.bind_address(),
    {
        let mut address = self.addr.clone();
        address.append(":");
        let port = decimal(self.port as u64);
        address.append(port.as_str());
        address
    }
}

/// A handler offered for a path that has one already is refused, and the
/// server stays as it was. Offering two handlers for a free path, one after
/// the other, therefore keeps the first: the first offer is taken, the
/// second is refused as a duplicate.
pub proof fn law_duplicate_path_is_refused<H>(
    server: ServerView<H>,
    path: Seq<char>,
    first: H,
    second: H,
)
    ensures
        server.routes.contains_key(path) ==> server.register(path, second) == server,
        server.routes.contains_key(path) ==> server.register_error(path) == Some(
            ServerErrorView::DuplicatePath { server: server.name, path },
        ),
        !server.routes.contains_key(path) ==> ({
            let once = server.register(path, first);
            &&& server.register_error(path) is None
            &&& once.routes.contains_key(path)
            &&& once.routes[path] == first
            &&& once.register_error(path) == Some(
                ServerErrorView::DuplicatePath { server: server.name, path },
            )
            &&& once.register(path, second) == once
        }),
{
}

} // verus!
