use vstd::prelude::*;
use crate::method::{HttpMethod, same_method, law_same_method_is_method_identity};

verus! {

/// Whether a route registered for method `route` answers a request of method
/// `req`: the same method, or a `GET` route asked with `HEAD`.
pub open spec fn accepts(req: HttpMethod, route: HttpMethod) -> bool {
    same_method(route, req) || (req is Head && route is Get)
}

/// The first position at or after `from` whose route accepts `req`, or the
/// number of routes when there is none.
pub open spec fn first_accepting(req: HttpMethod, routes: Seq<HttpMethod>, from: nat) -> nat
    decreases routes.len() - from,
{
    if from >= routes.len() {
        routes.len()
    } else if accepts(req, routes[from as int]) {
        from
    } else {
        first_accepting(req, routes, from + 1)
    }
}

/// The positions at or after `from` whose routes accept `req`, in order.
pub open spec fn accepting_positions(req: HttpMethod, routes: Seq<HttpMethod>, from: nat) -> Seq<nat>
    decreases routes.len() - from,
{
    if from >= routes.len() {
        seq![]
    } else if accepts(req, routes[from as int]) {
        seq![from].add(accepting_positions(req, routes, from + 1))
    } else {
        accepting_positions(req, routes, from + 1)
    }
}

/// What the router does next.
#[derive(Debug, Clone, Copy, PartialEq, Eq, Structural)]
pub enum DispatchStep {
    /// The path matched no route: hand the request on as it came.
    NoRoute,
    /// Call the handler registered at this position.
    Call(usize),
    /// Answer with the handler's response; when `strip` holds, with an empty
    /// body and status `STRIPPED_STATUS` (a `HEAD` request served by a `GET`
    /// route).
    Respond { strip: bool },
    /// Answer with the handler's failure.
    Fail,
    /// No handler answered: drop the path parameters and hand the request on.
    Decline,
}

/// The status of a response whose body was stripped: 204, No Content.
pub const STRIPPED_STATUS: u16 = 204;

/// How a called handler answered.
#[derive(Debug, Clone, Copy, PartialEq, Eq, Structural)]
pub enum HandlerReply {
    Next,
    Success,
    Failure,
}

/// The step taken when looking for a handler at or after position `from`.
pub open spec fn step_from(req: HttpMethod, routes: Seq<HttpMethod>, from: nat) -> DispatchStep {
    let i = first_accepting(req, routes, from);
    if i < routes.len() {
        DispatchStep::Call(i as usize)
    } else {
        DispatchStep::Decline
    }
}

/// Whether `strip` is owed for a response of the route at `i`.
pub open spec fn strips(req: HttpMethod, route: HttpMethod) -> bool {
    !same_method(req, route) && req is Head
}

/// Where the search for an accepting route ends, and that it skips only routes
/// that do not accept the request.
pub proof fn lemma_first_accepting(req: HttpMethod, routes: Seq<HttpMethod>, from: nat)
    ensures
        from <= first_accepting(req, routes, from) || from > routes.len(),
        first_accepting(req, routes, from) <= routes.len(),
        first_accepting(req, routes, from) < routes.len() ==> accepts(
            req,
            routes[first_accepting(req, routes, from) as int],
        ),
        forall|j: nat|
            from <= j < first_accepting(req, routes, from) ==> !accepts(req, #[trigger] routes[j as int]),
    decreases routes.len() - from,
{
    if from < routes.len() && !accepts(req, routes[from as int]) {
        lemma_first_accepting(req, routes, from + 1);
    }
}

/// The state of routing one request through the handlers that its path found.
pub struct Dispatch {
    method: HttpMethod,
    routes: Vec<HttpMethod>,
    current: usize,
    awaiting: bool,
}

impl Dispatch {
    /// The method of the request being routed.
    pub closed spec fn request_method(self) -> HttpMethod {
        self.method
    }

    /// The methods of the routes its path found, in registration order.
    pub closed spec fn routes(self) -> Seq<HttpMethod> {
        self.routes@
    }

    /// The position of the handler last called.
    pub closed spec fn current(self) -> nat {
        self.current as nat
    }

    /// Whether a handler has been called and its reply is awaited.
    pub closed spec fn awaiting(self) -> bool {
        self.awaiting
    }

    /// A handler is awaited only at a position whose route accepts the request.
    pub closed spec fn wf(self) -> bool {
        self.awaiting ==> self.current < self.routes@.len() && accepts(
            self.method,
            self.routes@[self.current as int],
        )
    }

    fn find_from(&self, from: usize) -> (r: usize)
        requires
            from <= self.routes@.len(),
        ensures
            r == first_accepting(self.method, self.routes@, from as nat),
    {
        let mut i = from;
        while i < self.routes.len()
            invariant
                from <= i <= self.routes@.len(),
                first_accepting(self.method, self.routes@, from as nat) == first_accepting(
                    self.method,
                    self.routes@,
                    i as nat,
                ),
            decreases self.routes@.len() - i,
        {
            let route = &self.routes[i];
            let head_on_get = match (&self.method, route) {
                (HttpMethod::Head, HttpMethod::Get) => true,
                _ => false,
            };
            if route.is(&self.method) || head_on_get {
                return i;
            }
            i = i + 1;
        }
        i
    }

    fn advance(&mut self, from: usize) -> (r: DispatchStep)
        requires
            from <= old(self).routes@.len(),
        ensures
            final(self).method == old(self).method,
            final(self).routes@ == old(self).routes@,
            r == step_from(old(self).method, old(self).routes@, from as nat),
            final(self).wf(),
            r matches DispatchStep::Call(i) ==> final(self).awaiting() && final(self).current() == i,
            r is Decline ==> !final(self).awaiting(),
    {
        let i = self.find_from(from);
        proof {
            lemma_first_accepting(self.method, self.routes@, from as nat);
        }
        if i < self.routes.len() {
            self.current = i;
            self.awaiting = true;
            DispatchStep::Call(i)
        } else {
            self.awaiting = false;
            DispatchStep::Decline
        }
    }

    /// Starts routing a request of method `method`. `found` holds the methods
    /// of the routes that its path matched, in registration order, or `None`
    /// when the path matched no route.
    pub fn start(method: HttpMethod, found: Option<Vec<HttpMethod>>) -> (r: (Dispatch, DispatchStep))
        ensures
            r.0.wf(),
            r.0.request_method() == method,
            match found {
                None => r.1 is NoRoute && !r.0.awaiting(),
                Some(routes) => {
                    &&& r.0.routes() == routes@
                    &&& r.1 == step_from(method, routes@, 0)
                    &&& r.1 matches DispatchStep::Call(i) ==> r.0.awaiting() && r.0.current() == i
                    &&& r.1 is Decline ==> !r.0.awaiting()
                },
            },
    {
        match found {
            None => {
                let d = Dispatch { method, routes: Vec::new(), current: 0, awaiting: false };
                (d, DispatchStep::NoRoute)
            },
            Some(routes) => {
                let mut d = Dispatch { method, routes, current: 0, awaiting: false };
                let step = d.advance(0);
                (d, step)
            },
        }
    }

    /// Takes the reply of the handler last called and says what to do next:
    /// a declining handler passes the request to the next route that accepts
    /// it, a response or a failure ends the routing.
    pub fn resume(&mut self, reply: HandlerReply) -> (r: DispatchStep)
        requires
            old(self).wf(),
            old(self).awaiting(),
        ensures
            final(self).wf(),
            final(self).request_method() == old(self).request_method(),
            final(self).routes() == old(self).routes(),
            match reply {
                HandlerReply::Next => {
                    &&& r == step_from(old(self).request_method(), old(self).routes(), old(self).current() + 1)
                    &&& r matches DispatchStep::Call(i) ==> final(self).awaiting() && final(self).current() == i
                    &&& r is Decline ==> !final(self).awaiting()
                },
                HandlerReply::Success => {
                    &&& r == DispatchStep::Respond {
                        strip: strips(old(self).request_method(), old(self).routes()[old(self).current() as int]),
                    }
                    &&& !final(self).awaiting()
                },
                HandlerReply::Failure => r is Fail && !final(self).awaiting(),
            },
    {
        match reply {
            HandlerReply::Next => {
                proof {
                    assert(self.current < self.routes@.len());
                    assert(self.routes@.len() == self.routes.len());
                }
                let from = self.current + 1;
                self.advance(from)
            },
            HandlerReply::Success => {
                let same = self.method.is(&self.routes[self.current]);
                let is_head = match &self.method {
                    HttpMethod::Head => true,
                    _ => false,
                };
                self.awaiting = false;
                proof {
                    assert(same_method(self.method, self.routes@[self.current as int])
                        == same_method(self.routes@[self.current as int], self.method));
                }
                DispatchStep::Respond { strip: !same && is_head }
            },
            HandlerReply::Failure => {
                self.awaiting = false;
                DispatchStep::Fail
            },
        }
    }
}

/// The handlers called one after another while each declines.
pub open spec fn declined_calls(req: HttpMethod, routes: Seq<HttpMethod>, from: nat) -> Seq<nat>
    decreases routes.len() - from,
{
    let i = first_accepting(req, routes, from);
    if from >= routes.len() || i >= routes.len() {
        seq![]
    } else {
        proof {
            lemma_first_accepting(req, routes, from);
        }
        seq![i].add(declined_calls(req, routes, i + 1))
    }
}

/// While every handler declines, the router calls exactly the routes that
/// accept the request, each once, in registration order.
pub proof fn law_every_accepting_route_is_tried_in_order(
    req: HttpMethod,
    routes: Seq<HttpMethod>,
    from: nat,
)
    ensures
        declined_calls(req, routes, from) == accepting_positions(req, routes, from),
    decreases routes.len() - from,
{
    if from < routes.len() {
        lemma_first_accepting(req, routes, from);
        let i = first_accepting(req, routes, from);
        if accepts(req, routes[from as int]) {
            law_every_accepting_route_is_tried_in_order(req, routes, from + 1);
        } else {
            law_every_accepting_route_is_tried_in_order(req, routes, from + 1);
            lemma_declined_calls_skip(req, routes, from);
        }
    }
}

proof fn lemma_declined_calls_skip(req: HttpMethod, routes: Seq<HttpMethod>, from: nat)
    requires
        from < routes.len(),
        !accepts(req, routes[from as int]),
    ensures
        declined_calls(req, routes, from) == declined_calls(req, routes, from + 1),
        accepting_positions(req, routes, from) == accepting_positions(req, routes, from + 1),
{
    assert(first_accepting(req, routes, from) == first_accepting(req, routes, from + 1));
    if from + 1 >= routes.len() {
        assert(first_accepting(req, routes, from + 1) == routes.len());
    }
}

/// A route is called only for requests that it accepts: for any method but
/// `HEAD`, only routes of that very method (for a standard method, a route of
/// exactly that method); for `HEAD`, `HEAD` and `GET` routes.
pub proof fn law_called_routes_accept(req: HttpMethod, routes: Seq<HttpMethod>, from: nat)
    requires
        routes.len() <= usize::MAX,
    ensures
        step_from(req, routes, from) matches DispatchStep::Call(i) ==> {
            &&& i < routes.len()
            &&& accepts(req, routes[i as int])
            &&& (!(req is Head) ==> same_method(routes[i as int], req))
            &&& (!(req is Head) && !(req is Extension) ==> routes[i as int] == req)
            &&& (req is Head ==> routes[i as int] is Head || routes[i as int] is Get)
        },
{
    lemma_first_accepting(req, routes, from);
    if let DispatchStep::Call(i) = step_from(req, routes, from) {
        law_same_method_is_method_identity(routes[i as int], req, req);
    }
}

/// A response is stripped exactly when a `HEAD` request was answered by a
/// `GET` route; a request of any other method is never stripped.
pub proof fn law_only_head_served_by_get_is_stripped(req: HttpMethod, route: HttpMethod)
    requires
        accepts(req, route),
    ensures
        strips(req, route) <==> (req is Head && route is Get),
        !(req is Head) ==> !strips(req, route),
{
}

} // verus!
