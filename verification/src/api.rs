use vstd::prelude::*;
use crate::handler::HandlerService;
use crate::method::HttpMethod;
use crate::routes::{Route, Segment};

verus! {

/// The handler generated for `#[get(path = "/")] fn index() { "Hello, World!" }`.
#[allow(non_camel_case_types)]
#[derive(Clone, Copy, Debug, Default)]
pub struct index;

impl index {
    /// The body the handler answers with.
    pub fn call(&self) -> (r: &'static str)
        ensures
            r@ == "Hello, World!"@,
    {
        "Hello, World!"
    }

    /// The segments of the route's path `/`: none.
    pub fn segments() -> (r: Vec<Segment>)
        ensures
            r@.len() == 0,
    {
        Vec::new()
    }

    /// The name the route generator gives the route.
    pub fn name() -> (r: &'static str)
        ensures
            r@ == "Test"@,
    {
        "Test"
    }

    /// The route: `GET /`, served by this handler.
    pub fn into_route(self) -> (r: Route<HandlerService<index>>)
        ensures
            r.method == HttpMethod::Get,
            r.segments@.len() == 0,
            r.service == HandlerService(self),
    {
        Route::new(HttpMethod::Get, index::segments(), HandlerService(self))
    }
}

/// The routes of the module that holds `index`.
#[allow(non_camel_case_types)]
pub struct route;

impl route {
    /// The module's routes: the one of `index`.
    pub fn into_routes(self) -> (r: Vec<Route<HandlerService<index>>>)
        ensures
            r@.len() == 1,
            r@[0].method == HttpMethod::Get,
            r@[0].segments@.len() == 0,
            r@[0].service == HandlerService(index),
    {
        let mut routes = Vec::new();
        routes.push(index.into_route());
        routes
    }
}

} // verus!
