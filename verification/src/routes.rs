use vstd::prelude::*;
use crate::method::HttpMethod;

verus! {

/// One segment of a route's path: a fixed word (`users`), a named parameter
/// (`:id`), or a star that takes the rest of the path (`*rest`).
#[derive(Debug, Clone)]
pub enum Segment {
    Constant(String),
    Parameter(String),
    Star(String),
}

/// A segment as plain characters.
pub enum SegmentView {
    Constant(Seq<char>),
    Parameter(Seq<char>),
    Star(Seq<char>),
}

impl View for Segment {
    type V = SegmentView;

    open spec fn view(&self) -> SegmentView {
        match self {
            Segment::Constant(s) => SegmentView::Constant(s@),
            Segment::Parameter(s) => SegmentView::Parameter(s@),
            Segment::Star(s) => SegmentView::Star(s@),
        }
    }
}

/// The segments of a path as plain values.
pub open spec fn segments_view(s: Seq<Segment>) -> Seq<SegmentView> {
    s.map_values(|x: Segment| x@)
}

impl Segment {
    /// A copy of this segment.
    pub fn duplicate(&self) -> (r: Segment)
        ensures
            r == *self,
    {
        match self {
            Segment::Constant(s) => Segment::Constant(s.clone()),
            Segment::Parameter(s) => Segment::Parameter(s.clone()),
            Segment::Star(s) => Segment::Star(s.clone()),
        }
    }
}

/// A route: the method it answers, the segments of its path, and the service
/// that handles it.
#[derive(Debug)]
pub struct Route<S> {
    pub method: HttpMethod,
    pub segments: Vec<Segment>,
    pub service: S,
}

/// A route as plain values.
pub struct RouteView<S> {
    pub method: HttpMethod,
    pub segments: Seq<SegmentView>,
    pub service: S,
}

impl<S> View for Route<S> {
    type V = RouteView<S>;

    open spec fn view(&self) -> RouteView<S> {
        RouteView { method: self.method, segments: segments_view(self.segments@), service: self.service }
    }
}

/// The routes as plain values.
pub open spec fn routes_view<S>(r: Seq<Route<S>>) -> Seq<RouteView<S>> {
    r.map_values(|x: Route<S>| x@)
}

/// `routes` mounted below the path `prefix`: each route keeps its method and
/// service, and its path becomes `prefix` followed by its own path.
pub open spec fn mounted<S>(prefix: Seq<SegmentView>, routes: Seq<RouteView<S>>) -> Seq<RouteView<S>> {
    routes.map_values(
        |r: RouteView<S>| RouteView { method: r.method, segments: prefix + r.segments, service: r.service },
    )
}

impl<S> Route<S> {
    /// A route for `method` on the path `segments`, served by `service`.
    pub fn new(method: HttpMethod, segments: Vec<Segment>, service: S) -> (r: Route<S>)
        ensures
            r.method == method,
            r.segments == segments,
            r.service == service,
    {
        Route { method, segments, service }
    }

    /// A `GET` route.
    pub fn get(segments: Vec<Segment>, service: S) -> (r: Route<S>)
        ensures
            r.method == HttpMethod::Get,
            r.segments == segments,
            r.service == service,
    {
        Route::new(HttpMethod::Get, segments, service)
    }

    /// A `POST` route.
    pub fn post(segments: Vec<Segment>, service: S) -> (r: Route<S>)
        ensures
            r.method == HttpMethod::Post,
            r.segments == segments,
            r.service == service,
    {
        Route::new(HttpMethod::Post, segments, service)
    }
}

/// A copy of the segments `prefix` followed by `rest`.
fn prefixed(prefix: &Vec<Segment>, rest: Vec<Segment>) -> (r: Vec<Segment>)
    ensures
        r@ == prefix@ + rest@,
{
    let mut out: Vec<Segment> = Vec::new();
    let mut i: usize = 0;
    while i < prefix.len()
        invariant
            i <= prefix@.len(),
            out@ == prefix@.subrange(0, i as int),
        decreases prefix@.len() - i,
    {
        out.push(prefix[i].duplicate());
        i = i + 1;
    }
    let mut rest = rest;
    out.append(&mut rest);
    out
}

/// Mounts `routes` below the path `prefix`: the routes keep their order,
/// methods and services, and each path is prefixed with `prefix`.
pub fn mount<S>(prefix: &Vec<Segment>, routes: Vec<Route<S>>) -> (r: Vec<Route<S>>)
    ensures
        routes_view(r@) == mounted(segments_view(prefix@), routes_view(routes@)),
{
    let mut pending = routes;
    let ghost original = pending@;
    let count = pending.len();
    let ghost p = segments_view(prefix@);
    let mut out: Vec<Route<S>> = Vec::new();
    let mut taken: usize = 0;
    while pending.len() > 0
        invariant
            count == original.len(),
            taken + pending@.len() == count,
            pending@ == original.subrange(taken as int, original.len() as int),
            p == segments_view(prefix@),
            out@.len() == taken,
            forall|j: int| 0 <= j < taken ==> #[trigger] out@[j]@ == (RouteView {
                method: original[j].method,
                segments: p + segments_view(original[j].segments@),
                service: original[j].service,
            }),
        decreases pending@.len(),
    {
        let route = pending.remove(0);
        proof {
            assert(route == original[taken as int]);
        }
        let Route { method, segments, service } = route;
        let segments = prefixed(prefix, segments);
        proof {
            assert(segments_view(segments@) =~= p + segments_view(original[taken as int].segments@));
        }
        out.push(Route { method, segments, service });
        taken = taken + 1;
        proof {
            assert(pending@ =~= original.subrange(taken as int, original.len() as int));
        }
    }
    proof {
        assert(routes_view(out@) =~= mounted(p, routes_view(original)));
    }
    out
}

/// Mounts the routes that a set of routes listed below `prefix`: an error
/// from listing them is handed on as it came; otherwise the routes are
/// mounted as `mount` does.
pub fn mount_listed<S, E>(prefix: &Vec<Segment>, listed: Result<Vec<Route<S>>, E>) -> (r: Result<Vec<Route<S>>, E>)
    ensures
        match listed {
            Err(e) => r == Err::<Vec<Route<S>>, E>(e),
            Ok(routes) => r matches Ok(m) && routes_view(m@) == mounted(segments_view(prefix@), routes_view(routes@)),
        },
{
    match listed {
        Err(e) => Err(e),
        Ok(routes) => Ok(mount(prefix, routes)),
    }
}

/// Mounting keeps every route, in order, with its method and service; only
/// its path changes, to the prefix followed by its own path.
pub proof fn law_mount_keeps_method_and_service<S>(prefix: Seq<SegmentView>, routes: Seq<RouteView<S>>)
    ensures
        mounted(prefix, routes).len() == routes.len(),
        forall|i: int| 0 <= i < routes.len() ==> {
            &&& #[trigger] mounted(prefix, routes)[i].method == routes[i].method
            &&& mounted(prefix, routes)[i].service == routes[i].service
            &&& mounted(prefix, routes)[i].segments == prefix + routes[i].segments
        },
{
}

/// Mounting below no path leaves the routes as they are.
pub proof fn law_mount_on_root<S>(routes: Seq<RouteView<S>>)
    ensures
        mounted(Seq::<SegmentView>::empty(), routes) == routes,
{
    assert forall|i: int| 0 <= i < routes.len() implies #[trigger] mounted(Seq::<SegmentView>::empty(), routes)[i] == routes[i] by {
        assert(Seq::<SegmentView>::empty() + routes[i].segments =~= routes[i].segments);
    }
    assert(mounted(Seq::<SegmentView>::empty(), routes) =~= routes);
}

/// Mounting below `inner` and then below `outer` is mounting below `outer`
/// followed by `inner`.
pub proof fn law_mount_twice<S>(outer: Seq<SegmentView>, inner: Seq<SegmentView>, routes: Seq<RouteView<S>>)
    ensures
        mounted(outer, mounted(inner, routes)) == mounted(outer + inner, routes),
{
    assert forall|i: int| 0 <= i < routes.len() implies #[trigger] mounted(outer, mounted(inner, routes))[i]
        == mounted(outer + inner, routes)[i] by {
        assert(outer + (inner + routes[i].segments) =~= (outer + inner) + routes[i].segments);
    }
    assert(mounted(outer, mounted(inner, routes)) =~= mounted(outer + inner, routes));
}

/// A handler registered in a router for one method, on some path.
#[derive(Debug)]
pub struct RouteEntry<S> {
    pub method: HttpMethod,
    pub handler: S,
}

impl<S> RouteEntry<S> {
    /// An entry for `method`, handled by `handler`.
    pub fn new(method: HttpMethod, handler: S) -> (r: RouteEntry<S>)
        ensures
            r.method == method,
            r.handler == handler,
    {
        RouteEntry { method, handler }
    }
}

/// The routes that a router's paths and their entries make: each entry
/// becomes a route on its path, paths and entries keeping their order.
pub open spec fn flattened<S>(paths: Seq<(Seq<SegmentView>, Seq<RouteEntry<S>>)>) -> Seq<RouteView<S>>
    decreases paths.len(),
{
    if paths.len() == 0 {
        seq![]
    } else {
        let (segments, entries) = paths.last();
        flattened(paths.drop_last()) + entries.map_values(
            |e: RouteEntry<S>| RouteView { method: e.method, segments: segments, service: e.handler },
        )
    }
}

/// The paths and entries as plain values.
pub open spec fn paths_view<S>(paths: Seq<(Vec<Segment>, Vec<RouteEntry<S>>)>) -> Seq<(Seq<SegmentView>, Seq<RouteEntry<S>>)> {
    paths.map_values(|p: (Vec<Segment>, Vec<RouteEntry<S>>)| (segments_view(p.0@), p.1@))
}

fn copy_segments(segments: &Vec<Segment>) -> (r: Vec<Segment>)
    ensures
        r@ == segments@,
{
    let mut out: Vec<Segment> = Vec::new();
    let mut i: usize = 0;
    while i < segments.len()
        invariant
            i <= segments@.len(),
            out@ == segments@.subrange(0, i as int),
        decreases segments@.len() - i,
    {
        out.push(segments[i].duplicate());
        i = i + 1;
    }
    out
}

/// Lists the routes held by a router, given each of its paths with the
/// entries registered on it: one route per entry, on a copy of its path.
pub fn flatten<S>(paths: Vec<(Vec<Segment>, Vec<RouteEntry<S>>)>) -> (r: Vec<Route<S>>)
    ensures
        routes_view(r@) == flattened(paths_view(paths@)),
{
    let ghost all = paths@;
    let count = paths.len();
    let mut pending = paths;
    let mut done: usize = 0;
    let mut out: Vec<Route<S>> = Vec::new();
    while pending.len() > 0
        invariant
            all == paths@,
            count == all.len(),
            done + pending@.len() == count,
            pending@ == all.subrange(done as int, all.len() as int),
            routes_view(out@) == flattened(paths_view(all.subrange(0, done as int))),
        decreases pending@.len(),
    {
        let (segments, entries) = pending.remove(0);
        proof {
            assert(all[done as int] == (segments, entries));
        }
        let ghost before = out@;
        let ghost entry_list = entries@;
        let entry_count = entries.len();
        let mut rest = entries;
        let mut k: usize = 0;
        while rest.len() > 0
            invariant
                entry_count == entry_list.len(),
                k + rest@.len() == entry_count,
                rest@ == entry_list.subrange(k as int, entry_list.len() as int),
                routes_view(out@) == routes_view(before) + entry_list.subrange(0, k as int).map_values(
                    |e: RouteEntry<S>| RouteView { method: e.method, segments: segments_view(segments@), service: e.handler },
                ),
            decreases rest@.len(),
        {
            let entry = rest.remove(0);
            proof {
                assert(entry == entry_list[k as int]);
            }
            let RouteEntry { method, handler } = entry;
            let ghost old_out = out@;
            out.push(Route { method, segments: copy_segments(&segments), service: handler });
            proof {
                assert(routes_view(out@) =~= routes_view(old_out).push(out@.last()@));
                assert(entry_list.subrange(0, k + 1) =~= entry_list.subrange(0, k as int).push(entry_list[k as int]));
                assert(routes_view(out@) =~= routes_view(before) + entry_list.subrange(0, k + 1).map_values(
                    |e: RouteEntry<S>| RouteView { method: e.method, segments: segments_view(segments@), service: e.handler },
                ));
            }
            k = k + 1;
            proof {
                assert(rest@ =~= entry_list.subrange(k as int, entry_list.len() as int));
            }
        }
        proof {
            assert(entry_list.subrange(0, k as int) =~= entry_list);
            assert(all.subrange(0, done + 1).drop_last() =~= all.subrange(0, done as int));
            assert(paths_view(all.subrange(0, done + 1)).drop_last() =~= paths_view(all.subrange(0, done as int)));
            assert(paths_view(all.subrange(0, done + 1)).last() == (segments_view(segments@), entry_list));
        }
        done = done + 1;
        proof {
            assert(pending@ =~= all.subrange(done as int, all.len() as int));
        }
    }
    proof {
        assert(all.subrange(0, done as int) =~= all);
    }
    out
}

/// Listing a router's routes keeps one route per registered entry.
pub proof fn law_flatten_keeps_every_entry<S>(paths: Seq<(Seq<SegmentView>, Seq<RouteEntry<S>>)>)
    ensures
        flattened(paths).len() == entry_count(paths),
    decreases paths.len(),
{
    if paths.len() > 0 {
        law_flatten_keeps_every_entry(paths.drop_last());
    }
}

/// Every entry of the paths, with the path it is registered on, path by path
/// and in each path in registration order.
pub open spec fn entries_on_paths<S>(paths: Seq<(Seq<SegmentView>, Seq<RouteEntry<S>>)>) -> Seq<(Seq<SegmentView>, RouteEntry<S>)>
    decreases paths.len(),
{
    if paths.len() == 0 {
        seq![]
    } else {
        let (segments, entries) = paths.last();
        entries_on_paths(paths.drop_last()) + Seq::new(entries.len(), |j: int| (segments, entries[j]))
    }
}

/// Listing a router's routes gives one route per registered entry, in
/// order: the `k`-th route has the method and the handler of the `k`-th
/// entry and lies on that entry's path.
pub proof fn law_flatten_keeps_each_entry<S>(paths: Seq<(Seq<SegmentView>, Seq<RouteEntry<S>>)>)
    ensures
        flattened(paths).len() == entries_on_paths(paths).len(),
        forall|k: int| 0 <= k < flattened(paths).len() ==> {
            &&& #[trigger] flattened(paths)[k].method == entries_on_paths(paths)[k].1.method
            &&& flattened(paths)[k].service == entries_on_paths(paths)[k].1.handler
            &&& flattened(paths)[k].segments == entries_on_paths(paths)[k].0
        },
    decreases paths.len(),
{
    if paths.len() > 0 {
        let init = paths.drop_last();
        law_flatten_keeps_each_entry(init);
        let (segments, entries) = paths.last();
        let a = flattened(init);
        let b = entries_on_paths(init);
        assert forall|k: int| 0 <= k < flattened(paths).len() implies {
            &&& #[trigger] flattened(paths)[k].method == entries_on_paths(paths)[k].1.method
            &&& flattened(paths)[k].service == entries_on_paths(paths)[k].1.handler
            &&& flattened(paths)[k].segments == entries_on_paths(paths)[k].0
        } by {
            if k < a.len() {
                assert(flattened(paths)[k] == a[k]);
                assert(entries_on_paths(paths)[k] == b[k]);
            } else {
                let j = k - a.len();
                assert(entries_on_paths(paths)[k] == (segments, entries[j]));
            }
        }
    }
}

/// The number of entries over all paths.
pub open spec fn entry_count<S>(paths: Seq<(Seq<SegmentView>, Seq<RouteEntry<S>>)>) -> nat
    decreases paths.len(),
{
    if paths.len() == 0 {
        0
    } else {
        entry_count(paths.drop_last()) + paths.last().1.len()
    }
}

/// A set of routes to be mounted below the path `path`.
pub struct NamedSpaced<I> {
    path: String,
    routes: I,
}

impl<I> NamedSpaced<I> {
    /// The path the routes are mounted below.
    pub closed spec fn mount_path(&self) -> Seq<char> {
        self.path@
    }

    /// The routes to be mounted.
    pub closed spec fn inner(&self) -> I {
        self.routes
    }

    /// `routes` to be mounted below `path`.
    pub fn new(path: &str, routes: I) -> (r: NamedSpaced<I>)
        ensures
            r.mount_path() == path@,
            r.inner() == routes,
    {
        NamedSpaced { path: path.to_owned(), routes }
    }

    /// The path, as it was given.
    pub fn path(&self) -> (r: &str)
        ensures
            r@ == self.mount_path(),
    {
        self.path.as_str()
    }

    /// Splits into the path and the routes.
    pub fn into_parts(self) -> (r: (String, I))
        ensures
            r.0@ == self.mount_path(),
            r.1 == self.inner(),
    {
        (self.path, self.routes)
    }
}

/// Mounting a set of routes below a path.
pub trait IntoRoutesExt: Sized {
    /// These routes, to be mounted below `path`.
    fn mounted_on(self, path: &str) -> (r: NamedSpaced<Self>)
        ensures
            r.mount_path() == path@,
            r.inner() == self,
    {
        NamedSpaced::new(path, self)
    }
}

impl<I> IntoRoutesExt for I {}

} // verus!
