use mandag::dispatch::{Dispatch, DispatchStep, HandlerReply, STRIPPED_STATUS};
use mandag::method::HttpMethod;
use mandag::routes::{flatten, mount, Route, RouteEntry, Segment};
use mandag::routes::IntoRoutesExt;

fn seg_names(segments: &[Segment]) -> Vec<String> {
    segments
        .iter()
        .map(|s| match s {
            Segment::Constant(c) => c.clone(),
            Segment::Parameter(p) => format!(":{}", p),
            Segment::Star(s) => format!("*{}", s),
        })
        .collect()
}

#[test]
fn get_request_tries_each_get_route_in_order() {
    let routes = vec![HttpMethod::Post, HttpMethod::Get, HttpMethod::Put, HttpMethod::Get];
    let (mut d, step) = Dispatch::start(HttpMethod::Get, Some(routes));
    assert_eq!(step, DispatchStep::Call(1));
    assert_eq!(d.resume(HandlerReply::Next), DispatchStep::Call(3));
    assert_eq!(d.resume(HandlerReply::Next), DispatchStep::Decline);
}

#[test]
fn unmatched_path_is_handed_on() {
    let (_d, step) = Dispatch::start(HttpMethod::Get, None);
    assert_eq!(step, DispatchStep::NoRoute);
}

#[test]
fn no_route_of_the_method_declines() {
    let (_d, step) = Dispatch::start(HttpMethod::Delete, Some(vec![HttpMethod::Get, HttpMethod::Post]));
    assert_eq!(step, DispatchStep::Decline);
}

#[test]
fn head_request_served_by_get_is_stripped() {
    let (mut d, step) = Dispatch::start(HttpMethod::Head, Some(vec![HttpMethod::Post, HttpMethod::Get]));
    assert_eq!(step, DispatchStep::Call(1));
    assert_eq!(d.resume(HandlerReply::Success), DispatchStep::Respond { strip: true });
    assert_eq!(STRIPPED_STATUS, 204);
}

#[test]
fn head_request_served_by_head_is_kept() {
    let (mut d, step) = Dispatch::start(HttpMethod::Head, Some(vec![HttpMethod::Head, HttpMethod::Get]));
    assert_eq!(step, DispatchStep::Call(0));
    assert_eq!(d.resume(HandlerReply::Success), DispatchStep::Respond { strip: false });
}

#[test]
fn head_request_falls_through_head_to_get() {
    let (mut d, step) = Dispatch::start(HttpMethod::Head, Some(vec![HttpMethod::Head, HttpMethod::Get]));
    assert_eq!(step, DispatchStep::Call(0));
    assert_eq!(d.resume(HandlerReply::Next), DispatchStep::Call(1));
    assert_eq!(d.resume(HandlerReply::Success), DispatchStep::Respond { strip: true });
}

#[test]
fn get_request_is_not_served_by_head_route() {
    let (_d, step) = Dispatch::start(HttpMethod::Get, Some(vec![HttpMethod::Head]));
    assert_eq!(step, DispatchStep::Decline);
}

#[test]
fn failure_ends_the_routing() {
    let (mut d, step) = Dispatch::start(HttpMethod::Post, Some(vec![HttpMethod::Post, HttpMethod::Post]));
    assert_eq!(step, DispatchStep::Call(0));
    assert_eq!(d.resume(HandlerReply::Failure), DispatchStep::Fail);
}

#[test]
fn extension_methods_match_by_name() {
    let routes = vec![
        HttpMethod::Extension("PURGE".to_string()),
        HttpMethod::Extension("LINK".to_string()),
    ];
    let (mut d, step) = Dispatch::start(HttpMethod::Extension("LINK".to_string()), Some(routes));
    assert_eq!(step, DispatchStep::Call(1));
    assert_eq!(d.resume(HandlerReply::Next), DispatchStep::Decline);
    assert!(HttpMethod::Extension("A".to_string()).is(&HttpMethod::Extension("A".to_string())));
    assert!(!HttpMethod::Extension("GET".to_string()).is(&HttpMethod::Get));
}

fn sample_routes() -> Vec<Route<u32>> {
    vec![
        Route::get(vec![Segment::Constant("todos".into())], 1),
        Route::post(vec![Segment::Constant("todos".into()), Segment::Parameter("id".into())], 2),
        Route::new(HttpMethod::Delete, vec![Segment::Star("rest".into())], 3),
    ]
}

#[test]
fn mount_prefixes_every_route() {
    let prefix = vec![Segment::Constant("api".into())];
    let mounted = mount(&prefix, sample_routes());
    assert_eq!(mounted.len(), 3);
    assert_eq!(seg_names(&mounted[0].segments), vec!["api", "todos"]);
    assert_eq!(seg_names(&mounted[1].segments), vec!["api", "todos", ":id"]);
    assert_eq!(seg_names(&mounted[2].segments), vec!["api", "*rest"]);
    assert!(matches!(mounted[0].method, HttpMethod::Get));
    assert!(matches!(mounted[1].method, HttpMethod::Post));
    assert!(matches!(mounted[2].method, HttpMethod::Delete));
    assert_eq!(mounted.iter().map(|r| r.service).collect::<Vec<_>>(), vec![1, 2, 3]);
}

#[test]
fn mount_on_root_keeps_routes() {
    let mounted = mount(&Vec::new(), sample_routes());
    assert_eq!(seg_names(&mounted[1].segments), vec!["todos", ":id"]);
    assert_eq!(mounted.len(), 3);
}

#[test]
fn mount_twice_is_mount_on_joined_prefix() {
    let outer = vec![Segment::Constant("v1".into())];
    let inner = vec![Segment::Constant("api".into()), Segment::Parameter("tenant".into())];
    let twice = mount(&outer, mount(&inner, sample_routes()));
    let mut joined = outer.clone();
    joined.extend(inner.clone());
    let once = mount(&joined, sample_routes());
    for (a, b) in twice.iter().zip(once.iter()) {
        assert_eq!(seg_names(&a.segments), seg_names(&b.segments));
        assert_eq!(a.service, b.service);
    }
    assert_eq!(seg_names(&twice[0].segments), vec!["v1", "api", ":tenant", "todos"]);
}

#[test]
fn mount_of_no_routes_is_empty() {
    let mounted: Vec<Route<u32>> = mount(&vec![Segment::Constant("x".into())], Vec::new());
    assert!(mounted.is_empty());
}

#[test]
fn flatten_lists_one_route_per_entry() {
    let paths = vec![
        (
            vec![Segment::Constant("a".into())],
            vec![RouteEntry::new(HttpMethod::Get, 1), RouteEntry::new(HttpMethod::Post, 2)],
        ),
        (vec![], vec![]),
        (vec![Segment::Parameter("b".into())], vec![RouteEntry::new(HttpMethod::Put, 3)]),
    ];
    let routes = flatten(paths);
    assert_eq!(routes.len(), 3);
    assert_eq!(seg_names(&routes[0].segments), vec!["a"]);
    assert_eq!(seg_names(&routes[1].segments), vec!["a"]);
    assert_eq!(seg_names(&routes[2].segments), vec![":b"]);
    assert!(matches!(routes[1].method, HttpMethod::Post));
    assert_eq!(routes.iter().map(|r| r.handler_id()).collect::<Vec<_>>(), vec![1, 2, 3]);
}

trait HandlerId {
    fn handler_id(&self) -> u32;
}

impl HandlerId for Route<u32> {
    fn handler_id(&self) -> u32 {
        self.service
    }
}

#[test]
fn mounted_on_keeps_path_and_routes() {
    let spaced = sample_routes().mounted_on("/api/todos");
    assert_eq!(spaced.path(), "/api/todos");
    let (path, routes) = spaced.into_parts();
    assert_eq!(path, "/api/todos");
    assert_eq!(routes.len(), 3);
}
