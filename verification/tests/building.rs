use mandag::builder::{service_chain, RoutesBuilder, TableBuild, TableStep};
use mandag::extract::{PluginLookup, PluginSlot};
use mandag::method::HttpMethod;
use mandag::phase::{Build, Core};
use mandag::routes::{mount_listed, Route, Segment};
use mandag::sequence::{Sequence, SequenceStep};

#[test]
fn sequence_runs_every_step_in_order() {
    let (mut s, step) = Sequence::start(3);
    assert_eq!(step, SequenceStep::Run(0));
    assert_eq!(s.report(true), SequenceStep::Run(1));
    assert_eq!(s.report(true), SequenceStep::Run(2));
    assert_eq!(s.report(true), SequenceStep::Done);
    assert_eq!(s.completed_count(), 3);
}

#[test]
fn sequence_stops_at_first_failure() {
    let (mut s, _) = Sequence::start(3);
    assert_eq!(s.report(true), SequenceStep::Run(1));
    assert_eq!(s.report(false), SequenceStep::Stop);
    assert_eq!(s.completed_count(), 1);
}

#[test]
fn empty_sequence_is_done_at_once() {
    let (_, step) = Sequence::start(0);
    assert_eq!(step, SequenceStep::Done);
}

#[test]
fn init_build_runs_hooks_in_attach_order_then_builds() {
    let init = Core::new().attach('a').attach('b').config_search_path("config").into_phase();
    let (mut build, step, paths, pattern) = init.start_build();
    assert_eq!(paths, vec!["config".to_string()]);
    assert_eq!(pattern, "*.{ext}");
    assert_eq!(step, SequenceStep::Run(0));
    assert_eq!(*build.extension(0), 'a');
    assert_eq!(build.report(true), SequenceStep::Run(1));
    assert_eq!(*build.extension(1), 'b');
    assert_eq!(build.report(true), SequenceStep::Done);
    let core: Core<Build<&str, u8, ()>> = build.finish("store", vec![7]);
    let (ctx, routes, modules) = core.into_phase().into_parts();
    assert_eq!(ctx, "store");
    assert_eq!(routes, vec![7]);
    assert!(modules.is_empty());
}

#[test]
fn init_build_stops_at_failing_hook() {
    let init = Core::new().attach(1u8).attach(2u8).attach(3u8).into_phase();
    let (mut build, _, _, _) = init.start_build();
    assert_eq!(build.report(false), SequenceStep::Stop);
}

#[test]
fn routes_builder_keeps_groups_and_services_in_order() {
    let mut a: RoutesBuilder<u8, char> = RoutesBuilder::new();
    a.route(1);
    a.service('x');
    let mut b = RoutesBuilder::new();
    b.route(2);
    b.service('y');
    a.extend(b);
    a.route(3);
    let (groups, services) = a.into_parts();
    assert_eq!(groups, vec![1, 2, 3]);
    assert_eq!(services, vec!['x', 'y']);
    assert_eq!(service_chain(services, 'r'), vec!['x', 'y', 'r']);
}

#[test]
fn table_build_lists_and_registers_in_order() {
    let (mut t, step) = TableBuild::start(2);
    assert_eq!(step, TableStep::List(0));
    assert_eq!(t.listed(Some(2)), TableStep::Register(0, 0));
    assert_eq!(t.registered_route(true), TableStep::Register(0, 1));
    assert_eq!(t.registered_route(true), TableStep::List(1));
    assert_eq!(t.listed(Some(0)), TableStep::Finish);
}

#[test]
fn table_build_fails_on_first_error() {
    let (mut t, _) = TableBuild::start(2);
    assert_eq!(t.listed(None), TableStep::Fail);
    let (mut t, _) = TableBuild::start(1);
    assert_eq!(t.listed(Some(3)), TableStep::Register(0, 0));
    assert_eq!(t.registered_route(false), TableStep::Fail);
    let (_, step) = TableBuild::start(0);
    assert_eq!(step, TableStep::Finish);
}

#[test]
fn plugin_is_evaluated_once_then_kept() {
    let mut slot: PluginSlot<u32> = PluginSlot::new();
    assert_eq!(slot.lookup(), PluginLookup::Evaluate);
    assert_eq!(slot.settle::<String>(Err("boom".to_string())), Err("boom".to_string()));
    assert_eq!(slot.lookup(), PluginLookup::Evaluate);
    assert_eq!(slot.settle::<String>(Ok(5)), Ok(()));
    assert_eq!(slot.lookup(), PluginLookup::Cached);
    *slot.kept_mut().unwrap() += 1;
    assert_eq!(slot.lookup(), PluginLookup::Cached);
    assert_eq!(slot.kept_mut().map(|v| *v), Some(6));
}

#[test]
fn mount_listed_hands_on_errors_and_mounts_routes() {
    let prefix = vec![Segment::Constant("api".to_string())];
    let failed: Result<Vec<Route<u8>>, &str> = Err("bad");
    assert!(matches!(mount_listed(&prefix, failed), Err("bad")));
    let listed: Result<Vec<Route<u8>>, &str> =
        Ok(vec![Route::get(vec![Segment::Parameter("id".to_string())], 4)]);
    let mounted = mount_listed(&prefix, listed).unwrap();
    assert_eq!(mounted.len(), 1);
    assert!(matches!(mounted[0].method, HttpMethod::Get));
    assert!(matches!(&mounted[0].segments[0], Segment::Constant(s) if s == "api"));
    assert!(matches!(&mounted[0].segments[1], Segment::Parameter(s) if s == "id"));
    assert_eq!(mounted[0].service, 4);
}
