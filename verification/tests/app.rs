use mandag::api::{index, route};
use mandag::body::{decision_for, form_decision, json_decision, BodyDecision, Form, Json};
use mandag::handler::HandlerService;
use mandag::method::HttpMethod;
use mandag::phase::Core;
use mandag::tera::{TeraExt, TEMPLATES_KEY};

#[test]
fn json_body_is_read_only_for_json_requests() {
    assert_eq!(json_decision(Some("application/json")), BodyDecision::Decode);
    assert_eq!(json_decision(Some("Application/JSON")), BodyDecision::Decode);
    assert_eq!(json_decision(Some("text/html")), BodyDecision::Pass);
    assert_eq!(json_decision(Some("application/json; charset=utf-8")), BodyDecision::Pass);
    assert_eq!(json_decision(Some("not a media type")), BodyDecision::Pass);
    assert_eq!(json_decision(None), BodyDecision::Pass);
}

#[test]
fn form_body_is_read_only_for_form_requests() {
    assert_eq!(form_decision(Some("application/x-www-form-urlencoded")), BodyDecision::Decode);
    assert_eq!(form_decision(Some("application/json")), BodyDecision::Pass);
    assert_eq!(form_decision(Some("")), BodyDecision::Pass);
    assert_eq!(form_decision(None), BodyDecision::Pass);
}

#[test]
fn missing_or_unparsed_content_type_is_passed_on() {
    assert_eq!(decision_for(None), BodyDecision::Pass);
    assert_eq!(decision_for(Some(false)), BodyDecision::Pass);
    assert_eq!(decision_for(Some(true)), BodyDecision::Decode);
}

#[test]
fn decoded_bodies_give_their_values_back() {
    let j = Json::new(vec![1, 2]);
    assert_eq!(j.len(), 2);
    assert_eq!(j.into_inner(), vec![1, 2]);
    let mut f = Form::new("name".to_string());
    f.get_mut().push_str("!");
    assert_eq!(f.into_inner(), "name!");
}

#[test]
fn templates_are_every_file_below_the_directory() {
    assert_eq!(TEMPLATES_KEY, "templates");
    assert_eq!(TeraExt::template_glob("templates"), "templates/**/*");
    assert_eq!(TeraExt::template_glob("site/templates/"), "site/templates/**/*");
    assert_eq!(TeraExt::template_glob(""), "**/*");
}

#[test]
fn new_application_has_defaults() {
    let core: Core<mandag::phase::Init<u8>> = Core::default();
    let (exts, paths, pattern) = core.into_phase().into_parts();
    assert!(exts.is_empty());
    assert!(paths.is_empty());
    assert_eq!(pattern, "*.{ext}");
}

#[test]
fn application_collects_extensions_and_search_paths_in_order() {
    let core = Core::new()
        .config_search_path("mandag/examples/todo")
        .attach(1u8)
        .attach(2u8)
        .config_search_path("config");
    let (exts, paths, _) = core.into_phase().into_parts();
    assert_eq!(exts, vec![1, 2]);
    assert_eq!(paths, vec!["mandag/examples/todo".to_string(), "config".to_string()]);
}

#[test]
fn built_application_collects_routes_and_modules() {
    let core: Core<mandag::phase::Build<&str, u8, char>> = Core::built("ctx", vec![1]);
    let core = core.route(2).module('m').route(3);
    let (ctx, routes, modules) = core.into_phase().into_parts();
    assert_eq!(ctx, "ctx");
    assert_eq!(routes, vec![1, 2, 3]);
    assert_eq!(modules, vec!['m']);
}

#[test]
fn generated_index_route_is_get_root() {
    assert_eq!(index.call(), "Hello, World!");
    assert_eq!(index::name(), "Test");
    let r = index.into_route();
    assert!(matches!(r.method, HttpMethod::Get));
    assert!(r.segments.is_empty());
    let routes = route.into_routes();
    assert_eq!(routes.len(), 1);
    assert!(matches!(routes[0].service, HandlerService(index)));
}
