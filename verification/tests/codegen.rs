use mandag::codegen::{count_route_attrs, crate_ident, find_parameter, find_route_attr, plan_handler, route_takes_data, CrateLocation};
use mandag::method::{HttpMethod, Method};

fn names(v: &[&str]) -> Vec<String> {
    v.iter().map(|s| s.to_string()).collect()
}

#[test]
fn route_methods_are_read_from_their_names() {
    assert_eq!(Method::parse("get"), Ok(Method::Get));
    assert_eq!(Method::parse("post"), Ok(Method::Post));
    assert_eq!(Method::parse("put"), Ok(Method::Put));
    assert_eq!(Method::parse("patch"), Ok(Method::Patch));
    assert_eq!(Method::parse("delete"), Ok(Method::Delete));
    assert_eq!(Method::parse("any"), Ok(Method::Any));
    assert_eq!("get".parse::<Method>(), Ok(Method::Get));
}

#[test]
fn unknown_route_method_is_refused_with_its_name() {
    assert_eq!(Method::parse("head"), Err("method not found: head".to_string()));
    assert_eq!(Method::parse("GET"), Err("method not found: GET".to_string()));
    assert_eq!(Method::parse(""), Err("method not found: ".to_string()));
}

#[test]
fn route_methods_map_to_http_methods() {
    assert!(matches!(Method::Get.http_method(), Some(HttpMethod::Get)));
    assert!(matches!(Method::Head.http_method(), Some(HttpMethod::Head)));
    assert!(matches!(Method::Patch.http_method(), Some(HttpMethod::Patch)));
    assert!(Method::Any.http_method().is_none());
}

#[test]
fn handler_without_data_takes_every_input() {
    let plan = plan_handler(&names(&["todos", "tera"]), &None);
    assert_eq!(plan.inputs, vec![0, 1]);
    assert_eq!(plan.data, None);
    assert_eq!(plan.data_arg, "data");
}

#[test]
fn handler_with_data_splits_inputs_from_body() {
    let plan = plan_handler(&names(&["todos", "data", "uri"]), &Some("data".to_string()));
    assert_eq!(plan.inputs, vec![0, 2]);
    assert_eq!(plan.data, Some(1));
    assert_eq!(plan.data_arg, "data");

    let plan = plan_handler(&names(&["payload"]), &Some("payload".to_string()));
    assert!(plan.inputs.is_empty());
    assert_eq!(plan.data, Some(0));
    assert_eq!(plan.data_arg, "payload");
}

#[test]
fn parameters_are_found_by_name() {
    let ps = names(&["a", "b", "a"]);
    assert_eq!(find_parameter(&ps, "a"), Some(0));
    assert_eq!(find_parameter(&ps, "b"), Some(1));
    assert_eq!(find_parameter(&ps, "c"), None);
}

fn attrs(v: &[Option<&str>]) -> Vec<Option<String>> {
    v.iter().map(|a| a.map(|s| s.to_string())).collect()
}

#[test]
fn route_attributes_are_counted_and_found() {
    let plain = attrs(&[Some("doc"), None, Some("inline")]);
    assert_eq!(count_route_attrs(&plain), 0);
    assert_eq!(find_route_attr(&plain), None);

    let one = attrs(&[Some("doc"), Some("post"), None]);
    assert_eq!(count_route_attrs(&one), 1);
    assert_eq!(find_route_attr(&one), Some(1));

    let many = attrs(&[Some("get"), Some("head"), Some("any")]);
    assert_eq!(count_route_attrs(&many), 2);
}

#[test]
fn route_attributes_choose_their_options() {
    assert_eq!(route_takes_data("get"), Some(false));
    assert_eq!(route_takes_data("delete"), Some(false));
    assert_eq!(route_takes_data("head"), Some(false));
    assert_eq!(route_takes_data("post"), Some(true));
    assert_eq!(route_takes_data("put"), Some(true));
    assert_eq!(route_takes_data("patch"), Some(true));
    assert_eq!(route_takes_data("any"), None);
}

#[test]
fn crate_identifier_replaces_dashes() {
    assert_eq!(crate_ident("mandag-core", CrateLocation::Itself), "mandag_core");
    assert_eq!(crate_ident("a-b-c", CrateLocation::Itself), "a_b_c");
    assert_eq!(crate_ident("mandag", CrateLocation::Itself), "mandag");
    assert_eq!(crate_ident("mandag", CrateLocation::Name("web".to_string())), "web");
    assert_eq!(crate_ident("", CrateLocation::Itself), "");
}

#[test]
fn handler_without_parameters_takes_no_inputs() {
    let plan = plan_handler(&Vec::new(), &None);
    assert!(plan.inputs.is_empty());
    assert_eq!(plan.data, None);
}
