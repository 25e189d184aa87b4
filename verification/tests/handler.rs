use mandag::handler::{body_event, handler_event, input_event, Action, Event, HandlerExt, Pipeline};
use mandag::outcome::Outcome;

#[test]
fn successful_request_runs_the_handler_and_responds() {
    let mut p = Pipeline::new();
    let input: Outcome<u8, (), ()> = Outcome::Success(1);
    assert_eq!(p.step(input_event(&input)), Action::ReadBody);
    let body: Outcome<String, (), ()> = Outcome::Success("body".to_string());
    assert_eq!(p.step(body_event(&body)), Action::RunHandler);
    let out: Result<&str, ()> = Ok("done");
    assert_eq!(p.step(handler_event(&out)), Action::Respond);
}

#[test]
fn declining_input_hands_the_request_on() {
    let mut p = Pipeline::new();
    let input: Outcome<u8, (), ()> = Outcome::Next(());
    assert_eq!(input_event(&input), Event::InputDeclined);
    assert_eq!(p.step(Event::InputDeclined), Action::Decline);
}

#[test]
fn failures_at_each_stage_fail_the_request() {
    let mut p = Pipeline::new();
    assert_eq!(p.step(Event::InputFailed), Action::Fail);

    let mut p = Pipeline::new();
    p.step(Event::InputExtracted);
    let body: Outcome<(), &str, ()> = Outcome::Failure("unreadable");
    assert_eq!(p.step(body_event(&body)), Action::Fail);

    let mut p = Pipeline::new();
    p.step(Event::InputExtracted);
    let body: Outcome<(), &str, Vec<u8>> = Outcome::Next(vec![1]);
    assert_eq!(body_event(&body), Event::BodyDeclined);
    assert_eq!(p.step(Event::BodyDeclined), Action::Decline);

    let mut p = Pipeline::new();
    p.step(Event::InputExtracted);
    p.step(Event::BodyRead);
    let out: Result<(), &str> = Err("handler");
    assert_eq!(p.step(handler_event(&out)), Action::Fail);
}

#[derive(Debug, Clone, Copy, PartialEq)]
struct Home;

#[test]
fn handler_service_wraps_the_handler() {
    let s = Home.service();
    assert_eq!(s.0, Home);
}
