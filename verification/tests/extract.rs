use mandag::error::{ExtensionError, GuardError};
use mandag::extract::{AppExt, Ext};
use mandag::outcome::{compound_outcome, found_outcome, guard_part, option_outcome, result_outcome, Outcome};

#[test]
fn optional_extractor_turns_decline_into_none() {
    let o: Outcome<u8, GuardError, ()> = Outcome::Next(());
    assert_eq!(option_outcome(o), Outcome::Success(None));
    let o: Outcome<u8, GuardError, ()> = Outcome::Success(7);
    assert_eq!(option_outcome(o), Outcome::Success(Some(7)));
    let o: Outcome<u8, GuardError, ()> = Outcome::Failure(GuardError::Infallible);
    assert_eq!(option_outcome(o), Outcome::Failure(GuardError::Infallible));
}

#[test]
fn fallible_extractor_turns_failure_into_err() {
    let o: Outcome<u8, &str, ()> = Outcome::Failure("bad");
    assert_eq!(result_outcome(o), Outcome::Success(Err("bad")));
    let o: Outcome<u8, &str, ()> = Outcome::Next(());
    assert_eq!(result_outcome(o), Outcome::Next(()));
    let o: Outcome<u8, &str, ()> = Outcome::Success(1);
    assert_eq!(result_outcome(o), Outcome::Success(Ok(1)));
}

#[test]
fn lookup_extractors_decline_when_missing() {
    let r: Outcome<u8, GuardError, ()> = found_outcome(None);
    assert_eq!(r, Outcome::Next(()));
    let r: Outcome<u8, GuardError, ()> = found_outcome(Some(3));
    assert_eq!(r, Outcome::Success(3));

    let value = String::from("stored");
    match Ext::from_lookup(Some(&value)) {
        Outcome::Success(e) => assert_eq!(e.get(), "stored"),
        _ => panic!("expected success"),
    }
    assert!(matches!(Ext::<String>::from_lookup(None), Outcome::Next(())));

    match AppExt::from_lookup(Some(5u32)) {
        Outcome::Success(mut e) => {
            assert_eq!(*e.get(), 5);
            *e.get_mut() = 6;
            assert_eq!(*e, 6);
            assert_eq!(e.into_inner(), 6);
        },
        _ => panic!("expected success"),
    }
    assert!(matches!(AppExt::<u32>::from_lookup(None), Outcome::Next(())));
}

#[test]
fn compound_extractor_stops_at_first_unsuccessful_part() {
    assert_eq!(guard_part::<u8, GuardError>(Outcome::Success(1)), Ok(1));
    assert_eq!(guard_part::<u8, GuardError>(Outcome::Next(())), Err(Outcome::Next(())));

    let all: Vec<Outcome<u8, &str, ()>> = vec![Outcome::Success(1), Outcome::Success(2)];
    assert_eq!(compound_outcome(all), Outcome::Success(vec![1, 2]));

    let parts: Vec<Outcome<u8, &str, ()>> = vec![Outcome::Success(1), Outcome::Next(()), Outcome::Failure("late")];
    assert_eq!(compound_outcome(parts), Outcome::Next(()));

    let parts: Vec<Outcome<u8, &str, ()>> = vec![Outcome::Failure("early"), Outcome::Next(())];
    assert_eq!(compound_outcome(parts), Outcome::Failure("early"));

    let none: Vec<Outcome<u8, &str, ()>> = Vec::new();
    assert_eq!(compound_outcome(none), Outcome::Success(vec![]));
}

#[test]
fn extension_error_keeps_reason() {
    let e = ExtensionError::new("no templates".to_string());
    assert_eq!(e.reason(), "no templates");
}
