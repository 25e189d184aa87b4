use vstd::prelude::*;

verus! {

/// The three ways a service or an extractor can answer: it produced a value,
/// it failed with an error, or it declined and handed its input on (`Next`).
#[derive(Debug, Clone, Copy, PartialEq, Eq)]
pub enum Outcome<S, E, N> {
    Success(S),
    Failure(E),
    Next(N),
}

/// The outcome of an optional extractor (`Option<T>`) whose inner extractor
/// answered `inner`: a decline becomes a successful `None`; failures pass
/// through.
pub open spec fn optional<T, E>(inner: Outcome<T, E, ()>) -> Outcome<Option<T>, E, ()> {
    match inner {
        Outcome::Success(v) => Outcome::Success(Some(v)),
        Outcome::Next(_) => Outcome::Success(None),
        Outcome::Failure(e) => Outcome::Failure(e),
    }
}

/// The outcome of a fallible extractor (`Result<T, E>`) whose inner extractor
/// answered `inner`: a failure becomes a successful `Err`; declining passes
/// through.
pub open spec fn fallible<T, E>(inner: Outcome<T, E, ()>) -> Outcome<Result<T, E>, E, ()> {
    match inner {
        Outcome::Success(v) => Outcome::Success(Ok(v)),
        Outcome::Next(_) => Outcome::Next(()),
        Outcome::Failure(e) => Outcome::Success(Err(e)),
    }
}

/// The outcome of an optional extractor (`Option<T>`).
pub fn option_outcome<T, E>(inner: Outcome<T, E, ()>) -> (r: Outcome<Option<T>, E, ()>)
    ensures
        r == optional(inner),
{
    match inner {
        Outcome::Success(v) => Outcome::Success(Some(v)),
        Outcome::Next(_) => Outcome::Success(None),
        Outcome::Failure(e) => Outcome::Failure(e),
    }
}

/// The outcome of a fallible extractor (`Result<T, E>`).
pub fn result_outcome<T, E>(inner: Outcome<T, E, ()>) -> (r: Outcome<Result<T, E>, E, ()>)
    ensures
        r == fallible(inner),
{
    match inner {
        Outcome::Success(v) => Outcome::Success(Ok(v)),
        Outcome::Next(_) => Outcome::Next(()),
        Outcome::Failure(e) => Outcome::Success(Err(e)),
    }
}

/// The outcome of an extractor that looks a value up: found means success,
/// missing means the extractor declines. It never fails.
pub fn found_outcome<T, E>(found: Option<T>) -> (r: Outcome<T, E, ()>)
    ensures
        match found {
            Some(v) => r == Outcome::<T, E, ()>::Success(v),
            None => r == Outcome::<T, E, ()>::Next(()),
        },
{
    match found {
        Some(v) => Outcome::Success(v),
        None => Outcome::Next(()),
    }
}

/// One part of a compound extractor (a tuple of extractors, read in order):
/// its value when it succeeded, or the outcome the whole extractor stops
/// with when it did not.
pub fn guard_part<T, E>(part: Outcome<T, E, ()>) -> (r: Result<T, Outcome<(), E, ()>>)
    ensures
        match part {
            Outcome::Success(v) => r == Ok::<T, Outcome<(), E, ()>>(v),
            Outcome::Next(_) => r == Err::<T, Outcome<(), E, ()>>(Outcome::Next(())),
            Outcome::Failure(e) => r == Err::<T, Outcome<(), E, ()>>(Outcome::Failure(e)),
        },
{
    match part {
        Outcome::Success(v) => Ok(v),
        Outcome::Next(_) => Err(Outcome::Next(())),
        Outcome::Failure(e) => Err(Outcome::Failure(e)),
    }
}

/// A compound extractor made of parts that all answered alike: its outcome
/// is the first part that did not succeed, or the values of all parts.
pub open spec fn compound<T, E>(parts: Seq<Outcome<T, E, ()>>) -> Outcome<Seq<T>, E, ()>
    decreases parts.len(),
{
    if parts.len() == 0 {
        Outcome::Success(seq![])
    } else {
        match parts[0] {
            Outcome::Success(v) => match compound(parts.drop_first()) {
                Outcome::Success(vs) => Outcome::Success(seq![v] + vs),
                other => other,
            },
            Outcome::Next(_) => Outcome::Next(()),
            Outcome::Failure(e) => Outcome::Failure(e),
        }
    }
}

/// An outcome whose values are held in a vector, with the vector as a sequence.
pub open spec fn values_view<T, E>(o: Outcome<Vec<T>, E, ()>) -> Outcome<Seq<T>, E, ()> {
    match o {
        Outcome::Success(vs) => Outcome::Success(vs@),
        Outcome::Next(n) => Outcome::Next(n),
        Outcome::Failure(e) => Outcome::Failure(e),
    }
}

/// Reads the parts of a compound extractor in order and stops at the first
/// that does not succeed.
pub fn compound_outcome<T, E>(parts: Vec<Outcome<T, E, ()>>) -> (r: Outcome<Vec<T>, E, ()>)
    ensures
        values_view(r) == compound(parts@),
{
    let ghost all = parts@;
    let mut rest = parts;
    let count = rest.len();
    let mut values: Vec<T> = Vec::new();
    while rest.len() > 0
        invariant
            count == all.len(),
            all == parts@,
            values@.len() + rest@.len() == count,
            rest@ == all.subrange(values@.len() as int, all.len() as int),
            compound(all) == match compound(rest@) {
                Outcome::Success(ws) => Outcome::Success(values@ + ws),
                other => other,
            },
        decreases rest@.len(),
    {
        let ghost before = rest@;
        let part = rest.remove(0);
        proof {
            assert(rest@ =~= before.drop_first());
            assert(before[0] == part);
        }
        match guard_part(part) {
            Ok(v) => {
                let ghost old_values = values@;
                values.push(v);
                proof {
                    assert(rest@ =~= all.subrange(values@.len() as int, all.len() as int));
                    match compound(rest@) {
                        Outcome::Success(ws) => {
                            assert(old_values + (seq![v] + ws) =~= values@ + ws);
                        },
                        _ => {},
                    }
                }
            },
            Err(stop) => {
                let result: Outcome<Vec<T>, E, ()> = match stop {
                    Outcome::Failure(e) => Outcome::Failure(e),
                    _ => Outcome::Next(()),
                };
                return result;
            },
        }
    }
    proof {
        assert(values@ + seq![] =~= values@);
    }
    Outcome::Success(values)
}

/// An optional extractor never declines, and it answers `None` exactly when
/// its inner extractor declines.
pub proof fn law_optional_extractor_never_declines<T, E>(inner: Outcome<T, E, ()>)
    ensures
        !(optional(inner) is Next),
        (optional(inner) == Outcome::<Option<T>, E, ()>::Success(None)) <==> (inner is Next),
{
}

/// A fallible extractor never fails, and it declines exactly when its inner
/// extractor declines.
pub proof fn law_fallible_extractor_never_fails<T, E>(inner: Outcome<T, E, ()>)
    ensures
        !(fallible(inner) is Failure),
        (fallible(inner) is Next) <==> (inner is Next),
{
}

/// A compound extractor succeeds exactly when every part succeeds.
pub proof fn law_compound_succeeds_iff_all_parts_succeed<T, E>(parts: Seq<Outcome<T, E, ()>>)
    ensures
        (compound(parts) is Success) <==> (forall|i: int| 0 <= i < parts.len() ==> #[trigger] parts[i] is Success),
    decreases parts.len(),
{
    if parts.len() > 0 {
        law_compound_succeeds_iff_all_parts_succeed(parts.drop_first());
        assert forall|i: int| 0 < i < parts.len() implies #[trigger] parts[i] == parts.drop_first()[i - 1] by {}
        if !(parts[0] is Success) {
        } else if !(compound(parts.drop_first()) is Success) {
            let k = choose|k: int| 0 <= k < parts.drop_first().len() && !(parts.drop_first()[k] is Success);
            assert(parts[k + 1] == parts.drop_first()[k]);
        }
    }
}

} // verus!
