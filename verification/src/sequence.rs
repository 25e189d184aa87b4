use vstd::prelude::*;

verus! {

/// What to do next while running a row of fallible steps one after another.
#[derive(Debug, Clone, Copy, PartialEq, Eq, Structural)]
pub enum SequenceStep {
    /// Run the step at this position and report how it went.
    Run(usize),
    /// Every step succeeded.
    Done,
    /// A step failed: run no further step and give its error back.
    Stop,
}

/// The step that starts a row of `total` steps.
pub open spec fn first_step(total: nat) -> SequenceStep {
    if total == 0 {
        SequenceStep::Done
    } else {
        SequenceStep::Run(0)
    }
}

/// The step after the step at position `i` of `total` reported `ok`.
pub open spec fn step_after(total: nat, i: nat, ok: bool) -> SequenceStep {
    if !ok {
        SequenceStep::Stop
    } else if i + 1 == total {
        SequenceStep::Done
    } else {
        SequenceStep::Run((i + 1) as usize)
    }
}

/// Where a row of `total` steps stands once the reports `reports` came in,
/// in order; a report that comes when no step runs changes nothing.
pub open spec fn standing(total: nat, reports: Seq<bool>) -> SequenceStep
    decreases reports.len(),
{
    if reports.len() == 0 {
        first_step(total)
    } else {
        match standing(total, reports.drop_last()) {
            SequenceStep::Run(i) => step_after(total, i as nat, reports.last()),
            other => other,
        }
    }
}

/// The first `n` reports all said the step succeeded.
pub open spec fn all_ok(reports: Seq<bool>, n: int) -> bool {
    forall|k: int| 0 <= k < n && k < reports.len() ==> #[trigger] reports[k]
}

/// Runs a row of fallible steps in order: each step runs once, after the one
/// before it succeeded; the first failure stops the row.
pub struct Sequence {
    total: usize,
    completed: usize,
    running: bool,
}

impl Sequence {
    /// The number of steps in the row.
    pub closed spec fn total(self) -> nat {
        self.total as nat
    }

    /// The number of steps that succeeded.
    pub closed spec fn completed(self) -> nat {
        self.completed as nat
    }

    /// Whether a step runs and its report is awaited: the step at position
    /// `completed()`.
    pub closed spec fn running(self) -> bool {
        self.running
    }

    /// The row's state is consistent: a running step is one of the row.
    pub closed spec fn wf(self) -> bool {
        &&& self.completed <= self.total
        &&& self.running ==> self.completed < self.total
    }

    /// The number of steps that succeeded.
    pub fn completed_count(&self) -> (r: usize)
        ensures
            r == self.completed(),
    {
        self.completed
    }

    /// Starts a row of `total` steps.
    pub fn start(total: usize) -> (r: (Sequence, SequenceStep))
        ensures
            r.0.wf(),
            r.0.total() == total,
            r.0.completed() == 0,
            r.1 == first_step(total as nat),
            r.0.running() <==> r.1 is Run,
    {
        let s = Sequence { total, completed: 0, running: total > 0 };
        let step = if total == 0 {
            SequenceStep::Done
        } else {
            SequenceStep::Run(0)
        };
        (s, step)
    }

    /// Takes the report of the running step and says what to do next: the
    /// next step, `Done` after the last one, or `Stop` on a failure.
    pub fn report(&mut self, ok: bool) -> (r: SequenceStep)
        requires
            old(self).wf(),
            old(self).running(),
        ensures
            final(self).wf(),
            final(self).total() == old(self).total(),
            r == step_after(old(self).total(), old(self).completed(), ok),
            final(self).completed() == if ok { old(self).completed() + 1 } else { old(self).completed() },
            final(self).running() <==> r is Run,
            r matches SequenceStep::Run(i) ==> i == final(self).completed(),
    {
        if !ok {
            self.running = false;
            SequenceStep::Stop
        } else {
            self.completed = self.completed + 1;
            if self.completed == self.total {
                self.running = false;
                SequenceStep::Done
            } else {
                self.running = true;
                SequenceStep::Run(self.completed)
            }
        }
    }
}

/// A running step is one of the row, and no more steps succeeded than there
/// are.
pub proof fn lemma_running_in_row(s: Sequence)
    requires
        s.wf(),
    ensures
        s.completed() <= s.total(),
        s.running() ==> s.completed() < s.total(),
{
}

/// Whatever the steps report, the row runs its steps in order, each once:
/// while it runs, the running step is the next one and all before it
/// succeeded; it is done exactly when all `total` steps succeeded; it stops
/// exactly at the first failure.
pub proof fn law_steps_run_in_order_until_first_failure(total: nat, reports: Seq<bool>)
    requires
        total <= usize::MAX,
    ensures
        match standing(total, reports) {
            SequenceStep::Run(i) => i == reports.len() && reports.len() < total && all_ok(reports, reports.len() as int),
            SequenceStep::Done => total <= reports.len() && all_ok(reports, total as int),
            SequenceStep::Stop => exists|k: int|
                0 <= k < reports.len() && k < total && !#[trigger] reports[k] && all_ok(reports, k),
        },
    decreases reports.len(),
{
    if reports.len() > 0 {
        let init = reports.drop_last();
        law_steps_run_in_order_until_first_failure(total, init);
        assert forall|n: int| #![trigger all_ok(reports, n)] 0 <= n <= init.len() implies all_ok(init, n) == all_ok(reports, n) by {
            assert forall|k: int| 0 <= k < n && k < reports.len() implies reports[k] == init[k] by {}
        }
        match standing(total, init) {
            SequenceStep::Run(i) => {
                assert(all_ok(init, init.len() as int));
                assert(all_ok(reports, init.len() as int));
                if reports.last() {
                    assert(all_ok(reports, reports.len() as int)) by {
                        assert forall|k: int| 0 <= k < reports.len() && k < reports.len() implies #[trigger] reports[k] by {
                            if k < init.len() {
                                assert(init[k]);
                            }
                        }
                    }
                    if i + 1 == total {
                        assert(all_ok(reports, total as int));
                    }
                } else {
                    let k = init.len() as int;
                    assert(!reports[k]);
                }
            },
            SequenceStep::Done => {
                assert(all_ok(reports, total as int)) by {
                    assert forall|k: int| 0 <= k < total && k < reports.len() implies #[trigger] reports[k] by {
                        assert(init[k]);
                    }
                }
            },
            SequenceStep::Stop => {
                let k = choose|k: int| 0 <= k < init.len() && k < total && !#[trigger] init[k] && all_ok(init, k);
                assert(reports[k] == init[k]);
                assert(all_ok(reports, k));
            },
        }
    }
}

} // verus!
