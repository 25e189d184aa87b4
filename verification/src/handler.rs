use vstd::prelude::*;
use crate::outcome::Outcome;

verus! {

/// A handler made into a service that answers requests.
#[derive(Debug, Clone, Copy)]
pub struct HandlerService<H>(pub H);

/// Turning a handler into a service.
pub trait HandlerExt: Sized {
    /// This handler as a service.
    fn service(self) -> (r: HandlerService<Self>)
        ensures
            r.0 == self,
    {
        HandlerService(self)
    }
}

impl<H> HandlerExt for H {}

/// Where a handler service is in answering one request.
#[derive(Debug, Clone, Copy, PartialEq, Eq, Structural)]
pub enum Stage {
    /// Extracting the handler's input from the request.
    Input,
    /// Reading the request body into the handler's data.
    Body,
    /// Running the handler.
    Handle,
    /// Answered.
    Finished,
}

/// What happened at the current stage.
#[derive(Debug, Clone, Copy, PartialEq, Eq, Structural)]
pub enum Event {
    InputExtracted,
    InputDeclined,
    InputFailed,
    BodyRead,
    BodyDeclined,
    BodyFailed,
    Handled,
    HandlerFailed,
}

/// What the service does next.
#[derive(Debug, Clone, Copy, PartialEq, Eq, Structural)]
pub enum Action {
    /// Read the body into the handler's data.
    ReadBody,
    /// Run the handler with the input and the data.
    RunHandler,
    /// Answer with the handler's output, turned into a response.
    Respond,
    /// Answer with the error.
    Fail,
    /// Put the body back into the request and hand the request on: the
    /// input extractor or the body extractor declined.
    Decline,
}

/// Whether `event` can happen at `stage`.
pub open spec fn expected(stage: Stage, event: Event) -> bool {
    match stage {
        Stage::Input => event is InputExtracted || event is InputDeclined || event is InputFailed,
        Stage::Body => event is BodyRead || event is BodyDeclined || event is BodyFailed,
        Stage::Handle => event is Handled || event is HandlerFailed,
        Stage::Finished => false,
    }
}

/// The next stage and action after `event`.
pub open spec fn transition(stage: Stage, event: Event) -> (Stage, Action) {
    match event {
        Event::InputExtracted => (Stage::Body, Action::ReadBody),
        Event::InputDeclined => (Stage::Finished, Action::Decline),
        Event::InputFailed => (Stage::Finished, Action::Fail),
        Event::BodyRead => (Stage::Handle, Action::RunHandler),
        Event::BodyDeclined => (Stage::Finished, Action::Decline),
        Event::BodyFailed => (Stage::Finished, Action::Fail),
        Event::Handled => (Stage::Finished, Action::Respond),
        Event::HandlerFailed => (Stage::Finished, Action::Fail),
    }
}

/// The event that an input extraction's outcome makes.
pub fn input_event<T, E, N>(input: &Outcome<T, E, N>) -> (r: Event)
    ensures
        match *input {
            Outcome::Success(_) => r is InputExtracted,
            Outcome::Next(_) => r is InputDeclined,
            Outcome::Failure(_) => r is InputFailed,
        },
{
    match input {
        Outcome::Success(_) => Event::InputExtracted,
        Outcome::Next(_) => Event::InputDeclined,
        Outcome::Failure(_) => Event::InputFailed,
    }
}

/// The event that reading the body makes: the data, a decline (the body
/// handed back), or an error.
pub fn body_event<T, E, N>(data: &Outcome<T, E, N>) -> (r: Event)
    ensures
        match *data {
            Outcome::Success(_) => r is BodyRead,
            Outcome::Next(_) => r is BodyDeclined,
            Outcome::Failure(_) => r is BodyFailed,
        },
{
    match data {
        Outcome::Success(_) => Event::BodyRead,
        Outcome::Next(_) => Event::BodyDeclined,
        Outcome::Failure(_) => Event::BodyFailed,
    }
}

/// The event that running the handler makes.
pub fn handler_event<T, E>(output: &Result<T, E>) -> (r: Event)
    ensures
        match *output {
            Ok(_) => r is Handled,
            Err(_) => r is HandlerFailed,
        },
{
    match output {
        Ok(_) => Event::Handled,
        Err(_) => Event::HandlerFailed,
    }
}

/// The progress of a handler service through one request.
pub struct Pipeline {
    stage: Stage,
}

impl Pipeline {
    /// The current stage.
    pub closed spec fn stage(self) -> Stage {
        self.stage
    }

    /// A request not yet looked at.
    pub fn new() -> (r: Pipeline)
        ensures
            r.stage() is Input,
    {
        Pipeline { stage: Stage::Input }
    }

    /// Takes what happened at the current stage and says what to do next.
    pub fn step(&mut self, event: Event) -> (r: Action)
        requires
            expected(old(self).stage(), event),
        ensures
            (final(self).stage(), r) == transition(old(self).stage(), event),
    {
        match event {
            Event::InputExtracted => {
                self.stage = Stage::Body;
                Action::ReadBody
            },
            Event::InputDeclined => {
                self.stage = Stage::Finished;
                Action::Decline
            },
            Event::InputFailed => {
                self.stage = Stage::Finished;
                Action::Fail
            },
            Event::BodyRead => {
                self.stage = Stage::Handle;
                Action::RunHandler
            },
            Event::BodyDeclined => {
                self.stage = Stage::Finished;
                Action::Decline
            },
            Event::BodyFailed => {
                self.stage = Stage::Finished;
                Action::Fail
            },
            Event::Handled => {
                self.stage = Stage::Finished;
                Action::Respond
            },
            Event::HandlerFailed => {
                self.stage = Stage::Finished;
                Action::Fail
            },
        }
    }
}

/// The stage and the actions after a run of events from the start.
pub open spec fn run(events: Seq<Event>) -> (Stage, Seq<Action>)
    decreases events.len(),
{
    if events.len() == 0 {
        (Stage::Input, seq![])
    } else {
        let (stage, actions) = run(events.drop_last());
        let (next, action) = transition(stage, events.last());
        (next, actions.push(action))
    }
}

/// Whether every event of the run can happen where it happens.
pub open spec fn valid_run(events: Seq<Event>) -> bool
    decreases events.len(),
{
    events.len() == 0 || (valid_run(events.drop_last()) && expected(run(events.drop_last()).0, events.last()))
}

/// The handler runs only after its input was extracted and the body was read:
/// in any run, `RunHandler` is the second action, and only after those two
/// events.
pub proof fn law_handler_runs_only_after_input_and_body(events: Seq<Event>, i: int)
    requires
        valid_run(events),
        0 <= i < events.len(),
        run(events).1[i] is RunHandler,
    ensures
        i == 1,
        events[0] is InputExtracted,
        events[1] is BodyRead,
    decreases events.len(),
{
    lemma_run_shape(events);
    if i < events.len() - 1 {
        assert(run(events.drop_last()).1[i] == run(events).1[i]);
        law_handler_runs_only_after_input_and_body(events.drop_last(), i);
        assert(events[0] == events.drop_last()[0]);
        assert(events[1] == events.drop_last()[1]);
    }
}

proof fn lemma_run_shape(events: Seq<Event>)
    requires
        valid_run(events),
    ensures
        run(events).1.len() == events.len(),
        events.len() <= 3,
        events.len() == 0 ==> run(events).0 is Input,
        events.len() == 1 ==> (run(events).0 is Body <==> events[0] is InputExtracted),
        events.len() == 1 ==> (run(events).0 is Body || run(events).0 is Finished),
        events.len() == 2 ==> events[0] is InputExtracted,
        events.len() == 2 ==> (run(events).0 is Handle <==> events[1] is BodyRead),
        events.len() == 2 ==> (run(events).0 is Handle || run(events).0 is Finished),
        events.len() == 3 ==> run(events).0 is Finished && events[0] is InputExtracted && events[1] is BodyRead,
        events.len() >= 1 ==> (run(events).1.last() is RunHandler <==> events.len() == 2 && events[1] is BodyRead),
    decreases events.len(),
{
    if events.len() > 0 {
        lemma_run_shape(events.drop_last());
        if events.len() >= 2 {
            assert(events.drop_last()[0] == events[0]);
        }
        if events.len() >= 3 {
            assert(events.drop_last()[1] == events[1]);
        }
    }
}

} // verus!
