//! The trash chore: a hand-written future whose progress is a small state
//! machine,
//!
//! ```text
//!  [ Start ] --> [ Gather ] --> [ TakeOut ] -> [ Done ]
//! (enter here)                              (finish here)
//! ```
//!
//! Each state lasts as long as a timer that is set on entering it. Every poll
//! of the future checks that timer; once it has fired, the machine moves on to
//! the next state and sets the timer for it. In `Done` the chore is finished
//! and the poll returns `true`.
use vstd::prelude::*;
use vstd::string::*;

verus! {

/// The states the trash chore goes through, in order.
#[derive(Debug, Clone, Copy, PartialEq, Eq)]
pub enum State {
    /// Initial state of the state machine (the poll is pending).
    Start,
    Gather,
    TakeOut,
    /// Final state of the machine (the poll is ready).
    Done,
}

/// The name of a state as it is announced.
pub open spec fn state_name(state: State) -> Seq<char> {
    match state {
        State::Start => "trash.start"@,
        State::Gather => "trash.gather"@,
        State::TakeOut => "trash.take_out"@,
        State::Done => "trash.done"@,
    }
}

/// The stage number of a state, in lower-case roman numerals.
pub open spec fn stage_name(state: State) -> Seq<char> {
    match state {
        State::Start => "i"@,
        State::Gather => "ii"@,
        State::TakeOut => "iii"@,
        State::Done => "iv"@,
    }
}

/// The position of a state on the way from `Start` (0) to `Done` (3).
pub open spec fn rank(state: State) -> nat {
    match state {
        State::Start => 0,
        State::Gather => 1,
        State::TakeOut => 2,
        State::Done => 3,
    }
}

/// The state that follows `state`; `Done` has none and stays.
pub open spec fn successor(state: State) -> State {
    match state {
        State::Start => State::Gather,
        State::Gather => State::TakeOut,
        State::TakeOut => State::Done,
        State::Done => State::Done,
    }
}

/// How many seconds the machine stays in `state` once it has entered it:
/// the timer that is set on the transition into `state`.
pub open spec fn seconds_in(state: State) -> u64 {
    match state {
        State::Start => 0,
        State::Gather => 4,
        State::TakeOut => 4,
        State::Done => 0,
    }
}

impl State {
    pub fn to_str(&self) -> (name: &'static str)
        ensures
            name@ == state_name(*self),
    {
        proof {
            reveal_strlit("trash.start");
            reveal_strlit("trash.gather");
            reveal_strlit("trash.take_out");
            reveal_strlit("trash.done");
        }
        match self {
            State::Start => "trash.start",
            State::Gather => "trash.gather",
            State::TakeOut => "trash.take_out",
            State::Done => "trash.done",
        }
    }

    pub fn to_stage(&self) -> (stage: &'static str)
        ensures
            stage@ == stage_name(*self),
    {
        proof {
            reveal_strlit("i");
            reveal_strlit("ii");
            reveal_strlit("iii");
            reveal_strlit("iv");
        }
        match self {
            State::Start => "i",
            State::Gather => "ii",
            State::TakeOut => "iii",
            State::Done => "iv",
        }
    }
}

/// What the driver of the future does after a poll.
#[derive(Debug, Clone, Copy, PartialEq, Eq)]
pub enum Step {
    /// The timer of the current state has not fired: the poll is pending and
    /// nothing else happens.
    Wait,
    /// The machine moved from `from` to `to`: announce the transition, set the
    /// timer to `seconds`, ask to be woken, and report the poll as pending.
    Advance { from: State, to: State, seconds: u64 },
    /// The chore is finished: the poll is ready with `result`.
    Finish { result: bool },
}

/// The seconds the timer is set to when the future is created: the machine
/// leaves `Start` at its first poll.
pub const START_TIMER_SECONDS: u64 = 0;

/// What is announced when the chore is finished.
pub const DONE_MESSAGE: &'static str = "[Task 3.a] around-the-house.trash.done";

/// One poll of the machine in `state`, where `timer_ready` tells whether the
/// timer of that state has fired: the state afterwards and what to do.
pub open spec fn poll_step(state: State, timer_ready: bool) -> (State, Step) {
    if state == State::Done {
        (State::Done, Step::Finish { result: true })
    } else if timer_ready {
        let next = successor(state);
        (next, Step::Advance { from: state, to: next, seconds: seconds_in(next) })
    } else {
        (state, Step::Wait)
    }
}

/// The trash chore's progress across polls.
#[derive(Debug)]
pub struct Future {
    /// Current state of the machine.
    state: State,
}

impl View for Future {
    type V = State;

    closed spec fn view(&self) -> State {
        self.state
    }
}

impl Future {
    /// A chore in `Start`; its timer is to be set to `START_TIMER_SECONDS`.
    pub fn new() -> (future: Future)
        ensures
            future@ == State::Start,
    {
        Future { state: State::Start }
    }

    /// The current state.
    pub fn state(&self) -> (state: State)
        ensures
            state == self@,
    {
        self.state
    }

    /// Whether a poll in the current state consults the timer: in every
    /// state but `Done`.
    pub fn awaits_timer(&self) -> (waits: bool)
        ensures
            waits == (self@ != State::Done),
    {
        match self.state {
            State::Done => false,
            _ => true,
        }
    }

    /// Drives the machine one poll forward; `timer_ready` tells whether the
    /// timer of the current state has fired.
    pub fn poll(&mut self, timer_ready: bool) -> (step: Step)
        ensures
            (final(self)@, step) == poll_step(old(self)@, timer_ready),
    {
        match self.state {
            State::Start => self.try_state_change(timer_ready, State::Gather, 4),
            State::Gather => self.try_state_change(timer_ready, State::TakeOut, 4),
            State::TakeOut => self.try_state_change(timer_ready, State::Done, 0),
            State::Done => Step::Finish { result: true },
        }
    }

    /// Moves to `next_state`, which lasts `seconds`, if the timer has fired.
    fn try_state_change(&mut self, timer_ready: bool, next_state: State, seconds: u64) -> (step: Step)
        ensures
            timer_ready ==> final(self)@ == next_state && step == (Step::Advance {
                from: old(self)@,
                to: next_state,
                seconds,
            }),
            !timer_ready ==> final(self)@ == old(self)@ && step == Step::Wait,
    {
        if timer_ready {
            let from = self.state;
            self.state = next_state;
            Step::Advance { from, to: next_state, seconds }
        } else {
            Step::Wait
        }
    }
}

/// The announcement of a transition from `from` to `to`.
pub open spec fn transition_text(from: State, to: State) -> Seq<char> {
    "[Task 3.a."@ + stage_name(from) + "] around-the-house."@ + state_name(from) + " --> "@
        + state_name(to)
}

/// The line announced when the machine moves from `from` to `to`.
pub fn transition_message(from: State, to: State) -> (message: String)
    ensures
        message@ == transition_text(from, to),
{
    let mut message = String::from_str("[Task 3.a.");
    message.append(from.to_stage());
    message.append("] around-the-house.");
    message.append(from.to_str());
    message.append(" --> ");
    message.append(to.to_str());
    message
}

/// The state reached from `state` after `polls` polls whose timer had fired.
pub open spec fn after_fired_polls(state: State, polls: nat) -> State
    decreases polls,
{
    if polls == 0 {
        state
    } else {
        after_fired_polls(poll_step(state, true).0, (polls - 1) as nat)
    }
}

/// A poll never moves the machine backwards: it either keeps the state, or,
/// announcing it, moves to the next state with that state's timer.
pub proof fn lemma_poll_moves_forward(state: State, timer_ready: bool)
    ensures
        ({
            let (next, step) = poll_step(state, timer_ready);
            &&& rank(next) >= rank(state)
            &&& step is Advance ==> next == successor(state) && rank(next) == rank(state) + 1
                && step == (Step::Advance { from: state, to: next, seconds: seconds_in(next) })
            &&& !(step is Advance) ==> next == state
        }),
{
}

/// Until the chore is done, a poll whose timer has not fired changes nothing.
pub proof fn lemma_unfired_timer_waits(state: State)
    requires
        state != State::Done,
    ensures
        poll_step(state, false) == (state, Step::Wait),
{
}

/// The poll is ready exactly in `Done`, whatever the timer says, and it is
/// ready with `true`; `Done` is never left.
pub proof fn lemma_ready_only_when_done(state: State, timer_ready: bool)
    ensures
        poll_step(state, timer_ready).1 is Finish <==> state == State::Done,
        poll_step(state, timer_ready).1 is Finish ==> poll_step(state, timer_ready).1
            == (Step::Finish { result: true }),
        state == State::Done ==> poll_step(state, timer_ready).0 == State::Done,
{
}

/// From any state, once `3 - rank(state)` polls have found their timer fired,
/// the machine is in `Done` (and not before), so the next poll finishes the
/// chore with `true`.
pub proof fn lemma_fired_polls_finish(state: State, polls: nat)
    ensures
        polls + rank(state) >= 3 ==> after_fired_polls(state, polls) == State::Done,
        polls + rank(state) < 3 ==> rank(after_fired_polls(state, polls)) == rank(state) + polls,
        poll_step(after_fired_polls(state, (3 - rank(state)) as nat), true).1 == (Step::Finish {
            result: true,
        }),
    decreases polls,
{
    if polls > 0 {
        lemma_fired_polls_finish(poll_step(state, true).0, (polls - 1) as nat);
    }
    reveal_with_fuel(after_fired_polls, 4);
}

} // verus!
