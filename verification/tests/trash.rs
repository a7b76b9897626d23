use async_chores::chores::intermediate::trash::{
    transition_message, Future, State, Step, DONE_MESSAGE, START_TIMER_SECONDS,
};

#[test]
fn state_names() {
    assert_eq!(State::Start.to_str(), "trash.start");
    assert_eq!(State::Gather.to_str(), "trash.gather");
    assert_eq!(State::TakeOut.to_str(), "trash.take_out");
    assert_eq!(State::Done.to_str(), "trash.done");
}

#[test]
fn state_stages() {
    assert_eq!(State::Start.to_stage(), "i");
    assert_eq!(State::Gather.to_stage(), "ii");
    assert_eq!(State::TakeOut.to_stage(), "iii");
    assert_eq!(State::Done.to_stage(), "iv");
}

#[test]
fn new_future_starts_at_start_with_immediate_timer() {
    let future = Future::new();
    assert_eq!(future.state(), State::Start);
    assert_eq!(START_TIMER_SECONDS, 0);
}

#[test]
fn unfired_timer_keeps_the_state() {
    let mut future = Future::new();
    assert_eq!(future.poll(false), Step::Wait);
    assert_eq!(future.state(), State::Start);
    future.poll(true);
    assert_eq!(future.poll(false), Step::Wait);
    assert_eq!(future.state(), State::Gather);
}

#[test]
fn fired_timers_walk_the_machine_to_done() {
    let mut future = Future::new();
    assert_eq!(
        future.poll(true),
        Step::Advance { from: State::Start, to: State::Gather, seconds: 4 }
    );
    assert_eq!(
        future.poll(true),
        Step::Advance { from: State::Gather, to: State::TakeOut, seconds: 4 }
    );
    assert_eq!(
        future.poll(true),
        Step::Advance { from: State::TakeOut, to: State::Done, seconds: 0 }
    );
    assert_eq!(future.state(), State::Done);
    assert_eq!(future.poll(true), Step::Finish { result: true });
}

#[test]
fn done_is_ready_whatever_the_timer_and_stays_done() {
    let mut future = Future::new();
    for _ in 0..3 {
        future.poll(true);
    }
    assert_eq!(future.poll(false), Step::Finish { result: true });
    assert_eq!(future.poll(true), Step::Finish { result: true });
    assert_eq!(future.state(), State::Done);
}

#[test]
fn finishing_takes_four_fired_polls_and_eight_seconds() {
    let mut future = Future::new();
    let mut polls = 0;
    let mut seconds = START_TIMER_SECONDS;
    loop {
        polls += 1;
        match future.poll(true) {
            Step::Advance { seconds: s, .. } => seconds += s,
            Step::Finish { result } => {
                assert!(result);
                break;
            }
            Step::Wait => panic!("a fired timer never waits"),
        }
    }
    assert_eq!(polls, 4);
    assert_eq!(seconds, 8);
}

#[test]
fn transition_messages() {
    assert_eq!(
        transition_message(State::Start, State::Gather),
        "[Task 3.a.i] around-the-house.trash.start --> trash.gather"
    );
    assert_eq!(
        transition_message(State::Gather, State::TakeOut),
        "[Task 3.a.ii] around-the-house.trash.gather --> trash.take_out"
    );
    assert_eq!(
        transition_message(State::TakeOut, State::Done),
        "[Task 3.a.iii] around-the-house.trash.take_out --> trash.done"
    );
    assert_eq!(DONE_MESSAGE, "[Task 3.a] around-the-house.trash.done");
}
