//! Two flat chores, `Breakfast` and `Laundry`: each is a fixed sequence of
//! timed sub-tasks, run one after the other. Each structure holds one flag per
//! sub-task, which starts as `false` and is set when the sub-task finishes.
//!
//! The timer of each sub-task is chosen so that, with both chores started
//! together, their sub-tasks finish interleaved.
use crate::chores::{start_result, Choreable, Work};
use vstd::prelude::*;

verus! {

/// Collection of chores that represent preparing breakfast.
#[derive(Debug)]
pub struct Breakfast {
    eggs: bool,
    toast: bool,
    sausage: bool,
    orange_juice: bool,
}

impl Choreable for Breakfast {
    closed spec fn flags(&self) -> Seq<bool> {
        seq![self.eggs, self.toast, self.sausage, self.orange_juice]
    }

    open spec fn task_count() -> nat {
        4
    }

    open spec fn work_of(index: int) -> Work {
        if index == 0 {
            Work::Timed { label: "[task 1.a] breakfast.scramble_eggs", seconds: 3 }
        } else if index == 1 {
            Work::Timed { label: "[task 1.b] breakfast.toast_bread", seconds: 1 }
        } else if index == 2 {
            Work::Timed { label: "[task 1.c] breakfast.fry_sausage", seconds: 6 }
        } else {
            Work::Timed { label: "[task 1.d] breakfast.pour_orange_juice", seconds: 1 }
        }
    }

    /// Every breakfast sub-task records what its timed wait returned.
    open spec fn flag_after(index: int, outcome: bool) -> bool {
        outcome
    }

    proof fn lemma_flags_len(&self) {
    }

    fn new() -> (chore: Breakfast) {
        let chore = Breakfast { eggs: false, toast: false, sausage: false, orange_juice: false };
        assert(chore.flags() =~= Seq::new(4, |i: int| false));
        chore
    }

    fn task(index: usize) -> (work: Option<Work>) {
        match index {
            0 => Some(Work::Timed { label: "[task 1.a] breakfast.scramble_eggs", seconds: 3 }),
            1 => Some(Work::Timed { label: "[task 1.b] breakfast.toast_bread", seconds: 1 }),
            2 => Some(Work::Timed { label: "[task 1.c] breakfast.fry_sausage", seconds: 6 }),
            3 => Some(Work::Timed { label: "[task 1.d] breakfast.pour_orange_juice", seconds: 1 }),
            _ => None,
        }
    }

    fn finish(&mut self, index: usize, outcome: bool) {
        if index == 0 {
            self.eggs = outcome;
        } else if index == 1 {
            self.toast = outcome;
        } else if index == 2 {
            self.sausage = outcome;
        } else {
            self.orange_juice = outcome;
        }
        assert(self.flags() =~= old(self).flags().update(index as int, outcome));
    }

    fn is_done(&self) -> (done: bool) {
        let done = self.eggs && self.orange_juice && self.sausage && self.toast;
        assert(done == (forall|i: int| 0 <= i < self.flags().len() ==> #[trigger] self.flags()[i]))
            by {
            if !done {
                if !self.eggs {
                    assert(!self.flags()[0]);
                } else if !self.toast {
                    assert(!self.flags()[1]);
                } else if !self.sausage {
                    assert(!self.flags()[2]);
                } else {
                    assert(!self.flags()[3]);
                }
            }
        }
        done
    }
}

#[derive(Debug)]
pub struct Laundry {
    picked_up: bool,
    washed: bool,
    dried: bool,
    folded: bool,
    put_away: bool,
}

impl Choreable for Laundry {
    closed spec fn flags(&self) -> Seq<bool> {
        seq![self.picked_up, self.washed, self.dried, self.folded, self.put_away]
    }

    open spec fn task_count() -> nat {
        5
    }

    open spec fn work_of(index: int) -> Work {
        if index == 0 {
            Work::Timed { label: "[task 2.a] laundry.pick up", seconds: 1 }
        } else if index == 1 {
            Work::Timed { label: "[task 2.b] laundry.wash", seconds: 6 }
        } else if index == 2 {
            Work::Timed { label: "[task 2.c] laundry.dry", seconds: 4 }
        } else if index == 3 {
            Work::Timed { label: "[task 2.d] laundry.fold", seconds: 4 }
        } else {
            Work::Timed { label: "[task 2.e] laundry.put_away", seconds: 2 }
        }
    }

    /// Picking up records what its timed wait returned; the later sub-tasks
    /// count as finished once their wait is over, whatever it returned.
    open spec fn flag_after(index: int, outcome: bool) -> bool {
        if index == 0 {
            outcome
        } else {
            true
        }
    }

    proof fn lemma_flags_len(&self) {
    }

    fn new() -> (chore: Laundry) {
        let chore = Laundry {
            picked_up: false,
            washed: false,
            dried: false,
            folded: false,
            put_away: false,
        };
        assert(chore.flags() =~= Seq::new(5, |i: int| false));
        chore
    }

    fn task(index: usize) -> (work: Option<Work>) {
        match index {
            0 => Some(Work::Timed { label: "[task 2.a] laundry.pick up", seconds: 1 }),
            1 => Some(Work::Timed { label: "[task 2.b] laundry.wash", seconds: 6 }),
            2 => Some(Work::Timed { label: "[task 2.c] laundry.dry", seconds: 4 }),
            3 => Some(Work::Timed { label: "[task 2.d] laundry.fold", seconds: 4 }),
            4 => Some(Work::Timed { label: "[task 2.e] laundry.put_away", seconds: 2 }),
            _ => None,
        }
    }

    fn finish(&mut self, index: usize, outcome: bool) {
        if index == 0 {
            self.picked_up = outcome;
        } else if index == 1 {
            self.washed = true;
        } else if index == 2 {
            self.dried = true;
        } else if index == 3 {
            self.folded = true;
        } else {
            self.put_away = true;
        }
        assert(self.flags() =~= old(self).flags().update(
            index as int,
            Self::flag_after(index as int, outcome),
        ));
    }

    fn is_done(&self) -> (done: bool) {
        let done = self.picked_up && self.washed && self.dried && self.folded && self.put_away;
        assert(done == (forall|i: int| 0 <= i < self.flags().len() ==> #[trigger] self.flags()[i]))
            by {
            if !done {
                if !self.picked_up {
                    assert(!self.flags()[0]);
                } else if !self.washed {
                    assert(!self.flags()[1]);
                } else if !self.dried {
                    assert(!self.flags()[2]);
                } else if !self.folded {
                    assert(!self.flags()[3]);
                } else {
                    assert(!self.flags()[4]);
                }
            }
        }
        done
    }
}

/// The seconds a sub-task's own timer waits.
pub open spec fn timer_seconds(work: Work) -> nat {
    match work {
        Work::Timed { seconds, .. } => seconds as nat,
        Work::TakeOutTrash => 0,
    }
}

/// When sub-task `index` of a chore of timed sub-tasks finishes, counted in
/// seconds from the start of the chore.
pub open spec fn finish_time<C: Choreable>(index: nat) -> nat
    decreases index,
{
    if index == 0 {
        timer_seconds(C::work_of(0))
    } else {
        finish_time::<C>((index - 1) as nat) + timer_seconds(C::work_of(index as int))
    }
}

/// Breakfast is done exactly when every one of its timed waits returned
/// `true`; as a timed wait always returns `true`, a started breakfast returns
/// `true`.
pub proof fn lemma_breakfast_result(outcomes: Seq<bool>)
    requires
        outcomes.len() == 4,
    ensures
        start_result::<Breakfast>(outcomes) <==> (forall|i: int| 0 <= i < 4 ==> #[trigger] outcomes[i]),
        start_result::<Breakfast>(Seq::new(4, |i: int| true)),
{
    if start_result::<Breakfast>(outcomes) {
        assert forall|i: int| 0 <= i < 4 implies #[trigger] outcomes[i] by {
            assert(Breakfast::flag_after(i, outcomes[i]));
        }
    }
}

/// Laundry is done exactly when picking up returned `true`: the later
/// sub-tasks count as finished whatever their wait returned. A started
/// laundry therefore returns `true`.
pub proof fn lemma_laundry_result(outcomes: Seq<bool>)
    requires
        outcomes.len() == 5,
    ensures
        start_result::<Laundry>(outcomes) <==> outcomes[0],
        start_result::<Laundry>(Seq::new(5, |i: int| true)),
{
    if outcomes[0] {
        assert forall|i: int| 0 <= i < 5 implies #[trigger] Laundry::flag_after(i, outcomes[i]) by {}
    } else {
        assert(!Laundry::flag_after(0, outcomes[0]));
    }
}

/// Started together, breakfast and laundry finish their sub-tasks
/// interleaved: laundry's first sub-task finishes before breakfast's first,
/// which finishes before laundry's second, and so on; no two sub-tasks finish
/// at the same moment, but for pouring the orange juice and drying, both
/// eleven seconds in.
pub proof fn lemma_simple_chores_interleave(b: nat, l: nat)
    requires
        b < 4,
        l < 5,
        !(b == 3 && l == 2),
    ensures
        finish_time::<Breakfast>(b) != finish_time::<Laundry>(l),
        finish_time::<Laundry>(0) < finish_time::<Breakfast>(0),
        finish_time::<Breakfast>(1) < finish_time::<Laundry>(1),
        finish_time::<Laundry>(1) < finish_time::<Breakfast>(2),
        finish_time::<Breakfast>(3) == finish_time::<Laundry>(2),
        finish_time::<Breakfast>(3) < finish_time::<Laundry>(4),
{
    reveal_with_fuel(finish_time, 5);
    assert(finish_time::<Breakfast>(0) == 3);
    assert(finish_time::<Breakfast>(1) == 4);
    assert(finish_time::<Breakfast>(2) == 10);
    assert(finish_time::<Breakfast>(3) == 11);
    assert(finish_time::<Laundry>(0) == 1);
    assert(finish_time::<Laundry>(1) == 7);
    assert(finish_time::<Laundry>(2) == 11);
    assert(finish_time::<Laundry>(3) == 15);
    assert(finish_time::<Laundry>(4) == 17);
}

} // verus!
