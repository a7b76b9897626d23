//! A chore that nests another: `AroundTheHouse` first takes out the trash,
//! which is a chore of its own (see `trash`), then waters the plants.
pub mod trash;

use crate::chores::{start_result, Choreable, Work};
use vstd::prelude::*;

verus! {

/// Collection of chores from around the house: take out the trash and water
/// plants. Taking out the trash is a multi-step sub-task, see `trash`.
#[derive(Debug)]
pub struct AroundTheHouse {
    trash_taken_out: bool,
    plants_watered: bool,
}

impl Choreable for AroundTheHouse {
    closed spec fn flags(&self) -> Seq<bool> {
        seq![self.trash_taken_out, self.plants_watered]
    }

    open spec fn task_count() -> nat {
        2
    }

    open spec fn work_of(index: int) -> Work {
        if index == 0 {
            Work::TakeOutTrash
        } else {
            Work::Timed { label: "[task 3.b] around-the-house.plants", seconds: 3 }
        }
    }

    /// Both sub-tasks record what their work returned.
    open spec fn flag_after(index: int, outcome: bool) -> bool {
        outcome
    }

    proof fn lemma_flags_len(&self) {
    }

    fn new() -> (chore: AroundTheHouse) {
        let chore = AroundTheHouse { trash_taken_out: false, plants_watered: false };
        assert(chore.flags() =~= Seq::new(2, |i: int| false));
        chore
    }

    fn task(index: usize) -> (work: Option<Work>) {
        match index {
            0 => Some(Work::TakeOutTrash),
            1 => Some(Work::Timed { label: "[task 3.b] around-the-house.plants", seconds: 3 }),
            _ => None,
        }
    }

    fn finish(&mut self, index: usize, outcome: bool) {
        if index == 0 {
            self.trash_taken_out = outcome;
        } else {
            self.plants_watered = outcome;
        }
        assert(self.flags() =~= old(self).flags().update(index as int, outcome));
    }

    fn is_done(&self) -> (done: bool) {
        let done = self.trash_taken_out && self.plants_watered;
        assert(done == (forall|i: int| 0 <= i < self.flags().len() ==> #[trigger] self.flags()[i]))
            by {
            if !self.trash_taken_out {
                assert(!self.flags()[0]);
            } else if !self.plants_watered {
                assert(!self.flags()[1]);
            }
        }
        done
    }
}

/// Around the house is done exactly when the trash was taken out and the
/// plants' wait returned `true`. As the trash chore finishes with `true` and
/// a timed wait returns `true`, a started round returns `true`.
pub proof fn lemma_around_the_house_result(outcomes: Seq<bool>)
    requires
        outcomes.len() == 2,
    ensures
        start_result::<AroundTheHouse>(outcomes) <==> outcomes[0] && outcomes[1],
        start_result::<AroundTheHouse>(Seq::new(2, |i: int| true)),
{
    if !outcomes[0] {
        assert(!AroundTheHouse::flag_after(0, outcomes[0]));
    } else if !outcomes[1] {
        assert(!AroundTheHouse::flag_after(1, outcomes[1]));
    }
}

} // verus!
