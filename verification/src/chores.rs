pub mod intermediate;
pub mod simple;

use vstd::prelude::*;

verus! {

/// The work one sub-task of a chore stands for.
#[derive(Debug, Clone, Copy, PartialEq, Eq)]
pub enum Work {
    /// Wait `seconds` seconds on a non-blocking timer, announcing `label`.
    Timed { label: &'static str, seconds: u64 },
    /// Drive the nested trash chore (see `intermediate::trash`) to completion.
    TakeOutTrash,
}

/// What every chore offers: creating one, and the decisions taken while it is
/// started. Starting a chore runs its sub-tasks one after the other, in the
/// order of `task(0)`, `task(1)`, ...; after each sub-task `finish` records the
/// outcome its work reported; `is_done` is then what the start returns.
pub trait Choreable: Sized {
    /// One flag per sub-task, in order: whether that sub-task has finished.
    spec fn flags(&self) -> Seq<bool>;

    /// How many sub-tasks the chore has.
    spec fn task_count() -> nat;

    /// The work of sub-task `index`.
    spec fn work_of(index: int) -> Work;

    /// The flag that sub-task `index` records when its work reported `outcome`.
    spec fn flag_after(index: int, outcome: bool) -> bool;

    /// Every chore has one flag per sub-task, and its sub-tasks are numbered
    /// by `usize` indices.
    proof fn lemma_flags_len(&self)
        ensures
            self.flags().len() == Self::task_count(),
            Self::task_count() <= usize::MAX,
    ;

    /// A chore of which no sub-task has finished.
    fn new() -> (chore: Self)
        ensures
            chore.flags() == Seq::new(Self::task_count(), |i: int| false),
    ;

    /// The work of sub-task `index`, or `None` past the last one.
    fn task(index: usize) -> (work: Option<Work>)
        ensures
            index < Self::task_count() ==> work == Some(Self::work_of(index as int)),
            index >= Self::task_count() ==> work is None,
    ;

    /// Records that sub-task `index` finished with `outcome`.
    fn finish(&mut self, index: usize, outcome: bool)
        requires
            index < Self::task_count(),
        ensures
            old(self).flags().len() == Self::task_count(),
            final(self).flags().len() == Self::task_count(),
            final(self).flags() == old(self).flags().update(
                index as int,
                Self::flag_after(index as int, outcome),
            ),
    ;

    /// Whether every sub-task has finished: the result of starting the chore.
    fn is_done(&self) -> (done: bool)
        ensures
            self.flags().len() == Self::task_count(),
            done == (forall|i: int| 0 <= i < self.flags().len() ==> #[trigger] self.flags()[i]),
    ;
}

/// A chore being started: the chore, and the sub-task to run next. Starting
/// runs the sub-tasks in order: `next_work` names the work of the next one,
/// `report` records what that work returned and moves on, and once
/// `next_work` has nothing left, `is_done` is what the start returns.
pub struct ChoreRun<C: Choreable> {
    chore: C,
    next: usize,
}

impl<C: Choreable> ChoreRun<C> {
    /// The flags of the chore being started.
    pub closed spec fn flags(&self) -> Seq<bool> {
        self.chore.flags()
    }

    /// The index of the sub-task to run next.
    pub closed spec fn next_index(&self) -> nat {
        self.next as nat
    }

    /// Starts `chore` at its first sub-task.
    pub fn start(chore: C) -> (run: ChoreRun<C>)
        ensures
            run.flags() == chore.flags(),
            run.flags().len() == C::task_count(),
            run.next_index() == 0,
    {
        proof {
            chore.lemma_flags_len();
        }
        ChoreRun { chore, next: 0 }
    }

    /// The work of the sub-task to run next, or `None` once all have run.
    pub fn next_work(&self) -> (work: Option<Work>)
        ensures
            self.next_index() < C::task_count() ==> work == Some(
                C::work_of(self.next_index() as int),
            ),
            self.next_index() >= C::task_count() ==> work is None,
    {
        C::task(self.next)
    }

    /// Records that the work of the current sub-task returned `outcome`, and
    /// moves on to the next sub-task.
    pub fn report(&mut self, outcome: bool)
        requires
            old(self).next_index() < C::task_count(),
        ensures
            old(self).flags().len() == C::task_count(),
            final(self).flags().len() == C::task_count(),
            final(self).flags() == old(self).flags().update(
                old(self).next_index() as int,
                C::flag_after(old(self).next_index() as int, outcome),
            ),
            final(self).next_index() == old(self).next_index() + 1,
    {
        proof {
            self.chore.lemma_flags_len();
        }
        self.chore.finish(self.next, outcome);
        self.next = self.next + 1;
    }

    /// Whether every sub-task of the chore has finished.
    pub fn is_done(&self) -> (done: bool)
        ensures
            self.flags().len() == C::task_count(),
            done == (forall|i: int| 0 <= i < self.flags().len() ==> #[trigger] self.flags()[i]),
    {
        let done = self.chore.is_done();
        assert(self.flags() == self.chore.flags());
        done
    }

    /// The chore, with what the start has recorded in it.
    pub fn into_chore(self) -> (chore: C)
        ensures
            chore.flags() == self.flags(),
    {
        self.chore
    }
}

/// The flags of a chore whose flags were `flags`, once sub-tasks `0 .. count`
/// have been finished in order, sub-task `i` reporting `outcomes[i]`.
pub open spec fn finish_in_order<C: Choreable>(
    flags: Seq<bool>,
    outcomes: Seq<bool>,
    count: nat,
) -> Seq<bool>
    decreases count,
{
    if count == 0 {
        flags
    } else {
        let last: int = count - 1;
        finish_in_order::<C>(flags, outcomes, (count - 1) as nat).update(
            last,
            C::flag_after(last, outcomes[last]),
        )
    }
}

/// What starting a chore returns when the work of sub-task `i` reports
/// `outcomes[i]`.
pub open spec fn start_result<C: Choreable>(outcomes: Seq<bool>) -> bool {
    forall|i: int| 0 <= i < C::task_count() ==> #[trigger] C::flag_after(i, outcomes[i])
}

/// Finishing each sub-task of a chore in order, sub-task `i` reporting
/// `outcomes[i]`, leaves exactly the flags those outcomes record, whatever
/// the flags were before (for a new chore: all unset). So the start returns
/// `start_result`.
pub proof fn lemma_start_records_outcomes<C: Choreable>(flags: Seq<bool>, outcomes: Seq<bool>)
    requires
        flags.len() == C::task_count(),
        outcomes.len() == C::task_count(),
    ensures
        ({
            let count = C::task_count();
            let finished = finish_in_order::<C>(flags, outcomes, count);
            &&& finished == Seq::new(count, |i: int| C::flag_after(i, outcomes[i]))
            &&& (forall|i: int| 0 <= i < finished.len() ==> #[trigger] finished[i])
                <==> start_result::<C>(outcomes)
        }),
{
    let count = C::task_count();
    lemma_finish_prefix::<C>(flags, outcomes, count);
    let finished = finish_in_order::<C>(flags, outcomes, count);
    assert(finished =~= Seq::new(count, |i: int| C::flag_after(i, outcomes[i])));
    if forall|i: int| 0 <= i < finished.len() ==> #[trigger] finished[i] {
        assert forall|i: int| 0 <= i < count implies #[trigger] C::flag_after(i, outcomes[i]) by {
            assert(finished[i]);
        }
    }
}

/// After the first `done` sub-tasks have been finished, those carry their
/// recorded flags and the others are as they were.
proof fn lemma_finish_prefix<C: Choreable>(flags: Seq<bool>, outcomes: Seq<bool>, done: nat)
    requires
        flags.len() == C::task_count(),
        done <= C::task_count(),
    ensures
        finish_in_order::<C>(flags, outcomes, done) =~= Seq::new(
            C::task_count(),
            |i: int|
                if i < done {
                    C::flag_after(i, outcomes[i])
                } else {
                    flags[i]
                },
        ),
    decreases done,
{
    if done > 0 {
        lemma_finish_prefix::<C>(flags, outcomes, (done - 1) as nat);
    }
}

} // verus!
