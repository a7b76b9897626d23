//! Which chores a round of household work runs.
use vstd::prelude::*;

verus! {

/// The chores there are.
#[derive(Debug, Clone, Copy, PartialEq, Eq)]
pub enum ChoreKind {
    Breakfast,
    Laundry,
    AroundTheHouse,
}

/// The chores run for a choice of simple and intermediate chores, in the
/// order they are handed to the executor: the simple ones (breakfast, then
/// laundry), then the intermediate one (around the house).
pub open spec fn planned_chores(simple: bool, intermediate: bool) -> Seq<ChoreKind> {
    (if simple {
        seq![ChoreKind::Breakfast, ChoreKind::Laundry]
    } else {
        Seq::empty()
    }) + (if intermediate {
        seq![ChoreKind::AroundTheHouse]
    } else {
        Seq::empty()
    })
}

/// The chores to run for `task_kinds`, the choice of (simple, intermediate,
/// advanced) chores. There are no advanced chores to run.
pub fn chores_to_run(task_kinds: (bool, bool, bool)) -> (chores: Vec<ChoreKind>)
    requires
        !task_kinds.2,
    ensures
        chores@ == planned_chores(task_kinds.0, task_kinds.1),
{
    let mut chores: Vec<ChoreKind> = Vec::new();
    if task_kinds.0 {
        chores.push(ChoreKind::Breakfast);
        chores.push(ChoreKind::Laundry);
    }
    if task_kinds.1 {
        chores.push(ChoreKind::AroundTheHouse);
    }
    chores
}

} // verus!
