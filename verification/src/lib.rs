//! Household chores modelled as small state machines.
//!
//! Every chore is a sequence of sub-tasks. The library decides which sub-task
//! comes next, what it waits for and what finishing it records; the program
//! that drives the chores performs the waiting and reports back.

pub mod chores;
pub mod household;
pub mod verbosity;
