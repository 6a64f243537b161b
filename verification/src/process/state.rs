use vstd::prelude::*;

verus! {

/// The scheduling state of a process.
#[derive(Debug, Copy, Clone, PartialEq, Eq)]
pub enum State {
    /// The process is ready to be scheduled.
    Ready,
    /// The process is the one that the CPU executes.
    Running,
    /// The process sleeps: it is ready again once `duration_us` microseconds
    /// have passed since `start_us`.
    Waiting { start_us: u64, duration_us: u64 },
    /// The process has ended. No process is in this state yet.
    Zombie,
}

} // verus!
