//! Processes and the scheduler that shares the CPU among them.

pub mod process;
pub mod schedule;
pub mod scheduler;
pub mod stack;
pub mod state;

pub use self::process::{Id, Process};
pub use self::schedule::Schedule;
pub use self::scheduler::{GlobalScheduler, Scheduler, TICK};
pub use self::stack::Stack;
pub use self::state::State;
