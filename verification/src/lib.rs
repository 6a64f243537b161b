//! The core of a small AArch64 kernel for the BCM2837: decoding of exceptions,
//! the trap frame, a round-robin scheduler with timed waits, and the pure
//! parts of the timer and interrupt-controller drivers.
//!
//! Nothing in here touches hardware. Device registers are handed in and out as
//! plain words, and the clock is an argument.

pub mod allocator;
pub mod pi;
pub mod process;
pub mod traps;
