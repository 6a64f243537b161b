//! The system timer and the interrupt controller of the BCM2837, as functions
//! on the words of their register blocks.

pub mod interrupt;
pub mod timer;
