//! The kernel heap: a bump allocator over one range of addresses.

pub mod bump;
pub mod util;

pub use self::bump::{AllocErr, Allocator, Layout, Region};
