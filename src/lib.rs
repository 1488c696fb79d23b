//! A single-slot container whose heap-held value is replaced as one
//! indivisible step, handing the displaced value back to the caller.

mod atomic;
pub mod history;

pub use atomic::Atomic;
pub use std::sync::atomic::Ordering;
