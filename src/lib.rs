//! A counting semaphore built on one packed atomic word: the low half counts
//! the available permits, the high half counts the threads parked in the
//! kernel. The word's arithmetic, the decisions of the fast and slow paths and
//! the single atomic steps that apply them are verified here; the blocking
//! loops and the kernel calls that park and wake threads stand around them.

pub mod word;
pub mod sem;
pub mod laws;
pub mod name;

pub use sem::{Semaphore, WaitError, WaitStep};
