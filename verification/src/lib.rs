//! Process and log-rate monitoring: the logic of reading `/proc`, of
//! counting log lines into a rate, and of the keys and units under which the
//! rates are published.

use vstd::prelude::*;

pub mod decimal;
pub mod pattern;
pub mod process;
pub mod status;
pub mod units;
pub mod watch;

verus! {

/// The number of a process, as the kernel names it under `/proc`.
pub type Pid = u32;

} // verus!
