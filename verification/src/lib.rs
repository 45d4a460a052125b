use vstd::prelude::*;

pub mod atomic_boxed;
pub mod holder;
pub mod interner;
pub mod signal;
pub mod src;
pub mod atomic_linked_list;

verus! {

/// The number by which the operating system knows a process.
pub type Pid = libc::pid_t;

} // verus!
