//! The errors of the kernel.

use vstd::prelude::*;

verus! {

/// An error of the kernel.
#[derive(Debug, PartialEq, Eq)]
pub enum Error {
    /// A failure in words.
    Common(String),
    /// An error number of the system interface.
    SysError(i32),
}

/// The error numbers of the system interface.
pub struct SysErr {}

impl SysErr {
    /// Invalid argument.
    pub const EINVAL: i32 = 22;
}

} // verus!
