//! The error taxonomy of the library.

use vstd::prelude::*;

verus! {

/// Error number that the kernel reports when a non-blocking call would have
/// had to wait (`EAGAIN`, which Linux also names `EWOULDBLOCK`).
pub const EAGAIN: i32 = 11;

/// A failure reported by the operating system, kept as the error number it set.
#[derive(Clone, Copy, Debug, PartialEq, Eq, Structural)]
pub struct OsError {
    pub code: i32,
}

impl OsError {
    /// Whether this is the would-block condition of a non-blocking call.
    pub open spec fn spec_is_would_block(self) -> bool {
        self.code == EAGAIN
    }

    /// Whether this is the would-block condition of a non-blocking call.
    pub fn is_would_block(&self) -> (r: bool)
        ensures
            r == self.spec_is_would_block(),
    {
        self.code == EAGAIN
    }
}

/// Why an operation of the library failed.
#[derive(Clone, Copy, Debug, PartialEq, Eq, Structural)]
pub enum Error {
    /// The interface name does not fit the kernel's name field, or fewer than
    /// one queue was asked for.
    InvalidArgument,
    /// No queue exists at the given index.
    NotFound,
    /// An IPv6 value was given where only IPv4 is implemented.
    Unsupported,
    /// The operating system refused a call; the error is passed on unchanged.
    Os(OsError),
}

} // verus!
