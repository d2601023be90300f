//! The error type shared by the whole crate.
use vstd::prelude::*;

verus! {

/// `EAGAIN`: a non-blocking call has nothing ready.
pub const EAGAIN: i32 = 11;

/// Why an operation failed.
#[derive(Debug, Clone, Copy, PartialEq, Eq, Structural)]
pub enum UsbError {
    /// The device node is missing or may not be opened; carries the OS error number.
    OpenFailed(i32),
    /// A kernel ioctl failed; carries the OS error number.
    IoctlFailed(i32),
    /// A non-blocking operation has nothing ready.
    WouldBlock,
    /// A wait ran out of time.
    TimedOut,
    /// The caller broke a precondition of the operation.
    InvalidInput,
    /// The endpoint already has a transfer in flight.
    AlreadyExists,
    /// No buffer could be allocated.
    OutOfMemory,
    /// Descriptor bytes are truncated or inconsistent.
    ParseError,
}

impl UsbError {
    /// The error an ioctl that set `errno` stands for: `EAGAIN` means that
    /// nothing is ready, and every other number is handed on as it is.
    pub open spec fn spec_from_errno(errno: i32) -> UsbError {
        if errno == EAGAIN {
            UsbError::WouldBlock
        } else {
            UsbError::IoctlFailed(errno)
        }
    }

    /// Classifies the OS error number left behind by a failed ioctl.
    #[verifier::when_used_as_spec(spec_from_errno)]
    pub fn from_errno(errno: i32) -> (e: UsbError)
        ensures
            e == Self::spec_from_errno(errno),
    {
        if errno == EAGAIN {
            UsbError::WouldBlock
        } else {
            UsbError::IoctlFailed(errno)
        }
    }
}

} // verus!
