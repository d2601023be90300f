//! A user-space USB host library for Linux `usbfs`.
//!
//! The crate holds the protocol side of the transfer engine: endpoint
//! addresses, descriptor records, transfer buffers, the URB record and the
//! per-device bookkeeping that matches completions to submissions. It performs
//! no system calls itself; a driver layer opens the device node, issues the
//! ioctls this crate asks for and feeds the outcomes back in.
use std::time::Duration;
use vstd::prelude::*;
use vstd::std_specs::convert::FromSpecImpl;

pub mod control_transfer;
pub mod descriptors;
pub mod endpoint;
pub mod error;
pub mod os;
pub mod usb_transfer;

pub use endpoint::{Endpoint, ENDPOINT_IN, ENDPOINT_OUT};
pub use error::UsbError;
pub use os::linux::constants::{
    RECIPIENT_DEVICE, RECIPIENT_ENDPOINT, RECIPIENT_INTERFACE, RECIPIENT_OTHER, REQUEST_TYPE_CLASS,
    REQUEST_TYPE_STANDARD,
};
pub use os::linux::enumerate::UsbEnumerate;
pub use os::linux::usb_device::UsbDevice;
pub use os::linux::usbfs::UsbFs as UsbCore;
pub use usb_transfer::{BufferSlice, BulkTransfer, ControlTransfer, TransferKind, UsbCoreDriver};

verus! {

/// A timeout in milliseconds.
#[derive(Debug, Clone, Copy, PartialEq, Eq)]
pub struct TimeoutMillis(pub u32);

/// The whole milliseconds in a span of time, as `Duration::as_millis`
/// counts them.
pub uninterp spec fn duration_millis(duration: Duration) -> u128;

/// `Duration::as_millis`: the number of whole milliseconds in the span.
#[verifier::external_body]
fn as_millis(duration: &Duration) -> (ms: u128)
    ensures
        ms == duration_millis(*duration),
{
    duration.as_millis()
}

/// The low 32 bits of a count of milliseconds.
pub open spec fn low_32(ms: u128) -> u32 {
    (ms % 0x1_0000_0000) as u32
}

impl TimeoutMillis {
    /// The timeout in milliseconds.
    pub fn millis(&self) -> (ms: u32)
        ensures
            ms == self.0,
    {
        self.0
    }

    /// The timeout of `ms` milliseconds, cut down to the low 32 bits of the
    /// count.
    pub fn from_millis(ms: u128) -> (t: TimeoutMillis)
        ensures
            t == TimeoutMillis(low_32(ms)),
    {
        assert(ms as u32 == ms % 0x1_0000_0000) by (bit_vector);
        TimeoutMillis(ms as u32)
    }

    /// Whether a wait that has lasted `elapsed_nanos` nanoseconds has used
    /// up this timeout.
    pub open spec fn spec_expired(&self, elapsed_nanos: u128) -> bool {
        elapsed_nanos >= self.0 as int * 1_000_000
    }

    /// Whether a wait that has lasted `elapsed_nanos` nanoseconds has used
    /// up this timeout.
    #[verifier::when_used_as_spec(spec_expired)]
    pub fn expired(&self, elapsed_nanos: u128) -> (b: bool)
        ensures
            b == self.spec_expired(elapsed_nanos),
    {
        elapsed_nanos >= self.0 as u128 * 1_000_000
    }
}

impl TimeoutMillis {
    /// Lets a wait go on while the timeout is not used up, and ends it with
    /// [`UsbError::TimedOut`] once it is.
    pub fn check(&self, elapsed_nanos: u128) -> (r: Result<(), UsbError>)
        ensures
            r == if self.spec_expired(elapsed_nanos) {
                Err::<(), UsbError>(UsbError::TimedOut)
            } else {
                Ok::<(), UsbError>(())
            },
    {
        if self.expired(elapsed_nanos) {
            Err(UsbError::TimedOut)
        } else {
            Ok(())
        }
    }
}

impl From<u32> for TimeoutMillis {
    fn from(timeout_ms: u32) -> (t: TimeoutMillis) {
        TimeoutMillis(timeout_ms)
    }
}

impl FromSpecImpl<u32> for TimeoutMillis {
    open spec fn obeys_from_spec() -> bool {
        true
    }

    open spec fn from_spec(timeout_ms: u32) -> TimeoutMillis {
        TimeoutMillis(timeout_ms)
    }
}

impl From<Duration> for TimeoutMillis {
    /// The whole milliseconds of `duration`, cut down to 32 bits.
    fn from(duration: Duration) -> (t: TimeoutMillis) {
        TimeoutMillis::from_millis(as_millis(&duration))
    }
}

impl FromSpecImpl<Duration> for TimeoutMillis {
    open spec fn obeys_from_spec() -> bool {
        true
    }

    open spec fn from_spec(duration: Duration) -> TimeoutMillis {
        TimeoutMillis(low_32(duration_millis(duration)))
    }
}

} // verus!
