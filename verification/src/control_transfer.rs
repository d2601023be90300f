//! The request of a blocking control transfer.
use crate::TimeoutMillis;
use vstd::prelude::*;

verus! {

/// A control request for the blocking control ioctl: the fields of the setup
/// packet, how long the kernel may wait, and the data stage of a request
/// towards the device.
#[derive(Clone, Debug)]
pub struct ControlTransfer {
    pub request_type: u8,
    pub request: u8,
    pub value: u16,
    pub index: u16,
    pub buffer_length: u16,
    pub timeout: TimeoutMillis,
    pub buffer: Option<Vec<u8>>,
}

impl ControlTransfer {
    /// A request without a data stage.
    pub fn new_nodata(request_type: u8, request: u8, value: u16, index: u16, timeout: TimeoutMillis) -> (t: Self)
        ensures
            t.request_type == request_type,
            t.request == request,
            t.value == value,
            t.index == index,
            t.buffer_length == 0,
            t.timeout == timeout,
            t.buffer is None,
    {
        ControlTransfer { request_type, request, value, index, buffer_length: 0, buffer: None, timeout }
    }

    /// A request that reads `buffer_length` bytes from the device.
    pub fn new_read(
        request_type: u8,
        request: u8,
        value: u16,
        index: u16,
        buffer_length: u16,
        timeout: TimeoutMillis,
    ) -> (t: Self)
        ensures
            t.request_type == request_type,
            t.request == request,
            t.value == value,
            t.index == index,
            t.buffer_length == buffer_length,
            t.timeout == timeout,
            t.buffer is None,
    {
        ControlTransfer { request_type, request, value, index, buffer_length, buffer: None, timeout }
    }

    /// A request that sends `v` to the device. The length of the data stage
    /// is the length of `v`, cut down to 16 bits as the setup packet's field
    /// is.
    pub fn new_with_data(request_type: u8, request: u8, value: u16, index: u16, v: Vec<u8>, timeout: TimeoutMillis) -> (t:
        Self)
        ensures
            t.request_type == request_type,
            t.request == request,
            t.value == value,
            t.index == index,
            t.buffer_length == v@.len() % 0x1_0000,
            t.timeout == timeout,
            t.buffer is Some,
            t.buffer->0@ == v@,
    {
        let n = v.len();
        assert(n as u16 == n % 0x1_0000) by (bit_vector);
        ControlTransfer { request_type, request, value, index, buffer_length: n as u16, buffer: Some(v), timeout }
    }
}

} // verus!
