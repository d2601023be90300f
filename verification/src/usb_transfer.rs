//! Transfer buffers and the typed transfers built on them.
//!
//! A transfer owns a byte buffer of fixed capacity and keeps two lengths
//! beside it: how many bytes are filled, which is the length handed to the
//! kernel on submission, and how many bytes the kernel reported back on
//! completion. At all times `actual <= filled <= capacity`.
use crate::endpoint::{Endpoint, ENDPOINT_IN, ENDPOINT_OUT};
use crate::error::UsbError;
use vstd::prelude::*;
use vstd::slice::slice_subrange;

verus! {

/// Largest data stage of a control transfer, in bytes.
pub const CONTROL_MAX_PACKET_SIZE: u16 = 1024;

/// `buffer` with `data` laid over it from position `at` on.
pub open spec fn overlay(buffer: Seq<u8>, at: int, data: Seq<u8>) -> Seq<u8>
    recommends
        0 <= at,
        at + data.len() <= buffer.len(),
{
    buffer.take(at) + data + buffer.skip(at + data.len())
}

/// Copies `data` into `buffer` from position `at` on.
fn copy_into(buffer: &mut Vec<u8>, at: usize, data: &[u8])
    requires
        at + data@.len() <= old(buffer)@.len(),
    ensures
        final(buffer)@ == overlay(old(buffer)@, at as int, data@),
{
    let mut i: usize = 0;
    while i < data.len()
        invariant
            i <= data.len(),
            at + data.len() <= buffer.len(),
            buffer.len() == old(buffer).len(),
            buffer@ == overlay(old(buffer)@, at as int, data@.take(i as int)),
        decreases data@.len() - i,
    {
        buffer.set(at + i, data[i]);
        i += 1;
    }
}

/// What a [`BulkTransfer`] holds, as a mathematical value.
pub struct BulkTransferView {
    /// The whole buffer; its length is the capacity.
    pub buffer: Seq<u8>,
    /// How many bytes of the buffer are handed to the kernel.
    pub buffer_length: nat,
    /// How many bytes the kernel reported as transferred.
    pub actual_length: nat,
    /// The completion status reported by the kernel.
    pub status: i32,
    /// The endpoint the transfer is for.
    pub endpoint: Endpoint,
}

impl BulkTransferView {
    /// The length discipline: `actual <= filled <= capacity`.
    pub open spec fn wf(self) -> bool {
        self.actual_length <= self.buffer_length <= self.buffer.len()
    }

    /// A new IN transfer over `buffer`: the read window is the whole buffer.
    pub open spec fn input(ep: u8, buffer: Seq<u8>) -> BulkTransferView {
        BulkTransferView {
            buffer,
            buffer_length: buffer.len(),
            actual_length: 0,
            status: 0,
            endpoint: Endpoint::spec_bulk_in(ep),
        }
    }

    /// A new OUT transfer over `buffer`: nothing is filled yet.
    pub open spec fn output(ep: u8, buffer: Seq<u8>) -> BulkTransferView {
        BulkTransferView {
            buffer,
            buffer_length: 0,
            actual_length: 0,
            status: 0,
            endpoint: Endpoint::spec_bulk_out(ep),
        }
    }

    /// Whether `data` can be appended: the endpoint is not a bulk IN endpoint
    /// and `data` fits into what is left of the capacity.
    pub open spec fn can_write(self, data: Seq<u8>) -> bool {
        !self.endpoint.spec_is_bulk_in() && self.buffer_length + data.len() <= self.buffer.len()
    }

    /// The transfer after `data` was appended behind the filled bytes.
    pub open spec fn written(self, data: Seq<u8>) -> BulkTransferView {
        BulkTransferView {
            buffer: overlay(self.buffer, self.buffer_length as int, data),
            buffer_length: self.buffer_length + data.len(),
            ..self
        }
    }

    /// The transfer after an attempt to append `data`: a write that cannot
    /// be done changes nothing.
    pub open spec fn after_write(self, data: Seq<u8>) -> BulkTransferView {
        if self.can_write(data) {
            self.written(data)
        } else {
            self
        }
    }

    /// The transfer made ready for another submission: the completion
    /// length is cleared, and on an OUT endpoint the filled length too.
    pub open spec fn flushed(self) -> BulkTransferView {
        BulkTransferView {
            actual_length: 0,
            buffer_length: if self.endpoint.spec_is_bulk_out() {
                0
            } else {
                self.buffer_length
            },
            ..self
        }
    }

    /// The transfer with the kernel's completion report written into it.
    pub open spec fn completed(self, status: i32, actual_length: nat) -> BulkTransferView {
        BulkTransferView { status, actual_length, ..self }
    }

    /// The bytes that a completed transfer carries: on an IN endpoint what
    /// the kernel reported as received, else what was filled.
    pub open spec fn payload(self) -> Seq<u8> {
        if self.endpoint.spec_is_bulk_in() {
            self.buffer.take(self.actual_length as int)
        } else {
            self.buffer.take(self.buffer_length as int)
        }
    }
}

/// A transfer on a bulk endpoint.
#[derive(Debug)]
pub struct BulkTransfer {
    buffer: Vec<u8>,
    buffer_length: usize,
    actual_length: usize,
    status: i32,
    endpoint: Endpoint,
}

impl View for BulkTransfer {
    type V = BulkTransferView;

    closed spec fn view(&self) -> BulkTransferView {
        BulkTransferView {
            buffer: self.buffer@,
            buffer_length: self.buffer_length as nat,
            actual_length: self.actual_length as nat,
            status: self.status,
            endpoint: self.endpoint,
        }
    }
}

impl BulkTransfer {
    /// A transfer that reads from the IN endpoint numbered `ep % 16` into
    /// `buffer`. The read window spans the whole buffer.
    pub fn input(ep: u8, buffer: Vec<u8>) -> (t: Self)
        ensures
            t@ == BulkTransferView::input(ep, buffer@),
            t@.wf(),
    {
        let buffer_length = buffer.len();
        BulkTransfer {
            buffer,
            buffer_length,
            actual_length: 0,
            status: 0,
            endpoint: Endpoint::bulk_in(ep),
        }
    }

    /// A transfer that writes to the OUT endpoint numbered `ep % 16` from
    /// `buffer`. Nothing is filled yet: the payload is appended with
    /// [`BulkTransfer::write`].
    pub fn output(ep: u8, buffer: Vec<u8>) -> (t: Self)
        ensures
            t@ == BulkTransferView::output(ep, buffer@),
            t@.wf(),
    {
        BulkTransfer {
            buffer,
            buffer_length: 0,
            actual_length: 0,
            status: 0,
            endpoint: Endpoint::bulk_out(ep),
        }
    }

    /// The endpoint the transfer is for.
    pub fn endpoint(&self) -> (e: Endpoint)
        ensures
            e == self@.endpoint,
    {
        self.endpoint
    }

    /// How many bytes are handed to the kernel on submission.
    pub fn buffer_length(&self) -> (n: usize)
        ensures
            n == self@.buffer_length,
    {
        self.buffer_length
    }

    /// How many bytes the kernel reported as transferred.
    pub fn actual_length(&self) -> (n: usize)
        ensures
            n == self@.actual_length,
    {
        self.actual_length
    }

    /// The completion status reported by the kernel.
    pub fn status(&self) -> (s: i32)
        ensures
            s == self@.status,
    {
        self.status
    }

    /// The size of the buffer.
    pub fn buffer_capacity(&self) -> (n: usize)
        ensures
            n == self@.buffer.len(),
    {
        self.buffer.len()
    }

    /// The whole buffer.
    pub fn buffer(&self) -> (b: &[u8])
        ensures
            b@ == self@.buffer,
    {
        self.buffer.as_slice()
    }

    /// Appends `inbuf` behind the filled bytes and returns how many bytes
    /// were taken, which is all of them.
    ///
    /// Fails with [`UsbError::InvalidInput`], and changes nothing, on a bulk
    /// IN endpoint and where `inbuf` does not fit into the rest of the buffer.
    pub fn write(&mut self, inbuf: &[u8]) -> (r: Result<usize, UsbError>)
        requires
            old(self)@.wf(),
        ensures
            final(self)@.wf(),
            final(self)@ == old(self)@.after_write(inbuf@),
            old(self)@.can_write(inbuf@) ==> r == Ok::<usize, UsbError>(inbuf@.len() as usize),
            !old(self)@.can_write(inbuf@) ==> r == Err::<usize, UsbError>(UsbError::InvalidInput),
    {
        if self.endpoint.is_bulk_in() {
            return Err(UsbError::InvalidInput);
        }
        if inbuf.len() > self.buffer.len() - self.buffer_length {
            return Err(UsbError::InvalidInput);
        }
        copy_into(&mut self.buffer, self.buffer_length, inbuf);
        self.buffer_length = self.buffer_length + inbuf.len();
        Ok(inbuf.len())
    }

    /// Appends all of `buf`, or fails as [`BulkTransfer::write`] does. An
    /// empty `buf` is always accepted.
    pub fn write_all(&mut self, buf: &[u8]) -> (r: Result<(), UsbError>)
        requires
            old(self)@.wf(),
        ensures
            final(self)@.wf(),
            final(self)@ == old(self)@.after_write(buf@),
            r is Ok <==> (buf@.len() == 0 || old(self)@.can_write(buf@)),
            r is Err ==> r == Err::<(), UsbError>(UsbError::InvalidInput),
    {
        if buf.len() == 0 {
            assert(overlay(self@.buffer, self@.buffer_length as int, buf@) =~= self@.buffer);
            return Ok(());
        }
        match self.write(buf) {
            Ok(_) => Ok(()),
            Err(e) => Err(e),
        }
    }

    /// Makes a completed transfer ready for another submission: clears the
    /// completion length, and on an OUT endpoint the filled length too.
    pub fn flush(&mut self) -> (r: Result<(), UsbError>)
        requires
            old(self)@.wf(),
        ensures
            r is Ok,
            final(self)@ == old(self)@.flushed(),
            final(self)@.wf(),
    {
        self.actual_length = 0;
        if self.endpoint.is_bulk_out() {
            self.buffer_length = 0;
        }
        Ok(())
    }

    /// Takes over what the kernel left in the shared buffer: `data` is laid
    /// over the front of the buffer.
    ///
    /// Fails with [`UsbError::InvalidInput`], and changes nothing, where
    /// `data` is longer than the buffer.
    pub fn receive(&mut self, data: &[u8]) -> (r: Result<(), UsbError>)
        requires
            old(self)@.wf(),
        ensures
            final(self)@.wf(),
            data@.len() <= old(self)@.buffer.len() ==> r is Ok && final(self)@ == (BulkTransferView {
                buffer: overlay(old(self)@.buffer, 0, data@),
                ..old(self)@
            }),
            data@.len() > old(self)@.buffer.len() ==> r == Err::<(), UsbError>(UsbError::InvalidInput)
                && final(self)@ == old(self)@,
    {
        if data.len() > self.buffer.len() {
            return Err(UsbError::InvalidInput);
        }
        copy_into(&mut self.buffer, 0, data);
        Ok(())
    }

    /// Writes the kernel's completion report into the transfer.
    pub(crate) fn complete(&mut self, status: i32, actual_length: usize)
        requires
            old(self)@.wf(),
            actual_length <= old(self)@.buffer_length,
        ensures
            final(self)@ == old(self)@.completed(status, actual_length as nat),
            final(self)@.wf(),
    {
        self.status = status;
        self.actual_length = actual_length;
    }
}

/// The setup packet of a control transfer: request type, request, then
/// value, index and length of the data stage, each low byte first.
pub open spec fn setup_packet(request_type: u8, request: u8, value: u16, index: u16, length: u16) -> Seq<u8> {
    seq![
        request_type,
        request,
        (value % 256) as u8,
        (value / 256) as u8,
        (index % 256) as u8,
        (index / 256) as u8,
        (length % 256) as u8,
        (length / 256) as u8,
    ]
}

/// The low byte of a 16-bit value.
pub fn low_byte(v: u16) -> (b: u8)
    ensures
        b == v % 256,
{
    assert((v & 0x00FF) == v % 256) by (bit_vector);
    assert((v & 0x00FF) < 256) by (bit_vector);
    (v & 0x00FF) as u8
}

/// The high byte of a 16-bit value.
pub fn high_byte(v: u16) -> (b: u8)
    ensures
        b == v / 256,
{
    assert((v >> 8) == v / 256) by (bit_vector);
    assert((v >> 8) < 256) by (bit_vector);
    (v >> 8) as u8
}

/// What a [`ControlTransfer`] holds, as a mathematical value.
pub struct ControlTransferView {
    /// The whole buffer: the setup packet, then the data stage.
    pub buffer: Seq<u8>,
    /// How many bytes of the buffer are handed to the kernel.
    pub buffer_length: nat,
    /// How many bytes of the data stage the kernel reported as transferred.
    pub actual_length: nat,
    /// The completion status reported by the kernel.
    pub status: i32,
}

impl ControlTransferView {
    /// The length discipline: `actual <= filled <= capacity`, and the
    /// capacity fits 16 bits.
    pub open spec fn wf(self) -> bool {
        self.actual_length <= self.buffer_length <= self.buffer.len() <= u16::MAX
    }

    /// Whether the completion length lies within the filled data stage,
    /// behind the setup packet: it is zero, or with the eight bytes of the
    /// setup packet it is at most the filled length.
    pub open spec fn data_stage_fits(self) -> bool {
        self.actual_length == 0 || self.actual_length + 8 <= self.buffer_length
    }

    /// A new transfer for a request with a data stage of `length` bytes over
    /// `buffer`: the setup packet lies over the front of the buffer and is
    /// all that is filled.
    pub open spec fn with_setup(
        buffer: Seq<u8>,
        request_type: u8,
        request: u8,
        value: u16,
        index: u16,
        length: u16,
    ) -> ControlTransferView {
        ControlTransferView {
            buffer: overlay(buffer, 0, setup_packet(request_type, request, value, index, length)),
            buffer_length: 8,
            actual_length: 0,
            status: 0,
        }
    }

    /// A new transfer for a request with a data stage of `length` bytes: a
    /// zeroed buffer of `length + 8` bytes that starts with the setup packet,
    /// which is all that is filled.
    pub open spec fn request(request_type: u8, request: u8, value: u16, index: u16, length: u16) -> ControlTransferView {
        ControlTransferView {
            buffer: setup_packet(request_type, request, value, index, length) + Seq::new(
                length as nat,
                |i: int| 0u8,
            ),
            buffer_length: 8,
            actual_length: 0,
            status: 0,
        }
    }

    /// Whether `data` fits into what is left of the capacity.
    pub open spec fn can_write(self, data: Seq<u8>) -> bool {
        self.buffer_length + data.len() <= self.buffer.len()
    }

    /// The transfer after `data` was appended behind the filled bytes.
    pub open spec fn written(self, data: Seq<u8>) -> ControlTransferView {
        ControlTransferView {
            buffer: overlay(self.buffer, self.buffer_length as int, data),
            buffer_length: self.buffer_length + data.len(),
            ..self
        }
    }

    /// The transfer after an attempt to append `data`: a write that cannot
    /// be done changes nothing.
    pub open spec fn after_write(self, data: Seq<u8>) -> ControlTransferView {
        if self.can_write(data) {
            self.written(data)
        } else {
            self
        }
    }

    /// The transfer with the read window opened by `length` more bytes.
    pub open spec fn extended(self, length: nat) -> ControlTransferView {
        ControlTransferView { buffer_length: self.buffer_length + length, ..self }
    }

    /// The transfer made ready for another submission.
    pub open spec fn flushed(self) -> ControlTransferView {
        ControlTransferView { actual_length: 0, ..self }
    }

    /// The transfer with the kernel's completion report written into it.
    pub open spec fn completed(self, status: i32, actual_length: nat) -> ControlTransferView {
        ControlTransferView { status, actual_length, ..self }
    }

    /// The data stage that a completed transfer carries: the bytes behind
    /// the setup packet, as many as the kernel reported.
    pub open spec fn payload(self) -> Seq<u8> {
        if self.actual_length == 0 {
            Seq::empty()
        } else {
            self.buffer.subrange(8, 8 + self.actual_length as int)
        }
    }
}

/// A transfer on the control endpoint.
#[derive(Debug)]
pub struct ControlTransfer {
    buffer: Vec<u8>,
    buffer_length: u16,
    actual_length: u16,
    status: i32,
}

impl View for ControlTransfer {
    type V = ControlTransferView;

    closed spec fn view(&self) -> ControlTransferView {
        ControlTransferView {
            buffer: self.buffer@,
            buffer_length: self.buffer_length as nat,
            actual_length: self.actual_length as nat,
            status: self.status,
        }
    }
}

impl ControlTransfer {
    /// The transfer for a request with a data stage of `length` bytes, over
    /// a `buffer` of `length + 8` bytes: the setup packet is written to the
    /// front of the buffer and is all that is filled.
    ///
    /// Fails with [`UsbError::InvalidInput`] where the data stage is longer
    /// than [`CONTROL_MAX_PACKET_SIZE`] and where the buffer is of another
    /// size.
    pub fn with_setup(buffer: Vec<u8>, request_type: u8, request: u8, value: u16, index: u16, length: u16) -> (r:
        Result<Self, UsbError>)
        ensures
            length <= CONTROL_MAX_PACKET_SIZE && buffer@.len() == length + 8 ==> r is Ok && r->Ok_0@.wf()
                && r->Ok_0@ == ControlTransferView::with_setup(
                buffer@,
                request_type,
                request,
                value,
                index,
                length,
            ),
            length > CONTROL_MAX_PACKET_SIZE || buffer@.len() != length + 8 ==> r == Err::<Self, UsbError>(
                UsbError::InvalidInput,
            ),
    {
        if length > CONTROL_MAX_PACKET_SIZE || buffer.len() != length as usize + 8 {
            return Err(UsbError::InvalidInput);
        }
        let mut buffer = buffer;
        let header = setup_bytes(request_type, request, value, index, length);
        copy_into(&mut buffer, 0, header.as_slice());
        Ok(ControlTransfer { buffer, buffer_length: 8, actual_length: 0, status: 0 })
    }

    /// How many bytes are handed to the kernel on submission.
    pub fn buffer_length(&self) -> (n: u16)
        ensures
            n == self@.buffer_length,
    {
        self.buffer_length
    }

    /// How many bytes of the data stage the kernel reported as transferred.
    pub fn actual_length(&self) -> (n: u16)
        ensures
            n == self@.actual_length,
    {
        self.actual_length
    }

    /// The completion status reported by the kernel.
    pub fn status(&self) -> (s: i32)
        ensures
            s == self@.status,
    {
        self.status
    }

    /// The size of the buffer.
    pub fn buffer_capacity(&self) -> (n: u16)
        requires
            self@.wf(),
        ensures
            n == self@.buffer.len(),
    {
        self.buffer.len() as u16
    }

    /// The whole buffer: the setup packet, then the data stage.
    pub fn buffer(&self) -> (b: &[u8])
        ensures
            b@ == self@.buffer,
    {
        self.buffer.as_slice()
    }

    /// Appends `inbuf` behind the filled bytes and returns how many bytes
    /// were taken, which is all of them.
    ///
    /// Fails with [`UsbError::InvalidInput`], and changes nothing, where
    /// `inbuf` does not fit into the rest of the buffer.
    pub fn write(&mut self, inbuf: &[u8]) -> (r: Result<usize, UsbError>)
        requires
            old(self)@.wf(),
        ensures
            final(self)@.wf(),
            final(self)@ == old(self)@.after_write(inbuf@),
            old(self)@.can_write(inbuf@) ==> r == Ok::<usize, UsbError>(inbuf@.len() as usize),
            !old(self)@.can_write(inbuf@) ==> r == Err::<usize, UsbError>(UsbError::InvalidInput),
    {
        if inbuf.len() > self.buffer.len() - self.buffer_length as usize {
            return Err(UsbError::InvalidInput);
        }
        copy_into(&mut self.buffer, self.buffer_length as usize, inbuf);
        self.buffer_length = self.buffer_length + inbuf.len() as u16;
        Ok(inbuf.len())
    }

    /// Appends all of `buf`, or fails as [`ControlTransfer::write`] does.
    pub fn write_all(&mut self, buf: &[u8]) -> (r: Result<(), UsbError>)
        requires
            old(self)@.wf(),
        ensures
            final(self)@.wf(),
            final(self)@ == old(self)@.after_write(buf@),
            r is Ok <==> old(self)@.can_write(buf@),
            r is Err ==> r == Err::<(), UsbError>(UsbError::InvalidInput),
    {
        match self.write(buf) {
            Ok(_) => Ok(()),
            Err(e) => Err(e),
        }
    }

    /// Opens the read window by `length` more bytes, so that the kernel may
    /// fill them.
    pub fn extend(&mut self, length: u16) -> (r: Result<(), UsbError>)
        requires
            old(self)@.wf(),
        ensures
            final(self)@.wf(),
            old(self)@.buffer_length + length <= old(self)@.buffer.len() ==> r is Ok && final(self)@
                == old(self)@.extended(length as nat),
            old(self)@.buffer_length + length > old(self)@.buffer.len() ==> r == Err::<(), UsbError>(
                UsbError::InvalidInput,
            ) && final(self)@ == old(self)@,
    {
        if length as usize > self.buffer.len() - self.buffer_length as usize {
            return Err(UsbError::InvalidInput);
        }
        self.buffer_length = self.buffer_length + length;
        Ok(())
    }

    /// Makes a completed transfer ready for another submission: clears the
    /// completion length.
    pub fn flush(&mut self) -> (r: Result<(), UsbError>)
        requires
            old(self)@.wf(),
        ensures
            r is Ok,
            final(self)@ == old(self)@.flushed(),
            final(self)@.wf(),
    {
        self.actual_length = 0;
        Ok(())
    }

    /// Takes over what the kernel left in the shared buffer: `data` is laid
    /// over the front of the buffer.
    ///
    /// Fails with [`UsbError::InvalidInput`], and changes nothing, where
    /// `data` is longer than the buffer.
    pub fn receive(&mut self, data: &[u8]) -> (r: Result<(), UsbError>)
        requires
            old(self)@.wf(),
        ensures
            final(self)@.wf(),
            data@.len() <= old(self)@.buffer.len() ==> r is Ok && final(self)@ == (ControlTransferView {
                buffer: overlay(old(self)@.buffer, 0, data@),
                ..old(self)@
            }),
            data@.len() > old(self)@.buffer.len() ==> r == Err::<(), UsbError>(UsbError::InvalidInput)
                && final(self)@ == old(self)@,
    {
        if data.len() > self.buffer.len() {
            return Err(UsbError::InvalidInput);
        }
        copy_into(&mut self.buffer, 0, data);
        Ok(())
    }

    /// Whether the completion length lies within the filled data stage, so
    /// that [`BufferSlice::buffer_from_raw`] can hand the data stage out.
    pub fn data_stage_fits(&self) -> (b: bool)
        ensures
            b == self@.data_stage_fits(),
    {
        self.actual_length == 0 || self.actual_length as u32 + 8 <= self.buffer_length as u32
    }

    /// Writes the kernel's completion report into the transfer.
    pub(crate) fn complete(&mut self, status: i32, actual_length: u16)
        requires
            old(self)@.wf(),
            actual_length <= old(self)@.buffer_length,
        ensures
            final(self)@ == old(self)@.completed(status, actual_length as nat),
            final(self)@.wf(),
    {
        self.status = status;
        self.actual_length = actual_length;
    }
}

/// A completed transfer, by kind.
#[derive(Debug)]
pub enum TransferKind {
    Control(ControlTransfer),
    Bulk(BulkTransfer),
    /// A completion on an endpoint that is neither control nor bulk, or one
    /// whose transfer could not be recovered.
    Invalid(Endpoint),
}

/// What a [`TransferKind`] holds, as a mathematical value.
pub enum TransferKindView {
    Control(ControlTransferView),
    Bulk(BulkTransferView),
    Invalid(Endpoint),
}

impl TransferKindView {
    /// The length discipline of whichever transfer this is.
    pub open spec fn wf(self) -> bool {
        match self {
            TransferKindView::Control(c) => c.wf(),
            TransferKindView::Bulk(b) => b.wf(),
            TransferKindView::Invalid(_) => true,
        }
    }
}

impl View for TransferKind {
    type V = TransferKindView;

    open spec fn view(&self) -> TransferKindView {
        match self {
            TransferKind::Control(c) => TransferKindView::Control(c@),
            TransferKind::Bulk(b) => TransferKindView::Bulk(b@),
            TransferKind::Invalid(e) => TransferKindView::Invalid(*e),
        }
    }
}

/// Access to the bytes a completed transfer carries.
pub trait BufferSlice {
    /// Whether the transfer keeps its length discipline.
    spec fn carries(&self) -> bool;

    /// The bytes the transfer carries.
    spec fn payload(&self) -> Seq<u8>;

    /// The bytes the transfer carries, as a slice of its buffer.
    fn buffer_from_raw(&self) -> (s: &[u8])
        requires
            self.carries(),
        ensures
            s@ == self.payload(),
    ;
}

impl BufferSlice for BulkTransfer {
    open spec fn carries(&self) -> bool {
        self@.wf()
    }

    open spec fn payload(&self) -> Seq<u8> {
        self@.payload()
    }

    /// What was received on an IN endpoint, else what was filled.
    fn buffer_from_raw(&self) -> (s: &[u8]) {
        if self.endpoint.is_bulk_in() {
            slice_subrange(self.buffer.as_slice(), 0, self.actual_length)
        } else {
            slice_subrange(self.buffer.as_slice(), 0, self.buffer_length)
        }
    }
}

impl BufferSlice for ControlTransfer {
    /// The transfer keeps its length discipline, and its completion length
    /// lies within the filled data stage.
    open spec fn carries(&self) -> bool {
        self@.wf() && self@.data_stage_fits()
    }

    open spec fn payload(&self) -> Seq<u8> {
        self@.payload()
    }

    /// The received data stage, behind the setup packet.
    fn buffer_from_raw(&self) -> (s: &[u8]) {
        if self.actual_length == 0 {
            let s = slice_subrange(self.buffer.as_slice(), 0, 0);
            return s;
        }
        slice_subrange(self.buffer.as_slice(), 8, 8 + self.actual_length as usize)
    }
}

/// A buffer of `n` zero bytes.
pub open spec fn zeroed(n: nat) -> Seq<u8> {
    Seq::new(n, |i: int| 0u8)
}

/// Allocates a buffer of `len` zero bytes, or fails with
/// [`UsbError::OutOfMemory`] where the host has no memory for it.
pub fn zeroed_buffer(len: usize) -> (r: Result<Vec<u8>, UsbError>)
    ensures
        r matches Ok(buffer) ==> buffer@ == zeroed(len as nat),
        r matches Err(e) ==> e == UsbError::OutOfMemory,
{
    let mut buffer: Vec<u8> = Vec::new();
    if buffer.try_reserve(len).is_err() {
        return Err(UsbError::OutOfMemory);
    }
    buffer.resize(len, 0);
    assert(buffer@ =~= zeroed(len as nat));
    Ok(buffer)
}

/// The setup packet as bytes.
pub fn setup_bytes(request_type: u8, request: u8, value: u16, index: u16, length: u16) -> (v: Vec<u8>)
    ensures
        v@ == setup_packet(request_type, request, value, index, length),
{
    let mut v: Vec<u8> = Vec::new();
    v.push(request_type);
    v.push(request);
    v.push(low_byte(value));
    v.push(high_byte(value));
    v.push(low_byte(index));
    v.push(high_byte(index));
    v.push(low_byte(length));
    v.push(high_byte(length));
    v
}

/// What a device handle offers to make transfers: the three allocators, and
/// the forms of control transfer that are built on them.
pub trait UsbCoreDriver {
    /// What making a transfer leaves in place: whether the handle, after
    /// it made one, is still what it was `before`.
    spec fn untouched(&self, before: &Self) -> bool;

    /// A transfer that reads up to `read_capacity` bytes from the IN
    /// endpoint numbered `ep % 16`, over a zeroed buffer of that size.
    ///
    /// Fails with [`UsbError::OutOfMemory`] where no buffer can be had.
    fn new_bulk_in(&mut self, ep: u8, read_capacity: usize) -> (r: Result<BulkTransfer, UsbError>)
        ensures
            final(self).untouched(old(self)),
            r matches Ok(t) ==> t@ == BulkTransferView::input(ep, zeroed(read_capacity as nat)) && t@.wf(),
            r matches Err(e) ==> e == UsbError::OutOfMemory,
    ;

    /// A transfer that writes up to `capacity` bytes to the OUT endpoint
    /// numbered `ep % 16`, over a zeroed buffer of that size.
    ///
    /// Fails with [`UsbError::OutOfMemory`] where no buffer can be had.
    fn new_bulk_out(&mut self, ep: u8, capacity: usize) -> (r: Result<BulkTransfer, UsbError>)
        ensures
            final(self).untouched(old(self)),
            r matches Ok(t) ==> t@ == BulkTransferView::output(ep, zeroed(capacity as nat)) && t@.wf(),
            r matches Err(e) ==> e == UsbError::OutOfMemory,
    ;

    /// A control transfer with a data stage of `length` bytes: the buffer
    /// holds `length + 8` bytes and starts with the setup packet, which is
    /// all that is filled.
    ///
    /// A data stage of more than [`CONTROL_MAX_PACKET_SIZE`] bytes is refused
    /// with [`UsbError::InvalidInput`]; where no buffer can be had the
    /// error is [`UsbError::OutOfMemory`].
    fn new_control(&mut self, request_type: u8, request: u8, value: u16, index: u16, length: u16) -> (r: Result<
        ControlTransfer,
        UsbError,
    >)
        ensures
            final(self).untouched(old(self)),
            length > CONTROL_MAX_PACKET_SIZE ==> r == Err::<ControlTransfer, UsbError>(UsbError::InvalidInput),
            r matches Ok(t) ==> length <= CONTROL_MAX_PACKET_SIZE && t@.wf() && t@
                == ControlTransferView::request(request_type, request, value, index, length),
            r matches Err(e) ==> e == UsbError::InvalidInput && length > CONTROL_MAX_PACKET_SIZE
                || e == UsbError::OutOfMemory && length <= CONTROL_MAX_PACKET_SIZE,
    ;

    /// A control transfer towards the device that carries `buffer` as its
    /// data stage: the payload follows the setup packet and all of it is
    /// filled.
    fn new_control_out(&mut self, request_type: u8, request: u8, value: u16, index: u16, buffer: &[u8]) -> (r: Result<
        ControlTransfer,
        UsbError,
    >)
        ensures
            final(self).untouched(old(self)),
            buffer@.len() > CONTROL_MAX_PACKET_SIZE ==> r == Err::<ControlTransfer, UsbError>(
                UsbError::InvalidInput,
            ),
            r matches Ok(t) ==> buffer@.len() <= CONTROL_MAX_PACKET_SIZE && t@.wf() && t@
                == ControlTransferView::request(
                request_type | ENDPOINT_OUT,
                request,
                value,
                index,
                buffer@.len() as u16,
            ).written(buffer@),
            r matches Err(e) ==> e == UsbError::InvalidInput && buffer@.len() > CONTROL_MAX_PACKET_SIZE
                || e == UsbError::OutOfMemory && buffer@.len() <= CONTROL_MAX_PACKET_SIZE,
    {
        // A payload beyond the bound is refused by `new_control`, as every
        // data stage beyond the bound is.
        let length: u16 = if buffer.len() > CONTROL_MAX_PACKET_SIZE as usize {
            u16::MAX
        } else {
            buffer.len() as u16
        };
        let mut ctrl = self.new_control(request_type | ENDPOINT_OUT, request, value, index, length)?;
        ctrl.write_all(buffer)?;
        Ok(ctrl)
    }

    /// A control transfer that reads `length` bytes from the device: the
    /// read window behind the setup packet spans the whole data stage.
    fn new_control_in(&mut self, request_type: u8, request: u8, value: u16, index: u16, length: u16) -> (r: Result<
        ControlTransfer,
        UsbError,
    >)
        ensures
            final(self).untouched(old(self)),
            length > CONTROL_MAX_PACKET_SIZE ==> r == Err::<ControlTransfer, UsbError>(UsbError::InvalidInput),
            r matches Ok(t) ==> length <= CONTROL_MAX_PACKET_SIZE && t@.wf() && t@
                == ControlTransferView::request(
                request_type | ENDPOINT_IN,
                request,
                value,
                index,
                length,
            ).extended(length as nat),
            r matches Err(e) ==> e == UsbError::InvalidInput && length > CONTROL_MAX_PACKET_SIZE
                || e == UsbError::OutOfMemory && length <= CONTROL_MAX_PACKET_SIZE,
    {
        let mut ctrl = self.new_control(request_type | ENDPOINT_IN, request, value, index, length)?;
        ctrl.extend(length)?;
        Ok(ctrl)
    }

    /// A control transfer without a data stage.
    fn new_control_nodata(&mut self, request_type: u8, request: u8, value: u16, index: u16) -> (r: Result<
        ControlTransfer,
        UsbError,
    >)
        ensures
            final(self).untouched(old(self)),
            r matches Ok(t) ==> t@.wf() && t@ == ControlTransferView::request(request_type, request, value, index, 0),
            r matches Err(e) ==> e == UsbError::OutOfMemory,
    {
        self.new_control(request_type, request, value, index, 0)
    }
}

impl BulkTransferView {
    /// The transfer after the attempts to append each of `writes`, in order.
    pub open spec fn after_writes(self, writes: Seq<Seq<u8>>) -> BulkTransferView
        decreases writes.len(),
    {
        if writes.len() == 0 {
            self
        } else {
            self.after_write(writes[0]).after_writes(writes.skip(1))
        }
    }

    /// Whatever is written, and in whatever order, a transfer that keeps its
    /// length discipline goes on keeping it: `actual <= filled <= capacity`,
    /// and the capacity stays what it was.
    pub proof fn lemma_writes_keep_discipline(self, writes: Seq<Seq<u8>>)
        requires
            self.wf(),
        ensures
            self.after_writes(writes).wf(),
            self.after_writes(writes).buffer.len() == self.buffer.len(),
            self.after_writes(writes).actual_length == self.actual_length,
        decreases writes.len(),
    {
        if writes.len() > 0 {
            self.after_write(writes[0]).lemma_writes_keep_discipline(writes.skip(1));
        }
    }

    /// A write that would go past the capacity cannot be done.
    pub proof fn lemma_write_past_capacity(self, data: Seq<u8>)
        requires
            self.buffer_length + data.len() > self.buffer.len(),
        ensures
            !self.can_write(data),
            self.after_write(data) == self,
    {
    }
}

impl ControlTransferView {
    /// The transfer after the attempts to append each of `writes`, in order.
    pub open spec fn after_writes(self, writes: Seq<Seq<u8>>) -> ControlTransferView
        decreases writes.len(),
    {
        if writes.len() == 0 {
            self
        } else {
            self.after_write(writes[0]).after_writes(writes.skip(1))
        }
    }

    /// Whatever is written, and in whatever order, a transfer that keeps its
    /// length discipline goes on keeping it: `actual <= filled <= capacity`,
    /// and the capacity stays what it was.
    pub proof fn lemma_writes_keep_discipline(self, writes: Seq<Seq<u8>>)
        requires
            self.wf(),
        ensures
            self.after_writes(writes).wf(),
            self.after_writes(writes).actual_length <= self.after_writes(writes).buffer_length
                <= self.after_writes(writes).buffer.len(),
            self.after_writes(writes).buffer.len() == self.buffer.len(),
        decreases writes.len(),
    {
        if writes.len() > 0 {
            self.after_write(writes[0]).lemma_writes_keep_discipline(writes.skip(1));
        }
    }

    /// A write that would go past the capacity cannot be done.
    pub proof fn lemma_write_past_capacity(self, data: Seq<u8>)
        requires
            self.buffer_length + data.len() > self.buffer.len(),
        ensures
            !self.can_write(data),
            self.after_write(data) == self,
    {
    }

    /// Over a zeroed buffer of the right size the setup packet gives the
    /// transfer of the request.
    pub proof fn lemma_with_setup_zeroed(request_type: u8, request: u8, value: u16, index: u16, length: u16)
        ensures
            Self::with_setup(zeroed((length + 8) as nat), request_type, request, value, index, length)
                == Self::request(request_type, request, value, index, length),
    {
        assert(Self::with_setup(zeroed((length + 8) as nat), request_type, request, value, index, length).buffer
            =~= Self::request(request_type, request, value, index, length).buffer);
    }

    /// The layout of a new control transfer: the first eight bytes of its
    /// buffer are the request type, the request, and the low and the high
    /// byte of the value, of the index and of the length, in this order.
    /// Those eight bytes are all that is filled, and `length` more bytes
    /// follow them.
    pub proof fn lemma_request_layout(request_type: u8, request: u8, value: u16, index: u16, length: u16)
        ensures
            Self::request(request_type, request, value, index, length).buffer.subrange(0, 8) == seq![
                request_type,
                request,
                (value & 0xFF) as u8,
                (value >> 8) as u8,
                (index & 0xFF) as u8,
                (index >> 8) as u8,
                (length & 0xFF) as u8,
                (length >> 8) as u8,
            ],
            Self::request(request_type, request, value, index, length).buffer_length == 8,
            Self::request(request_type, request, value, index, length).buffer.len() == length + 8,
            Self::request(request_type, request, value, index, length).actual_length == 0,
            length <= CONTROL_MAX_PACKET_SIZE ==> Self::request(request_type, request, value, index, length).wf(),
    {
        lemma_bytes_of(value);
        lemma_bytes_of(index);
        lemma_bytes_of(length);
        assert(Self::request(request_type, request, value, index, length).buffer.subrange(0, 8) =~= seq![
            request_type,
            request,
            (value & 0xFF) as u8,
            (value >> 8) as u8,
            (index & 0xFF) as u8,
            (index >> 8) as u8,
            (length & 0xFF) as u8,
            (length >> 8) as u8,
        ]);
    }
}

/// What the direction bit does to a request type: the bit of OUT leaves the
/// type as it is, and the bit of IN sets bit 7 and leaves the other bits.
pub proof fn lemma_direction_of_request(request_type: u8)
    ensures
        request_type | ENDPOINT_OUT == request_type,
        (request_type | ENDPOINT_IN) >= 128,
        (request_type | ENDPOINT_IN) % 128 == request_type % 128,
{
    assert(request_type | 0x00u8 == request_type) by (bit_vector);
    assert((request_type | 0x80u8) >= 128) by (bit_vector);
    assert((request_type | 0x80u8) % 128 == request_type % 128) by (bit_vector);
}

/// Masking and shifting pick the same bytes of a 16-bit value as remainder
/// and quotient by 256 do.
pub proof fn lemma_bytes_of(v: u16)
    ensures
        (v & 0xFF) as u8 == (v % 256) as u8,
        (v >> 8) as u8 == (v / 256) as u8,
{
    assert((v & 0xFF) as u8 == (v % 256) as u8) by (bit_vector);
    assert((v >> 8) as u8 == (v / 256) as u8) by (bit_vector);
}

} // verus!
