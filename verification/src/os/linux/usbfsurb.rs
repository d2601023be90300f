//! The URB record: one asynchronous request as the kernel sees it.
//!
//! A URB is made from a transfer and owns it from submission to completion;
//! nothing else can reach the transfer while the kernel works on it. The
//! kernel fills in `status` and `actual_length`; turning a completed URB back
//! into its transfer checks that the record still fits the transfer it owns.
use super::constants::{USBFS_URB_TYPE_BULK, USBFS_URB_TYPE_CONTROL};
use crate::endpoint::Endpoint;
use crate::error::UsbError;
use crate::usb_transfer::{
    overlay, BulkTransfer, BulkTransferView, ControlTransfer, ControlTransferView,
};
use vstd::prelude::*;
use vstd::std_specs::convert::FromSpecImpl;

verus! {

/// The transfer a URB owns while it is with the kernel.
#[derive(Debug)]
pub enum UserContext {
    Bulk(BulkTransfer),
    Control(ControlTransfer),
}

/// What a [`UserContext`] holds, as a mathematical value.
pub enum UserContextView {
    Bulk(BulkTransferView),
    Control(ControlTransferView),
}

impl UserContextView {
    /// The length discipline of the transfer.
    pub open spec fn wf(self) -> bool {
        match self {
            UserContextView::Bulk(b) => b.wf(),
            UserContextView::Control(c) => c.wf(),
        }
    }

    /// The buffer of the transfer.
    pub open spec fn buffer(self) -> Seq<u8> {
        match self {
            UserContextView::Bulk(b) => b.buffer,
            UserContextView::Control(c) => c.buffer,
        }
    }

    /// The same transfer over another buffer.
    pub open spec fn with_buffer(self, buffer: Seq<u8>) -> UserContextView {
        match self {
            UserContextView::Bulk(b) => UserContextView::Bulk(BulkTransferView { buffer, ..b }),
            UserContextView::Control(c) => UserContextView::Control(ControlTransferView { buffer, ..c }),
        }
    }
}

impl UserContext {
    /// The whole buffer of the transfer.
    pub fn buffer(&self) -> (b: &[u8])
        ensures
            b@ == self@.buffer(),
    {
        match self {
            UserContext::Bulk(t) => t.buffer(),
            UserContext::Control(t) => t.buffer(),
        }
    }

    /// Lays `data` over the front of the transfer's buffer, or fails with
    /// [`UsbError::InvalidInput`] where it is longer than the buffer.
    pub fn receive(&mut self, data: &[u8]) -> (r: Result<(), UsbError>)
        requires
            old(self)@.wf(),
        ensures
            final(self)@.wf(),
            data@.len() <= old(self)@.buffer().len() ==> r is Ok && final(self)@ == old(self)@.with_buffer(
                overlay(old(self)@.buffer(), 0, data@),
            ),
            data@.len() > old(self)@.buffer().len() ==> r == Err::<(), UsbError>(UsbError::InvalidInput)
                && final(self)@ == old(self)@,
    {
        match self {
            UserContext::Bulk(t) => t.receive(data),
            UserContext::Control(t) => t.receive(data),
        }
    }
}

impl View for UserContext {
    type V = UserContextView;

    open spec fn view(&self) -> UserContextView {
        match self {
            UserContext::Bulk(b) => UserContextView::Bulk(b@),
            UserContext::Control(c) => UserContextView::Control(c@),
        }
    }
}

/// A USB request block.
#[derive(Debug)]
pub struct UsbFsUrb {
    typ: u8,
    endpoint: u8,
    status: i32,
    flags: u32,
    buffer_length: i32,
    actual_length: i32,
    start_frame: i32,
    stream_id: i32,
    error_count: i32,
    signr: u32,
    usercontext: Option<Box<UserContext>>,
}

/// What a [`UsbFsUrb`] holds, as a mathematical value.
pub struct UsbFsUrbView {
    pub typ: u8,
    pub endpoint: u8,
    pub status: i32,
    pub flags: u32,
    pub buffer_length: i32,
    pub actual_length: i32,
    pub start_frame: i32,
    pub stream_id: i32,
    pub error_count: i32,
    pub signr: u32,
    pub usercontext: Option<UserContextView>,
}

impl UsbFsUrbView {
    /// A fresh URB: everything the kernel writes is zero.
    pub open spec fn new(typ: u8, ep: Endpoint, length: usize, user: Option<UserContextView>) -> UsbFsUrbView {
        UsbFsUrbView {
            typ,
            endpoint: ep@,
            status: 0,
            flags: 0,
            buffer_length: length as i32,
            actual_length: 0,
            start_frame: 0,
            stream_id: 0,
            error_count: 0,
            signr: 0,
            usercontext: user,
        }
    }

    /// The URB that submits the bulk transfer `bulk`.
    pub open spec fn for_bulk(bulk: BulkTransferView) -> UsbFsUrbView {
        Self::new(
            USBFS_URB_TYPE_BULK,
            bulk.endpoint,
            bulk.buffer_length as usize,
            Some(UserContextView::Bulk(bulk)),
        )
    }

    /// The URB that submits the control transfer `ctrl`.
    pub open spec fn for_control(ctrl: ControlTransferView) -> UsbFsUrbView {
        Self::new(
            USBFS_URB_TYPE_CONTROL,
            Endpoint::spec_new(0),
            ctrl.buffer_length as usize,
            Some(UserContextView::Control(ctrl)),
        )
    }

    /// The transfer that the URB owns keeps its length discipline.
    pub open spec fn wf(self) -> bool {
        self.usercontext matches Some(c) ==> c.wf()
    }

    /// The URB as the kernel hands it back: with a status and a completion
    /// length written into it.
    pub open spec fn reaped(self, status: i32, actual_length: i32) -> UsbFsUrbView {
        UsbFsUrbView { status, actual_length, ..self }
    }

    /// The bulk transfer that a completed URB gives back.
    ///
    /// The URB must name a bulk endpoint and own a bulk transfer for that
    /// very endpoint; its length must be the transfer's filled length, and
    /// the completion length must lie within it. Then the transfer comes
    /// back with the status and the completion length of the URB; in every
    /// other case the URB is refused with [`UsbError::InvalidInput`].
    pub open spec fn bulk(self) -> Result<BulkTransferView, UsbError> {
        match self.usercontext {
            Some(UserContextView::Bulk(b)) => if Endpoint::spec_new(self.endpoint).spec_is_bulk()
                && b.endpoint@ == self.endpoint && self.buffer_length == b.buffer_length && 0
                <= self.actual_length <= b.buffer_length {
                Ok(b.completed(self.status, self.actual_length as nat))
            } else {
                Err(UsbError::InvalidInput)
            },
            _ => Err(UsbError::InvalidInput),
        }
    }

    /// The control transfer that a completed URB gives back.
    ///
    /// The URB must name the control endpoint and own a control transfer;
    /// its length must be the transfer's filled length, and the completion
    /// length must lie within it. Then the transfer comes back with the
    /// status and the completion length of the URB; in every other case the
    /// URB is refused with [`UsbError::InvalidInput`].
    pub open spec fn control(self) -> Result<ControlTransferView, UsbError> {
        match self.usercontext {
            Some(UserContextView::Control(c)) => if self.endpoint == 0 && self.buffer_length == c.buffer_length
                && 0 <= self.actual_length <= c.buffer_length {
                Ok(c.completed(self.status, self.actual_length as nat))
            } else {
                Err(UsbError::InvalidInput)
            },
            _ => Err(UsbError::InvalidInput),
        }
    }
}

impl View for UsbFsUrb {
    type V = UsbFsUrbView;

    closed spec fn view(&self) -> UsbFsUrbView {
        UsbFsUrbView {
            typ: self.typ,
            endpoint: self.endpoint,
            status: self.status,
            flags: self.flags,
            buffer_length: self.buffer_length,
            actual_length: self.actual_length,
            start_frame: self.start_frame,
            stream_id: self.stream_id,
            error_count: self.error_count,
            signr: self.signr,
            usercontext: match self.usercontext {
                Some(c) => Some(c@),
                None => None,
            },
        }
    }
}

impl UsbFsUrb {
    /// A fresh URB of type `typ` for endpoint `ep`, over `length` bytes of
    /// the buffer of the transfer `user` that it takes ownership of. A
    /// length beyond the 32-bit range is truncated as the kernel's field is.
    pub fn new(typ: u8, ep: Endpoint, length: usize, user: Option<UserContext>) -> (urb: Self)
        ensures
            urb@ == UsbFsUrbView::new(
                typ,
                ep,
                length,
                match user {
                    Some(c) => Some(c@),
                    None => None,
                },
            ),
    {
        UsbFsUrb {
            typ,
            endpoint: ep.address(),
            status: 0,
            flags: 0,
            buffer_length: length as i32,
            actual_length: 0,
            start_frame: 0,
            stream_id: 0,
            error_count: 0,
            signr: 0,
            usercontext: match user {
                Some(c) => Some(Box::new(c)),
                None => None,
            },
        }
    }

    /// Sets the length handed to the kernel and clears the completion
    /// length.
    pub fn set_length(&mut self, length: usize)
        ensures
            final(self)@ == (UsbFsUrbView {
                actual_length: 0,
                buffer_length: length as i32,
                ..old(self)@
            }),
    {
        self.actual_length = 0;
        self.buffer_length = length as i32;
    }

    /// Writes the kernel's completion report into the URB.
    pub fn complete(&mut self, status: i32, actual_length: i32)
        ensures
            final(self)@ == old(self)@.reaped(status, actual_length),
    {
        self.status = status;
        self.actual_length = actual_length;
    }

    /// The address byte of the endpoint.
    pub fn endpoint(&self) -> (e: u8)
        ensures
            e == self@.endpoint,
    {
        self.endpoint
    }

    /// The completion status written by the kernel.
    pub fn status(&self) -> (s: i32)
        ensures
            s == self@.status,
    {
        self.status
    }

    /// How many bytes of the buffer are handed to the kernel.
    pub fn buffer_length(&self) -> (n: i32)
        ensures
            n == self@.buffer_length,
    {
        self.buffer_length
    }

    /// The completion length written by the kernel.
    pub fn actual_length(&self) -> (n: i32)
        ensures
            n == self@.actual_length,
    {
        self.actual_length
    }

    /// The transfer type tag.
    pub fn typ(&self) -> (t: u8)
        ensures
            t == self@.typ,
    {
        self.typ
    }

    /// The URB flags.
    pub fn flags(&self) -> (f: u32)
        ensures
            f == self@.flags,
    {
        self.flags
    }

    /// The start frame (isochronous transfers only).
    pub fn start_frame(&self) -> (f: i32)
        ensures
            f == self@.start_frame,
    {
        self.start_frame
    }

    /// The stream id, which shares its place with the number of packets.
    pub fn stream_id(&self) -> (s: i32)
        ensures
            s == self@.stream_id,
    {
        self.stream_id
    }

    /// The error count.
    pub fn error_count(&self) -> (n: i32)
        ensures
            n == self@.error_count,
    {
        self.error_count
    }

    /// The signal raised on completion; zero for none.
    pub fn signr(&self) -> (n: u32)
        ensures
            n == self@.signr,
    {
        self.signr
    }

    /// The buffer that the kernel works on: that of the transfer the URB
    /// owns. `None` where it owns no transfer.
    pub fn buffer(&self) -> (b: Option<&[u8]>)
        ensures
            match self@.usercontext {
                Some(c) => b is Some && b->0@ == c.buffer(),
                None => b is None,
            },
    {
        match &self.usercontext {
            Some(c) => Some(c.buffer()),
            None => None,
        }
    }

    /// Takes over what the kernel left in the shared buffer: `data` is laid
    /// over the front of the buffer of the transfer that the URB owns.
    ///
    /// Fails with [`UsbError::InvalidInput`], and changes nothing, where the
    /// URB owns no transfer or `data` is longer than the buffer.
    pub fn receive(&mut self, data: &[u8]) -> (r: Result<(), UsbError>)
        requires
            old(self)@.wf(),
        ensures
            final(self)@.wf(),
            match old(self)@.usercontext {
                Some(c) => if data@.len() <= c.buffer().len() {
                    r is Ok && final(self)@ == (UsbFsUrbView {
                        usercontext: Some(c.with_buffer(overlay(c.buffer(), 0, data@))),
                        ..old(self)@
                    })
                } else {
                    r == Err::<(), UsbError>(UsbError::InvalidInput) && final(self)@ == old(self)@
                },
                None => r == Err::<(), UsbError>(UsbError::InvalidInput) && final(self)@ == old(self)@,
            },
    {
        match &mut self.usercontext {
            Some(c) => c.receive(data),
            None => Err(UsbError::InvalidInput),
        }
    }

    /// Whether the URB owns a transfer.
    pub fn has_usercontext(&self) -> (b: bool)
        ensures
            b == self@.usercontext is Some,
    {
        self.usercontext.is_some()
    }
}

impl From<BulkTransfer> for UsbFsUrb {
    /// The URB that submits `bulk`: type bulk, the endpoint of the
    /// transfer, and as many bytes as the transfer has filled.
    fn from(bulk: BulkTransfer) -> (urb: UsbFsUrb)
        ensures
            urb@ == UsbFsUrbView::for_bulk(bulk@),
    {
        UsbFsUrb {
            typ: USBFS_URB_TYPE_BULK,
            endpoint: bulk.endpoint().address(),
            status: 0,
            flags: 0,
            buffer_length: bulk.buffer_length() as i32,
            actual_length: 0,
            start_frame: 0,
            stream_id: 0,
            error_count: 0,
            signr: 0,
            usercontext: Some(Box::new(UserContext::Bulk(bulk))),
        }
    }
}

impl FromSpecImpl<BulkTransfer> for UsbFsUrb {
    open spec fn obeys_from_spec() -> bool {
        true
    }

    closed spec fn from_spec(v: BulkTransfer) -> UsbFsUrb {
        UsbFsUrb {
            typ: USBFS_URB_TYPE_BULK,
            endpoint: v@.endpoint@,
            status: 0,
            flags: 0,
            buffer_length: v@.buffer_length as usize as i32,
            actual_length: 0,
            start_frame: 0,
            stream_id: 0,
            error_count: 0,
            signr: 0,
            usercontext: Some(Box::new(UserContext::Bulk(v))),
        }
    }
}

impl From<ControlTransfer> for UsbFsUrb {
    /// The URB that submits `ctrl`: type control, endpoint zero, and as many
    /// bytes as the transfer has filled.
    fn from(ctrl: ControlTransfer) -> (urb: UsbFsUrb)
        ensures
            urb@ == UsbFsUrbView::for_control(ctrl@),
    {
        UsbFsUrb {
            typ: USBFS_URB_TYPE_CONTROL,
            endpoint: 0,
            status: 0,
            flags: 0,
            buffer_length: ctrl.buffer_length() as usize as i32,
            actual_length: 0,
            start_frame: 0,
            stream_id: 0,
            error_count: 0,
            signr: 0,
            usercontext: Some(Box::new(UserContext::Control(ctrl))),
        }
    }
}

impl FromSpecImpl<ControlTransfer> for UsbFsUrb {
    open spec fn obeys_from_spec() -> bool {
        true
    }

    closed spec fn from_spec(v: ControlTransfer) -> UsbFsUrb {
        UsbFsUrb {
            typ: USBFS_URB_TYPE_CONTROL,
            endpoint: 0,
            status: 0,
            flags: 0,
            buffer_length: v@.buffer_length as usize as i32,
            actual_length: 0,
            start_frame: 0,
            stream_id: 0,
            error_count: 0,
            signr: 0,
            usercontext: Some(Box::new(UserContext::Control(v))),
        }
    }
}

/// Gives back the bulk transfer that a completed URB owns, with the status
/// and the completion length that the kernel wrote into the URB.
///
/// Fails with [`UsbError::InvalidInput`] where the URB does not fit the
/// transfer, as [`UsbFsUrbView::bulk`] says.
pub fn bulk_from_urb(urb: UsbFsUrb) -> (r: Result<BulkTransfer, UsbError>)
    requires
        urb@.wf(),
    ensures
        match urb@.bulk() {
            Ok(b) => r is Ok && r->Ok_0@ == b && b.wf(),
            Err(e) => r is Err && r->Err_0 == e,
        },
{
    let ep = Endpoint::new(urb.endpoint);
    if !ep.is_bulk() {
        return Err(UsbError::InvalidInput);
    }
    let context = match urb.usercontext {
        Some(context) => *context,
        None => { return Err(UsbError::InvalidInput); },
    };
    let mut bulk = match context {
        UserContext::Bulk(bulk) => bulk,
        UserContext::Control(_) => { return Err(UsbError::InvalidInput); },
    };
    if bulk.endpoint().address() != urb.endpoint {
        return Err(UsbError::InvalidInput);
    }
    if urb.buffer_length < 0 || urb.buffer_length as usize != bulk.buffer_length() {
        return Err(UsbError::InvalidInput);
    }
    if urb.actual_length < 0 || urb.actual_length as usize > bulk.buffer_length() {
        return Err(UsbError::InvalidInput);
    }
    bulk.complete(urb.status, urb.actual_length as usize);
    Ok(bulk)
}

/// Gives back the control transfer that a completed URB owns, with the
/// status and the completion length that the kernel wrote into the URB.
///
/// Fails with [`UsbError::InvalidInput`] where the URB does not fit the
/// transfer, as [`UsbFsUrbView::control`] says.
pub fn control_from_urb(urb: UsbFsUrb) -> (r: Result<ControlTransfer, UsbError>)
    requires
        urb@.wf(),
    ensures
        match urb@.control() {
            Ok(c) => r is Ok && r->Ok_0@ == c && c.wf(),
            Err(e) => r is Err && r->Err_0 == e,
        },
{
    let ep = Endpoint::new(urb.endpoint);
    if !ep.is_control() {
        return Err(UsbError::InvalidInput);
    }
    let context = match urb.usercontext {
        Some(context) => *context,
        None => { return Err(UsbError::InvalidInput); },
    };
    let mut control = match context {
        UserContext::Control(control) => control,
        UserContext::Bulk(_) => { return Err(UsbError::InvalidInput); },
    };
    if urb.buffer_length < 0 || urb.buffer_length > 0xFFFF || urb.buffer_length as u16
        != control.buffer_length() {
        return Err(UsbError::InvalidInput);
    }
    if urb.actual_length < 0 || urb.actual_length > urb.buffer_length {
        return Err(UsbError::InvalidInput);
    }
    control.complete(urb.status, urb.actual_length as u16);
    Ok(control)
}

/// A bulk transfer that went to the kernel in its URB comes back as it
/// went, but for what the kernel wrote: whatever status and whatever
/// completion length within the filled bytes the kernel reports, the URB
/// gives back the submitted transfer with exactly these two written into
/// it.
pub proof fn lemma_bulk_round_trip(bulk: BulkTransferView, status: i32, actual_length: i32)
    requires
        bulk.wf(),
        bulk.endpoint.spec_is_bulk(),
        bulk.buffer_length <= i32::MAX,
        0 <= actual_length <= bulk.buffer_length,
    ensures
        UsbFsUrbView::for_bulk(bulk).wf(),
        UsbFsUrbView::for_bulk(bulk).reaped(status, actual_length).bulk() == Ok::<BulkTransferView, UsbError>(
            bulk.completed(status, actual_length as nat),
        ),
        bulk.completed(status, actual_length as nat).buffer == bulk.buffer,
        bulk.completed(status, actual_length as nat).buffer_length == bulk.buffer_length,
        bulk.completed(status, actual_length as nat).endpoint == bulk.endpoint,
{
}

/// A control transfer that went to the kernel in its URB comes back as it
/// went, but for what the kernel wrote: whatever status and whatever
/// completion length within the filled bytes the kernel reports, the URB
/// gives back the submitted transfer with exactly these two written into
/// it.
pub proof fn lemma_control_round_trip(control: ControlTransferView, status: i32, actual_length: i32)
    requires
        control.wf(),
        0 <= actual_length <= control.buffer_length,
    ensures
        UsbFsUrbView::for_control(control).wf(),
        UsbFsUrbView::for_control(control).reaped(status, actual_length).control() == Ok::<
            ControlTransferView,
            UsbError,
        >(control.completed(status, actual_length as nat)),
        control.completed(status, actual_length as nat).buffer == control.buffer,
        control.completed(status, actual_length as nat).buffer_length == control.buffer_length,
{
}

} // verus!
