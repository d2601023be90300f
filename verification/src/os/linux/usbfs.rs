//! The device handle: the bookkeeping of one opened `usbfs` device node.
//!
//! The handle decides and remembers; it issues no system call. Each
//! operation that involves the kernel comes in two halves: one that says what
//! to hand to the kernel, and one that takes what the kernel answered. Per
//! endpoint the handle moves between two states:
//!
//! ```text
//!   IDLE --submit--> IN-FLIGHT --completion reaped--> IDLE
//! ```
//!
//! Submitting on an endpoint that is in flight is refused, and a reap that
//! finds nothing ready changes nothing.
use super::usb_device::{UsbDevice, UsbDeviceView};
use super::usbfsurb::{bulk_from_urb, control_from_urb, UsbFsUrb, UsbFsUrbView};
use crate::descriptors::{join_le16, le16};
use crate::endpoint::{bulk_in_address, Endpoint, ENDPOINT_IN};
use crate::error::{UsbError, EAGAIN};
use crate::usb_transfer::{
    zeroed_buffer, BufferSlice, BulkTransfer, BulkTransferView, ControlTransfer, ControlTransferView,
    TransferKind, TransferKindView, UsbCoreDriver, CONTROL_MAX_PACKET_SIZE,
};
use crate::TimeoutMillis;
use vstd::prelude::*;

verus! {

/// A handle on one device.
#[derive(Debug)]
pub struct UsbFs {
    claims: Vec<u32>,
    capabilities: u32,
    transfers: Vec<TransferKind>,
    pending: Vec<bool>,
    bus_dev: (u8, u8),
    descriptors: Option<UsbDevice>,
    read_only: bool,
}

/// What a [`UsbFs`] holds, as a mathematical value.
pub struct UsbFsView {
    /// The interfaces claimed through this handle, in the order of claiming.
    pub claims: Seq<u32>,
    /// The cached capability bitmap; zero while it is not known.
    pub capabilities: u32,
    /// The completions staged for [`UsbFs::collect_responses`], oldest first.
    pub transfers: Seq<TransferKindView>,
    /// The addresses of the endpoints that have a URB in flight.
    pub in_flight: Set<u8>,
    /// Bus number and device address of the node.
    pub bus_dev: (u8, u8),
    /// The cached descriptor tree.
    pub descriptors: Option<UsbDeviceView>,
    /// Whether the node was opened without write access.
    pub read_only: bool,
}

impl UsbFsView {
    /// The handle of a node that was just opened.
    pub open spec fn opened(bus: u8, dev: u8, read_only: bool) -> UsbFsView {
        UsbFsView {
            claims: Seq::empty(),
            capabilities: 0,
            transfers: Seq::empty(),
            in_flight: Set::empty(),
            bus_dev: (bus, dev),
            descriptors: None,
            read_only,
        }
    }

    /// What is owed to a valid handle: no interface is claimed twice, and
    /// every staged completion keeps its length discipline.
    pub open spec fn wf(self) -> bool {
        &&& self.claims.no_duplicates()
        &&& forall|i: int| 0 <= i < self.transfers.len() ==> (#[trigger] self.transfers[i]).wf()
    }

    /// The handle with the endpoint at `endpoint` in flight.
    pub open spec fn submitted(self, endpoint: u8) -> UsbFsView {
        UsbFsView { in_flight: self.in_flight.insert(endpoint), ..self }
    }

    /// The handle with the endpoint at `endpoint` idle.
    pub open spec fn idle(self, endpoint: u8) -> UsbFsView {
        UsbFsView { in_flight: self.in_flight.remove(endpoint), ..self }
    }

    /// The handle with `interface` claimed: it joins the claimed interfaces
    /// unless it is among them already.
    pub open spec fn claimed(self, interface: u32) -> UsbFsView {
        if self.claims.contains(interface) {
            self
        } else {
            UsbFsView { claims: self.claims.push(interface), ..self }
        }
    }

    /// The handle with `transfer` staged behind the completions that wait.
    pub open spec fn staged(self, transfer: TransferKindView) -> UsbFsView {
        UsbFsView { transfers: self.transfers.push(transfer), ..self }
    }
}

/// What submitting the bulk transfer `bulk` on a handle `usb` comes to.
///
/// A transfer that still carries a completion length is refused with
/// [`UsbError::InvalidInput`], and so is one whose filled length is beyond
/// what a URB can state. An endpoint in flight gives
/// [`UsbError::AlreadyExists`]. Else the URB for the transfer is due.
pub open spec fn bulk_submission(usb: UsbFsView, bulk: BulkTransferView) -> Result<UsbFsUrbView, UsbError> {
    if bulk.actual_length != 0 {
        Err(UsbError::InvalidInput)
    } else if usb.in_flight.contains(bulk.endpoint@) {
        Err(UsbError::AlreadyExists)
    } else if bulk.buffer_length > i32::MAX {
        Err(UsbError::InvalidInput)
    } else {
        Ok(UsbFsUrbView::for_bulk(bulk))
    }
}

/// What submitting the control transfer `control` on a handle `usb` comes
/// to: as [`bulk_submission`], on endpoint zero.
pub open spec fn control_submission(usb: UsbFsView, control: ControlTransferView) -> Result<
    UsbFsUrbView,
    UsbError,
> {
    if control.actual_length != 0 {
        Err(UsbError::InvalidInput)
    } else if usb.in_flight.contains(0) {
        Err(UsbError::AlreadyExists)
    } else {
        Ok(UsbFsUrbView::for_control(control))
    }
}

/// The completion record that a reaped URB stands for.
///
/// A URB on a bulk endpoint gives its bulk transfer and one on the control
/// endpoint its control transfer, each with the kernel's report written into
/// it. A URB on any other endpoint, and one whose transfer cannot be
/// recovered, gives an `Invalid` record that names the endpoint.
pub open spec fn completion(urb: UsbFsUrbView) -> TransferKindView {
    let ep = Endpoint::spec_new(urb.endpoint);
    if ep.spec_is_bulk() {
        match urb.bulk() {
            Ok(b) => TransferKindView::Bulk(b),
            Err(_) => TransferKindView::Invalid(ep),
        }
    } else if ep.spec_is_control() {
        match urb.control() {
            Ok(c) => TransferKindView::Control(c),
            Err(_) => TransferKindView::Invalid(ep),
        }
    } else {
        TransferKindView::Invalid(ep)
    }
}

impl View for UsbFs {
    type V = UsbFsView;

    closed spec fn view(&self) -> UsbFsView {
        UsbFsView {
            claims: self.claims@,
            capabilities: self.capabilities,
            transfers: self.transfers@.map_values(|t: TransferKind| t@),
            in_flight: Set::new(|e: u8| self.pending@.len() == 256 && self.pending@[e as int]),
            bus_dev: self.bus_dev,
            descriptors: match self.descriptors {
                Some(d) => Some(d@),
                None => None,
            },
            read_only: self.read_only,
        }
    }
}

impl UsbFs {
    /// Whether the handle is valid: its view is, and its table of pending
    /// endpoints has a place for every address.
    pub closed spec fn wf(&self) -> bool {
        &&& self@.wf()
        &&& self.pending@.len() == 256
    }

    /// Takes the kernel's answer to opening the node at `bus`, `dev` for
    /// reading and writing: success, or the error number that it set.
    ///
    /// On success the handle is new: nothing is claimed, in flight or
    /// cached. An error comes back as [`UsbError::OpenFailed`].
    pub fn from_bus_device(bus: u8, dev: u8, opened: Result<(), i32>) -> (r: Result<UsbFs, UsbError>)
        ensures
            match opened {
                Ok(_) => r is Ok && r->Ok_0.wf() && r->Ok_0@ == UsbFsView::opened(bus, dev, false),
                Err(errno) => r is Err && r->Err_0 == UsbError::OpenFailed(errno),
            },
    {
        match opened {
            Ok(_) => Ok(Self::opened(bus, dev, false)),
            Err(errno) => Err(UsbError::OpenFailed(errno)),
        }
    }

    /// Takes the kernel's answer to opening the node at `bus`, `dev` for
    /// reading only, as [`UsbFs::from_bus_device`] does for reading and
    /// writing.
    pub fn from_bus_device_read_only(bus: u8, dev: u8, opened: Result<(), i32>) -> (r: Result<UsbFs, UsbError>)
        ensures
            match opened {
                Ok(_) => r is Ok && r->Ok_0.wf() && r->Ok_0@ == UsbFsView::opened(bus, dev, true),
                Err(errno) => r is Err && r->Err_0 == UsbError::OpenFailed(errno),
            },
    {
        match opened {
            Ok(_) => Ok(Self::opened(bus, dev, true)),
            Err(errno) => Err(UsbError::OpenFailed(errno)),
        }
    }

    /// Takes the kernel's answer to opening the node of `device` for
    /// reading and writing.
    pub fn from_device(device: &UsbDevice, opened: Result<(), i32>) -> (r: Result<UsbFs, UsbError>)
        ensures
            match opened {
                Ok(_) => r is Ok && r->Ok_0.wf() && r->Ok_0@ == UsbFsView::opened(
                    device.bus_num,
                    device.dev_num,
                    false,
                ),
                Err(errno) => r is Err && r->Err_0 == UsbError::OpenFailed(errno),
            },
    {
        Self::from_bus_device(device.bus_num, device.dev_num, opened)
    }

    /// A new handle for the node at `bus`, `dev`.
    fn opened(bus: u8, dev: u8, read_only: bool) -> (usb: UsbFs)
        ensures
            usb.wf(),
            usb@ == UsbFsView::opened(bus, dev, read_only),
    {
        let usb = UsbFs {
            claims: Vec::new(),
            capabilities: 0,
            transfers: Vec::new(),
            pending: vec![false; 256],
            bus_dev: (bus, dev),
            descriptors: None,
            read_only,
        };
        assert(usb@.transfers =~= Seq::empty());
        assert(usb@.in_flight =~= Set::empty());
        usb
    }

    /// Bus number and device address of the node.
    pub fn bus_dev(&self) -> (r: (u8, u8))
        ensures
            r == self@.bus_dev,
    {
        self.bus_dev
    }

    /// Whether the node was opened without write access.
    pub fn read_only(&self) -> (r: bool)
        ensures
            r == self@.read_only,
    {
        self.read_only
    }

    /// Whether the endpoint at address `endpoint` has a URB in flight.
    pub fn in_flight(&self, endpoint: u8) -> (b: bool)
        requires
            self.wf(),
        ensures
            b == self@.in_flight.contains(endpoint),
    {
        self.pending[endpoint as usize]
    }

    fn mark(&mut self, endpoint: u8, busy: bool)
        requires
            old(self).wf(),
        ensures
            final(self).wf(),
            busy ==> final(self)@ == old(self)@.submitted(endpoint),
            !busy ==> final(self)@ == old(self)@.idle(endpoint),
    {
        self.pending.set(endpoint as usize, busy);
        assert(self@.in_flight =~= if busy {
            old(self)@.in_flight.insert(endpoint)
        } else {
            old(self)@.in_flight.remove(endpoint)
        });
    }

    /// Takes a bulk transfer for submission and hands out the URB to give
    /// to the kernel. The endpoint is in flight from now on.
    ///
    /// Fails as [`bulk_submission`] says and then changes nothing.
    pub fn submit_bulk(&mut self, bulk: BulkTransfer) -> (r: Result<UsbFsUrb, UsbError>)
        requires
            old(self).wf(),
            bulk@.wf(),
        ensures
            final(self).wf(),
            match bulk_submission(old(self)@, bulk@) {
                Ok(urb) => r is Ok && r->Ok_0@ == urb && urb.wf() && final(self)@ == old(self)@.submitted(
                    bulk@.endpoint@,
                ),
                Err(e) => r is Err && r->Err_0 == e && final(self)@ == old(self)@,
            },
    {
        if bulk.actual_length() != 0 {
            return Err(UsbError::InvalidInput);
        }
        let endpoint = bulk.endpoint().address();
        if self.in_flight(endpoint) {
            return Err(UsbError::AlreadyExists);
        }
        if bulk.buffer_length() > i32::MAX as usize {
            return Err(UsbError::InvalidInput);
        }
        self.mark(endpoint, true);
        Ok(UsbFsUrb::from(bulk))
    }

    /// Takes a control transfer for submission and hands out the URB to give
    /// to the kernel. The control endpoint is in flight from now on.
    ///
    /// Fails as [`control_submission`] says and then changes nothing.
    pub fn submit_control(&mut self, control: ControlTransfer) -> (r: Result<UsbFsUrb, UsbError>)
        requires
            old(self).wf(),
            control@.wf(),
        ensures
            final(self).wf(),
            match control_submission(old(self)@, control@) {
                Ok(urb) => r is Ok && r->Ok_0@ == urb && urb.wf() && final(self)@ == old(self)@.submitted(0),
                Err(e) => r is Err && r->Err_0 == e && final(self)@ == old(self)@,
            },
    {
        if control.actual_length() != 0 {
            return Err(UsbError::InvalidInput);
        }
        if self.in_flight(0) {
            return Err(UsbError::AlreadyExists);
        }
        self.mark(0, true);
        Ok(UsbFsUrb::from(control))
    }

    /// Takes back a URB that the kernel refused: its endpoint is idle again,
    /// and the error that the refusal stands for is returned.
    pub fn submit_failed(&mut self, urb: UsbFsUrb, errno: i32) -> (e: UsbError)
        requires
            old(self).wf(),
        ensures
            final(self).wf(),
            final(self)@ == old(self)@.idle(urb@.endpoint),
            e == UsbError::spec_from_errno(errno),
    {
        self.mark(urb.endpoint(), false);
        UsbError::from_errno(errno)
    }

    /// Takes what a reap attempt gave: a completed URB, or the error number
    /// that the kernel set.
    ///
    /// A completed URB makes its endpoint idle and is turned into the
    /// completion record that [`completion`] describes. An error changes
    /// nothing; `EAGAIN`, which says that nothing is ready, comes back as
    /// [`UsbError::WouldBlock`].
    pub fn async_response(&mut self, reaped: Result<UsbFsUrb, i32>) -> (r: Result<TransferKind, UsbError>)
        requires
            old(self).wf(),
            reaped matches Ok(urb) ==> urb@.wf(),
        ensures
            final(self).wf(),
            match reaped {
                Ok(urb) => r is Ok && r->Ok_0@ == completion(urb@) && r->Ok_0@.wf() && final(self)@
                    == old(self)@.idle(urb@.endpoint),
                Err(errno) => r is Err && r->Err_0 == UsbError::spec_from_errno(errno) && final(self)@
                    == old(self)@,
            },
    {
        let urb = match reaped {
            Ok(urb) => urb,
            Err(errno) => { return Err(UsbError::from_errno(errno)); },
        };
        let ep = Endpoint::new(urb.endpoint());
        self.mark(urb.endpoint(), false);
        if ep.is_bulk() {
            match bulk_from_urb(urb) {
                Ok(bulk) => Ok(TransferKind::Bulk(bulk)),
                Err(_) => Ok(TransferKind::Invalid(ep)),
            }
        } else if ep.is_control() {
            match control_from_urb(urb) {
                Ok(control) => Ok(TransferKind::Control(control)),
                Err(_) => Ok(TransferKind::Invalid(ep)),
            }
        } else {
            Ok(TransferKind::Invalid(ep))
        }
    }

    /// Puts a completion record behind the completions that wait for
    /// [`UsbFs::collect_responses`].
    fn stage(&mut self, transfer: TransferKind)
        requires
            old(self).wf(),
            transfer@.wf(),
        ensures
            final(self).wf(),
            final(self)@ == old(self)@.staged(transfer@),
    {
        self.transfers.push(transfer);
        assert(self@.transfers =~= old(self)@.transfers.push(transfer@));
    }

    /// How many completions are staged.
    pub fn staged_len(&self) -> (n: usize)
        ensures
            n == self@.transfers.len(),
    {
        self.transfers.len()
    }

    /// Takes the outcomes of a run of reap attempts, in the order in which
    /// the kernel gave them, and stages every completion among them.
    ///
    /// The run ends at the first error. Where that error says that nothing
    /// more is ready, or where the run holds no error, the number of staged
    /// completions is returned; any other error is handed on, with the
    /// completions before it staged. See [`drained`].
    pub fn async_response_all(&mut self, reaped: Vec<Result<UsbFsUrb, i32>>) -> (r: Result<usize, UsbError>)
        requires
            old(self).wf(),
            forall|i: int| 0 <= i < reaped@.len() ==> (#[trigger] reaped@[i] matches Ok(urb) ==> urb@.wf()),
        ensures
            final(self).wf(),
            final(self)@ == drained(old(self)@, outcomes(reaped@)).0,
            r == drained(old(self)@, outcomes(reaped@)).1,
    {
        let ghost goal = drained(self@, outcomes(reaped@));
        assert(reaped@.skip(0) =~= reaped@);
        for next in it: reaped
            invariant
                self.wf(),
                goal == drained(old(self)@, outcomes(reaped@)),
                it.seq() == reaped@,
                forall|i: int| 0 <= i < reaped@.len() ==> (#[trigger] reaped@[i] matches Ok(urb) ==> urb@.wf()),
                drained(self@, outcomes(reaped@.skip(it.index() as int))) == goal,
        {
            proof {
                let rest = outcomes(reaped@.skip(it.index() as int));
                assert(rest.skip(1) =~= outcomes(reaped@.skip(it.index() + 1)));
            }
            match self.async_response(next) {
                Ok(transfer) => {
                    self.stage(transfer);
                },
                Err(e) => {
                    if e == UsbError::WouldBlock {
                        return Ok(self.transfers.len());
                    }
                    return Err(e);
                },
            }
        }
        Ok(self.transfers.len())
    }

    /// The capability bitmap, where it is known already: a bitmap of zero
    /// counts as not known, and the kernel has to be asked.
    pub fn cached_capabilities(&self) -> (r: Option<u32>)
        ensures
            r == if self@.capabilities != 0 {
                Some(self@.capabilities)
            } else {
                None::<u32>
            },
    {
        if self.capabilities != 0 {
            Some(self.capabilities)
        } else {
            None
        }
    }

    /// Takes the kernel's answer to a capability query: the bitmap, or the
    /// error number that the kernel set.
    ///
    /// A bitmap that is cached already wins over the answer. Else a bitmap
    /// is cached and returned, and an error is handed on and caches nothing.
    pub fn capabilities(&mut self, answer: Result<u32, i32>) -> (r: Result<u32, UsbError>)
        requires
            old(self).wf(),
        ensures
            final(self).wf(),
            r == capabilities_answer(old(self)@.capabilities, answer),
            final(self)@ == (UsbFsView {
                capabilities: match r {
                    Ok(bitmap) => bitmap,
                    Err(_) => old(self)@.capabilities,
                },
                ..old(self)@
            }),
    {
        if self.capabilities != 0 {
            return Ok(self.capabilities);
        }
        match answer {
            Ok(bitmap) => {
                self.capabilities = bitmap;
                Ok(bitmap)
            },
            Err(errno) => Err(UsbError::from_errno(errno)),
        }
    }

    /// The endpoint number to hand to the clear-halt ioctl for the endpoint
    /// at address `ep`: the address without its direction bit.
    pub fn clear_halt(&self, ep: u8) -> (number: u32)
        ensures
            number == ep as int % 128,
    {
        assert((ep & 0x7f) == ep % 128) by (bit_vector);
        (ep & 0x7f) as u32
    }

    /// Whether `interface` is among the claimed interfaces.
    pub fn is_claimed(&self, interface: u32) -> (b: bool)
        ensures
            b == self@.claims.contains(interface),
    {
        let mut i: usize = 0;
        while i < self.claims.len()
            invariant
                i <= self.claims@.len(),
                forall|j: int| 0 <= j < i ==> self.claims@[j] != interface,
            decreases self.claims@.len() - i,
        {
            if self.claims[i] == interface {
                return true;
            }
            i += 1;
        }
        false
    }

    /// The claimed interfaces, in the order of claiming.
    pub fn claims(&self) -> (c: &[u32])
        ensures
            c@ == self@.claims,
    {
        self.claims.as_slice()
    }

    /// Takes the kernel's answer to a claim of `interface`: success, or the
    /// error number that the kernel set.
    ///
    /// On success the interface joins the claimed interfaces, unless it is
    /// among them already. An error is handed on and claims nothing.
    pub fn claim_interface(&mut self, interface: u32, answer: Result<(), i32>) -> (r: Result<(), UsbError>)
        requires
            old(self).wf(),
        ensures
            final(self).wf(),
            match answer {
                Ok(_) => r is Ok && final(self)@ == old(self)@.claimed(interface),
                Err(errno) => r == Err::<(), UsbError>(UsbError::spec_from_errno(errno)) && final(self)@
                    == old(self)@,
            },
    {
        match answer {
            Ok(_) => {
                if !self.is_claimed(interface) {
                    self.claims.push(interface);
                }
                Ok(())
            },
            Err(errno) => Err(UsbError::from_errno(errno)),
        }
    }

    /// Ends the handle's claims: hands out every claimed interface, each
    /// once, for release, and leaves none claimed.
    pub fn release_claims(&mut self) -> (released: Vec<u32>)
        requires
            old(self).wf(),
        ensures
            final(self).wf(),
            released@ == old(self)@.claims,
            released@.no_duplicates(),
            final(self)@ == (UsbFsView { claims: Seq::empty(), ..old(self)@ }),
    {
        let mut released: Vec<u32> = Vec::new();
        core::mem::swap(&mut released, &mut self.claims);
        released
    }

    /// The cached descriptor tree, where there is one.
    pub fn descriptors(&self) -> (d: &Option<UsbDevice>)
        ensures
            match *d {
                Some(device) => self@.descriptors == Some(device@),
                None => self@.descriptors is None,
            },
    {
        &self.descriptors
    }

    /// Takes the raw descriptor bytes read from the node and caches the
    /// tree they describe, at the handle's bus number and device address.
    ///
    /// A tree that is cached already stays, and bytes that do not parse
    /// cache nothing.
    pub fn load_descriptors(&mut self, bytes: Vec<u8>)
        requires
            old(self).wf(),
        ensures
            final(self).wf(),
            final(self)@ == (UsbFsView {
                descriptors: loaded(old(self)@.descriptors, old(self)@.bus_dev, bytes@),
                ..old(self)@
            }),
    {
        if self.descriptors.is_none() {
            match UsbDevice::from_bytes(bytes) {
                Ok(device) => {
                    let mut device = device;
                    device.bus_num = self.bus_dev.0;
                    device.dev_num = self.bus_dev.1;
                    self.descriptors = Some(device);
                },
                Err(_) => {},
            }
        }
    }

    /// Writes the identification strings read from the device into the
    /// cached descriptor tree, where there is one.
    pub fn set_descriptor_strings(&mut self, manufacturer: String, product: String, serial: String)
        requires
            old(self).wf(),
        ensures
            final(self).wf(),
            final(self)@ == (UsbFsView {
                descriptors: match old(self)@.descriptors {
                    Some(d) => Some(
                        UsbDeviceView { manufacturer: manufacturer@, product: product@, serial: serial@, ..d },
                    ),
                    None => None,
                },
                ..old(self)@
            }),
    {
        let mut cached: Option<UsbDevice> = None;
        core::mem::swap(&mut cached, &mut self.descriptors);
        match cached {
            Some(device) => {
                let mut device = device;
                device.manufacturer = manufacturer;
                device.product = product;
                device.serial = serial;
                self.descriptors = Some(device);
            },
            None => {},
        }
    }

    /// The control transfer that asks the device for its string descriptor
    /// number `id`, in the language of `iface`: a standard GET_DESCRIPTOR
    /// request towards the host, of type string, that reads up to 256 bytes.
    ///
    /// Fails with [`UsbError::InvalidInput`] for string number zero and on a
    /// handle that was opened for reading only, and with
    /// [`UsbError::OutOfMemory`] where there is no memory for the transfer.
    pub fn get_descriptor_string_iface(&mut self, iface: u16, id: u8) -> (r: Result<ControlTransfer, UsbError>)
        requires
            old(self).wf(),
        ensures
            final(self).wf(),
            final(self)@ == old(self)@,
            id == 0 || old(self)@.read_only ==> r == Err::<ControlTransfer, UsbError>(UsbError::InvalidInput),
            r matches Ok(t) ==> t@ == string_request(iface, id) && t@.wf(),
            r matches Err(e) ==> e == UsbError::InvalidInput && (id == 0 || old(self)@.read_only) || e
                == UsbError::OutOfMemory && !(id == 0 || old(self)@.read_only),
    {
        if id == 0 {
            return Err(UsbError::InvalidInput);
        }
        if self.read_only {
            return Err(UsbError::InvalidInput);
        }
        assert(0x80u8 | ENDPOINT_IN == 0x80) by (bit_vector);
        assert((0x0300u16 | id as u16) == 0x0300 + id) by (bit_vector);
        self.new_control_in(0x80, 0x06, 0x0300 | id as u16, iface, 256)
    }

    /// The control transfer that asks the device for its string descriptor
    /// number `id`, with index zero.
    pub fn get_descriptor_string(&mut self, id: u8) -> (r: Result<ControlTransfer, UsbError>)
        requires
            old(self).wf(),
        ensures
            final(self).wf(),
            final(self)@ == old(self)@,
            id == 0 || old(self)@.read_only ==> r == Err::<ControlTransfer, UsbError>(UsbError::InvalidInput),
            r matches Ok(t) ==> t@ == string_request(0, id) && t@.wf(),
            r matches Err(e) ==> e == UsbError::InvalidInput && (id == 0 || old(self)@.read_only) || e
                == UsbError::OutOfMemory && !(id == 0 || old(self)@.read_only),
    {
        self.get_descriptor_string_iface(0, id)
    }

    /// The text of the string descriptor that a completed control transfer
    /// carries. The completion length must lie within the filled data stage
    /// of the transfer.
    pub fn descriptor_string(response: &ControlTransfer) -> (s: String)
        requires
            response.carries(),
        ensures
            s@ == descriptor_text(response@.payload()),
    {
        decode_descriptor_string(response.buffer_from_raw())
    }

    /// Takes what a reap attempt gave while a control transfer is waited
    /// for, and says how the wait goes on.
    ///
    /// A completion on the control endpoint ends the wait with its
    /// transfer. Any other completion is staged for
    /// [`UsbFs::collect_responses`], and the wait goes on at once. Where
    /// nothing is ready the wait goes on after a short sleep. Any other
    /// error ends the wait. See [`control_wait`]; whether the time is up is
    /// for [`crate::TimeoutMillis::expired`] to say.
    pub fn control_async_wait(&mut self, reaped: Result<UsbFsUrb, i32>) -> (step: ControlWait)
        requires
            old(self).wf(),
            reaped matches Ok(urb) ==> urb@.wf(),
        ensures
            final(self).wf(),
            final(self)@ == control_wait(old(self)@, outcome(reaped)).0,
            step@ == control_wait(old(self)@, outcome(reaped)).1,
            step matches ControlWait::Done(c) ==> c@.wf(),
    {
        match self.async_response(reaped) {
            Err(e) => {
                if e == UsbError::WouldBlock {
                    ControlWait::Retry { sleep: true }
                } else {
                    ControlWait::Failed(e)
                }
            },
            Ok(transfer) => match transfer {
                TransferKind::Control(control) => ControlWait::Done(control),
                TransferKind::Bulk(bulk) => {
                    self.stage(TransferKind::Bulk(bulk));
                    ControlWait::Retry { sleep: false }
                },
                TransferKind::Invalid(ep) => {
                    self.stage(TransferKind::Invalid(ep));
                    ControlWait::Retry { sleep: false }
                },
            },
        }
    }

    /// The request of a blocking bulk read of up to `mem.len()` bytes from
    /// the IN endpoint numbered `ep % 16`.
    pub fn bulk_read(&self, ep: u8, mem: &[u8], timeout: TimeoutMillis) -> (request: CBulkTransfer)
        ensures
            request == (CBulkTransfer {
                ep: bulk_in_address(ep) as u32,
                length: mem@.len() as u32,
                timeout_ms: timeout.0,
            }),
    {
        CBulkTransfer { ep: Endpoint::bulk_in(ep).address() as u32, length: mem.len() as u32, timeout_ms: timeout.0 }
    }

    /// The request of a blocking bulk write of the `mem.len()` bytes of
    /// `mem` to the endpoint at address `ep`, taken without its direction
    /// bit.
    pub fn bulk_write(&self, ep: u8, mem: &[u8], timeout: TimeoutMillis) -> (request: CBulkTransfer)
        ensures
            request == (CBulkTransfer {
                ep: (ep as int % 128) as u32,
                length: mem@.len() as u32,
                timeout_ms: timeout.0,
            }),
    {
        assert((ep & 0x7F) == ep % 128) by (bit_vector);
        CBulkTransfer { ep: (ep & 0x7F) as u32, length: mem.len() as u32, timeout_ms: timeout.0 }
    }

    /// Takes the kernel's answer to a blocking bulk transfer: the number of
    /// bytes moved, or the error number that the kernel set.
    pub fn bulk(answer: Result<i32, i32>) -> (r: Result<u32, UsbError>)
        ensures
            r == match answer {
                Ok(n) => Ok::<u32, UsbError>(n as u32),
                Err(errno) => Err::<u32, UsbError>(UsbError::spec_from_errno(errno)),
            },
    {
        match answer {
            Ok(n) => Ok(n as u32),
            Err(errno) => Err(UsbError::from_errno(errno)),
        }
    }

    /// Hands out the staged completions, oldest first, and leaves none
    /// staged.
    pub fn collect_responses(&mut self) -> (out: Vec<TransferKind>)
        requires
            old(self).wf(),
        ensures
            final(self).wf(),
            out@.map_values(|t: TransferKind| t@) == old(self)@.transfers,
            final(self)@ == (UsbFsView { transfers: Seq::empty(), ..old(self)@ }),
    {
        let mut out: Vec<TransferKind> = Vec::new();
        core::mem::swap(&mut out, &mut self.transfers);
        assert(self@.transfers =~= Seq::empty());
        out
    }
}

impl UsbCoreDriver for UsbFs {
    /// Making a transfer changes nothing in the handle.
    open spec fn untouched(&self, before: &Self) -> bool {
        *self == *before
    }

    fn new_bulk_in(&mut self, ep: u8, read_capacity: usize) -> (r: Result<BulkTransfer, UsbError>) {
        let buffer = zeroed_buffer(read_capacity)?;
        Ok(BulkTransfer::input(ep, buffer))
    }

    fn new_bulk_out(&mut self, ep: u8, capacity: usize) -> (r: Result<BulkTransfer, UsbError>) {
        let buffer = zeroed_buffer(capacity)?;
        Ok(BulkTransfer::output(ep, buffer))
    }

    fn new_control(&mut self, request_type: u8, request: u8, value: u16, index: u16, length: u16) -> (r: Result<
        ControlTransfer,
        UsbError,
    >) {
        if length > CONTROL_MAX_PACKET_SIZE {
            return Err(UsbError::InvalidInput);
        }
        let buffer = zeroed_buffer(length as usize + 8)?;
        proof {
            ControlTransferView::lemma_with_setup_zeroed(request_type, request, value, index, length);
        }
        ControlTransfer::with_setup(buffer, request_type, request, value, index, length)
    }
}

/// The bytes of `/dev/bus/usb/`.
pub open spec fn node_directory() -> Seq<u8> {
    seq![47u8, 100u8, 101u8, 118u8, 47u8, 98u8, 117u8, 115u8, 47u8, 117u8, 115u8, 98u8, 47u8]
}

/// The three decimal digits of `n`, with leading zeros, as ASCII bytes.
pub open spec fn three_digits(n: u8) -> Seq<u8> {
    seq![(48 + n / 100) as u8, (48 + (n / 10) % 10) as u8, (48 + n % 10) as u8]
}

/// The path of the device node at `bus`, `dev`: `/dev/bus/usb/BBB/DDD`, both
/// numbers in three decimal digits.
pub open spec fn node_path(bus: u8, dev: u8) -> Seq<u8> {
    node_directory() + three_digits(bus) + seq![47u8] + three_digits(dev)
}

/// Appends the three decimal digits of `n` to `out`.
fn push_three_digits(out: &mut Vec<u8>, n: u8)
    ensures
        final(out)@ == old(out)@ + three_digits(n),
{
    out.push(48 + n / 100);
    out.push(48 + (n / 10) % 10);
    out.push(48 + n % 10);
}

/// The path of the device node at `bus`, `dev`, as ASCII bytes.
pub fn device_node_path(bus: u8, dev: u8) -> (path: Vec<u8>)
    ensures
        path@ == node_path(bus, dev),
{
    let mut path: Vec<u8> = Vec::new();
    path.push(47);
    path.push(100);
    path.push(101);
    path.push(118);
    path.push(47);
    path.push(98);
    path.push(117);
    path.push(115);
    path.push(47);
    path.push(117);
    path.push(115);
    path.push(98);
    path.push(47);
    push_three_digits(&mut path, bus);
    path.push(47);
    push_three_digits(&mut path, dev);
    path
}

/// The name of the driver in the answer to a driver query: the bytes before
/// the first zero byte, or all of them where none is zero.
pub open spec fn driver_name(answer: Seq<u8>) -> Seq<u8>
    decreases answer.len(),
{
    if answer.len() == 0 || answer[0] == 0 {
        Seq::empty()
    } else {
        seq![answer[0]] + driver_name(answer.skip(1))
    }
}

/// The bytes of `usbfs`, the name under which the device-node driver is
/// bound to an interface.
pub open spec fn usbfs_name() -> Seq<u8> {
    seq![117u8, 115u8, 98u8, 102u8, 115u8]
}

/// What to do before an interface is claimed.
#[derive(Debug, Clone, Copy, PartialEq, Eq, Structural)]
pub enum ClaimStep {
    /// Claim the interface.
    Claim,
    /// Another driver is bound to the interface: have it disconnected,
    /// then claim the interface.
    DisconnectThenClaim,
}

/// What the answer to a driver query asks for: no answer, because no driver
/// is bound, and the answer `usbfs` let the claim go ahead; any other driver
/// has to be disconnected first.
pub open spec fn claim_step(driver: Option<Seq<u8>>) -> ClaimStep {
    match driver {
        None => ClaimStep::Claim,
        Some(answer) => if driver_name(answer) == usbfs_name() {
            ClaimStep::Claim
        } else {
            ClaimStep::DisconnectThenClaim
        },
    }
}

/// `driver_name` of a buffer whose first `n` bytes are not zero starts with
/// those bytes.
proof fn lemma_driver_name_prefix(answer: Seq<u8>, n: int)
    requires
        0 <= n <= answer.len(),
        forall|i: int| 0 <= i < n ==> answer[i] != 0,
    ensures
        driver_name(answer) == answer.take(n) + driver_name(answer.skip(n)),
    decreases n,
{
    if n == 0 {
        assert(answer.skip(0) =~= answer);
    } else {
        let tail = answer.skip(1);
        assert forall|i: int| 0 <= i < n - 1 implies tail[i] != 0 by {
            assert(tail[i] == answer[i + 1]);
        }
        lemma_driver_name_prefix(tail, n - 1);
        assert(tail.skip(n - 1) =~= answer.skip(n));
        assert(seq![answer[0]] + (tail.take(n - 1) + driver_name(tail.skip(n - 1))) =~= answer.take(n)
            + driver_name(answer.skip(n)));
    }
}

/// Decides from the answer to a driver query what has to happen before the
/// interface is claimed. `driver` is the name buffer that the kernel filled,
/// or `None` where the query failed because no driver is bound.
pub fn claim_plan(driver: Option<&[u8]>) -> (step: ClaimStep)
    ensures
        step == claim_step(
            match driver {
                Some(answer) => Some(answer@),
                None => None,
            },
        ),
{
    let answer = match driver {
        Some(answer) => answer,
        None => { return ClaimStep::Claim; },
    };
    let mut n: usize = 0;
    while n < answer.len() && answer[n] != 0
        invariant
            n <= answer@.len(),
            forall|i: int| 0 <= i < n ==> answer@[i] != 0,
        decreases answer@.len() - n,
    {
        n += 1;
    }
    proof {
        lemma_driver_name_prefix(answer@, n as int);
        assert(driver_name(answer@.skip(n as int)) =~= Seq::empty());
        assert(driver_name(answer@) =~= answer@.take(n as int));
    }
    if n == 5 && answer[0] == 117 && answer[1] == 115 && answer[2] == 98 && answer[3] == 102 && answer[4] == 115 {
        assert(answer@.take(5) =~= usbfs_name());
        ClaimStep::Claim
    } else {
        assert(answer@.take(n as int) != usbfs_name()) by {
            if n == 5 {
                let t = answer@.take(5);
                assert(t[0] == answer@[0] && t[1] == answer@[1] && t[2] == answer@[2] && t[3] == answer@[3] && t[4]
                    == answer@[4]);
            } else {
                assert(answer@.take(n as int).len() != usbfs_name().len());
            }
        }
        ClaimStep::DisconnectThenClaim
    }
}

/// The payload of the blocking bulk ioctl, without the pointer to the data.
#[derive(Debug, Clone, Copy, PartialEq, Eq, Structural)]
pub struct CBulkTransfer {
    pub ep: u32,
    pub length: u32,
    pub timeout_ms: u32,
}

/// How a wait for a control transfer goes on after one reap attempt.
#[derive(Debug)]
pub enum ControlWait {
    /// The control transfer completed.
    Done(ControlTransfer),
    /// The wait failed.
    Failed(UsbError),
    /// Reap again, after a short sleep where `sleep` is set.
    Retry { sleep: bool },
}

/// What a [`ControlWait`] holds, as a mathematical value.
pub enum ControlWaitView {
    Done(ControlTransferView),
    Failed(UsbError),
    Retry { sleep: bool },
}

impl View for ControlWait {
    type V = ControlWaitView;

    open spec fn view(&self) -> ControlWaitView {
        match self {
            ControlWait::Done(c) => ControlWaitView::Done(c@),
            ControlWait::Failed(e) => ControlWaitView::Failed(*e),
            ControlWait::Retry { sleep } => ControlWaitView::Retry { sleep: *sleep },
        }
    }
}

/// The handle after one reap attempt of a wait for a control transfer, and
/// how the wait goes on.
pub open spec fn control_wait(usb: UsbFsView, reaped: Result<UsbFsUrbView, i32>) -> (UsbFsView, ControlWaitView) {
    match reaped {
        Err(errno) => if UsbError::spec_from_errno(errno) == UsbError::WouldBlock {
            (usb, ControlWaitView::Retry { sleep: true })
        } else {
            (usb, ControlWaitView::Failed(UsbError::spec_from_errno(errno)))
        },
        Ok(urb) => match completion(urb) {
            TransferKindView::Control(c) => (usb.idle(urb.endpoint), ControlWaitView::Done(c)),
            other => (usb.idle(urb.endpoint).staged(other), ControlWaitView::Retry { sleep: false }),
        },
    }
}

/// The control transfer that reads string descriptor `id`: request type
/// `0x80`, request `0x06`, value `0x0300 + id`, index `iface`, and a read
/// window of 256 bytes behind the setup packet.
pub open spec fn string_request(iface: u16, id: u8) -> ControlTransferView {
    ControlTransferView::request(0x80, 0x06, (0x0300 + id) as u16, iface, 256).extended(256)
}

/// The UTF-16 code units of a string descriptor: behind the two header
/// bytes, each pair of bytes is one unit, low byte first. A descriptor of
/// odd length, and one with nothing behind its header, has none.
pub open spec fn string_units(data: Seq<u8>) -> Option<Seq<u16>> {
    if data.len() % 2 != 0 || data.len() <= 2 {
        None
    } else {
        Some(Seq::new((data.len() / 2 - 1) as nat, |i: int| le16(data[2 * i + 2], data[2 * i + 3])))
    }
}

/// The text that `String::from_utf16_lossy` decodes from UTF-16 code units.
pub uninterp spec fn utf16_lossy(units: Seq<u16>) -> Seq<char>;

/// `String::from_utf16_lossy`: decodes UTF-16 code units, putting the
/// replacement character in the place of every invalid sequence.
#[verifier::external_body]
fn from_utf16_lossy(units: &[u16]) -> (s: String)
    ensures
        s@ == utf16_lossy(units@),
{
    String::from_utf16_lossy(units)
}

/// The text of a string descriptor: what its code units decode to, or the
/// text `Invalid descriptor` where it has none.
pub open spec fn descriptor_text(data: Seq<u8>) -> Seq<char> {
    match string_units(data) {
        Some(units) => utf16_lossy(units),
        None => "Invalid descriptor"@,
    }
}

/// Reads the UTF-16 code units out of a string descriptor: a length byte, a
/// type byte, then the units, low byte first.
pub fn descriptor_units(data: &[u8]) -> (r: Option<Vec<u16>>)
    ensures
        match string_units(data@) {
            Some(units) => r is Some && r->0@ == units,
            None => r is None,
        },
{
    let length = data.len();
    if length % 2 != 0 || length <= 2 {
        return None;
    }
    let n = length / 2;
    let mut utf16: Vec<u16> = Vec::new();
    let mut i: usize = 1;
    while i < n
        invariant
            1 <= i <= n,
            n == length / 2,
            length == data@.len(),
            length % 2 == 0,
            utf16@.len() == i - 1,
            forall|j: int| 0 <= j < i - 1 ==> utf16@[j] == le16(data@[2 * j + 2], data@[2 * j + 3]),
        decreases n - i,
    {
        utf16.push(join_le16(data[2 * i], data[2 * i + 1]));
        i += 1;
    }
    Some(utf16)
}

/// Decodes the text of a string descriptor, as [`descriptor_text`] says.
pub fn decode_descriptor_string(data: &[u8]) -> (s: String)
    ensures
        s@ == descriptor_text(data@),
{
    match descriptor_units(data) {
        Some(units) => from_utf16_lossy(units.as_slice()),
        None => "Invalid descriptor".to_owned(),
    }
}

/// What a capability query comes to on a handle whose cached bitmap is
/// `cached`, given the kernel's answer: a cached bitmap other than zero wins,
/// else the answer counts.
pub open spec fn capabilities_answer(cached: u32, answer: Result<u32, i32>) -> Result<u32, UsbError> {
    if cached != 0 {
        Ok(cached)
    } else {
        match answer {
            Ok(bitmap) => Ok(bitmap),
            Err(errno) => Err(UsbError::spec_from_errno(errno)),
        }
    }
}

/// The descriptor cache after `bytes` were offered to it: a cached tree
/// stays; else the tree that `bytes` describe is placed at `bus_dev`, and
/// bytes that do not parse leave the cache empty.
pub open spec fn loaded(cached: Option<UsbDeviceView>, bus_dev: (u8, u8), bytes: Seq<u8>) -> Option<
    UsbDeviceView,
> {
    match cached {
        Some(d) => Some(d),
        None => match UsbDevice::parse(bytes) {
            Ok(d) => Some(UsbDeviceView { bus_num: bus_dev.0, dev_num: bus_dev.1, ..d }),
            Err(_) => None,
        },
    }
}

/// A reap outcome as a mathematical value.
pub open spec fn outcome(reaped: Result<UsbFsUrb, i32>) -> Result<UsbFsUrbView, i32> {
    match reaped {
        Ok(urb) => Ok(urb@),
        Err(errno) => Err(errno),
    }
}

/// A run of reap outcomes as mathematical values.
pub open spec fn outcomes(reaped: Seq<Result<UsbFsUrb, i32>>) -> Seq<Result<UsbFsUrbView, i32>> {
    reaped.map_values(|r: Result<UsbFsUrb, i32>| outcome(r))
}

/// The handle after a run of reap outcomes was taken in, and what
/// [`UsbFs::async_response_all`] returns for it.
///
/// Every completion makes its endpoint idle and is staged, up to the first
/// error. `EAGAIN` and the end of the run give the number of completions
/// staged by then; any other error is handed on.
pub open spec fn drained(usb: UsbFsView, reaped: Seq<Result<UsbFsUrbView, i32>>) -> (
    UsbFsView,
    Result<usize, UsbError>,
)
    decreases reaped.len(),
{
    if reaped.len() == 0 {
        (usb, Ok(usb.transfers.len() as usize))
    } else {
        match reaped[0] {
            Ok(urb) => drained(usb.idle(urb.endpoint).staged(completion(urb)), reaped.skip(1)),
            Err(errno) => if UsbError::spec_from_errno(errno) == UsbError::WouldBlock {
                (usb, Ok(usb.transfers.len() as usize))
            } else {
                (usb, Err(UsbError::spec_from_errno(errno)))
            },
        }
    }
}

/// At most one URB is in flight on an endpoint: a clean transfer offered for
/// an endpoint that is in flight is refused with
/// [`UsbError::AlreadyExists`], on the control endpoint as on a bulk
/// endpoint.
pub proof fn lemma_busy_endpoint_refuses(usb: UsbFsView, bulk: BulkTransferView, control: ControlTransferView)
    ensures
        bulk.actual_length == 0 && usb.in_flight.contains(bulk.endpoint@) ==> bulk_submission(usb, bulk) == Err::<
            UsbFsUrbView,
            UsbError,
        >(UsbError::AlreadyExists),
        control.actual_length == 0 && usb.in_flight.contains(0) ==> control_submission(usb, control) == Err::<
            UsbFsUrbView,
            UsbError,
        >(UsbError::AlreadyExists),
{
}

/// Once a submitted bulk transfer was reaped its endpoint takes the next
/// one: submitting makes the endpoint busy, reaping what was submitted
/// gives the transfer back and makes the endpoint idle, and the same
/// transfer, flushed, is accepted again.
pub proof fn lemma_submit_reap_submit(usb: UsbFsView, bulk: BulkTransferView, status: i32, actual_length: i32)
    requires
        bulk.wf(),
        bulk.endpoint.spec_is_bulk(),
        bulk.actual_length == 0,
        bulk.buffer_length <= i32::MAX,
        0 <= actual_length <= bulk.buffer_length,
        !usb.in_flight.contains(bulk.endpoint@),
    ensures
        bulk_submission(usb, bulk) == Ok::<UsbFsUrbView, UsbError>(UsbFsUrbView::for_bulk(bulk)),
        bulk_submission(usb.submitted(bulk.endpoint@), bulk) == Err::<UsbFsUrbView, UsbError>(
            UsbError::AlreadyExists,
        ),
        completion(UsbFsUrbView::for_bulk(bulk).reaped(status, actual_length)) == TransferKindView::Bulk(
            bulk.completed(status, actual_length as nat),
        ),
        usb.submitted(bulk.endpoint@).idle(bulk.endpoint@).in_flight == usb.in_flight,
        bulk_submission(
            usb.submitted(bulk.endpoint@).idle(bulk.endpoint@),
            bulk.completed(status, actual_length as nat).flushed(),
        ) is Ok,
{
}

/// A reap that finds nothing ready changes nothing, however often it is
/// tried: a run of reap attempts that all end in `EAGAIN` leaves the handle
/// as it is and reports the completions that were staged before.
pub proof fn lemma_idle_reap_is_noop(usb: UsbFsView, attempts: Seq<Result<UsbFsUrbView, i32>>)
    requires
        forall|i: int| 0 <= i < attempts.len() ==> attempts[i] == Err::<UsbFsUrbView, i32>(EAGAIN),
    ensures
        drained(usb, attempts) == (usb, Ok::<usize, UsbError>(usb.transfers.len() as usize)),
        control_wait(usb, Err(EAGAIN)) == (usb, ControlWaitView::Retry { sleep: true }),
{
}

} // verus!
