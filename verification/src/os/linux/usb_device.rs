//! A device together with its descriptor tree.
//!
//! The raw descriptor bytes of a device are a flat run of records. The tree
//! is built by walking them in order: the device record comes first, each
//! configuration record opens a configuration, each interface record goes
//! into the configuration opened last, and each endpoint record goes into
//! the interface added last.
use crate::descriptors::descriptor::{next_record, Descriptor, DescriptorType, DescriptorTypeView};
use crate::descriptors::device::{Device, DeviceView};
use crate::error::UsbError;
use vstd::prelude::*;

verus! {

/// One attached device: where it sits on the bus, its identification strings
/// and its descriptor tree.
#[derive(Debug, Clone, PartialEq, Eq)]
pub struct UsbDevice {
    pub bus_num: u8,
    pub dev_num: u8,
    pub manufacturer: String,
    pub product: String,
    pub serial: String,
    pub device: Device,
}

/// What a [`UsbDevice`] holds, as a mathematical value.
pub struct UsbDeviceView {
    pub bus_num: u8,
    pub dev_num: u8,
    pub manufacturer: Seq<char>,
    pub product: Seq<char>,
    pub serial: Seq<char>,
    pub device: DeviceView,
}

impl View for UsbDevice {
    type V = UsbDeviceView;

    open spec fn view(&self) -> UsbDeviceView {
        UsbDeviceView {
            bus_num: self.bus_num,
            dev_num: self.dev_num,
            manufacturer: self.manufacturer@,
            product: self.product@,
            serial: self.serial@,
            device: self.device@,
        }
    }
}

/// The tree `device` with one more record hung into it.
///
/// A configuration is added behind the configurations. An interface is added
/// to the last configuration and an endpoint to the last interface of the
/// last configuration; where there is no such place the record is dropped.
/// Records of every other kind leave the tree as it is.
pub open spec fn attach(device: DeviceView, record: DescriptorTypeView) -> DeviceView {
    let configs = device.configurations;
    match record {
        DescriptorTypeView::Configuration(c) => DeviceView {
            configurations: configs.push(c),
            ..device
        },
        DescriptorTypeView::Interface(i) => if configs.len() > 0 {
            DeviceView {
                configurations: configs.update(configs.len() - 1, configs.last().with_interface(i)),
                ..device
            }
        } else {
            device
        },
        DescriptorTypeView::Endpoint(e) => if configs.len() > 0 && configs.last().interfaces.len() > 0 {
            let ifaces = configs.last().interfaces;
            DeviceView {
                configurations: configs.update(
                    configs.len() - 1,
                    configs.last().with_last_interface(ifaces.last().with_endpoint(e)),
                ),
                ..device
            }
        } else {
            device
        },
        _ => device,
    }
}

/// The tree that grows out of `device` when every record of `bytes` is hung
/// into it in order.
pub open spec fn tree_from(device: DeviceView, bytes: Seq<u8>) -> DeviceView
    decreases bytes.len(),
{
    match next_record(bytes) {
        Some((record, rest)) => tree_from(attach(device, record), rest),
        None => device,
    }
}

impl UsbDevice {
    /// Puts a device record together from its parts.
    pub fn new(
        bus_num: u8,
        dev_num: u8,
        device: Device,
        manufacturer: String,
        product: String,
        serial: String,
    ) -> (r: Self)
        ensures
            r.bus_num == bus_num,
            r.dev_num == dev_num,
            r.device == device,
            r.manufacturer == manufacturer,
            r.product == product,
            r.serial == serial,
    {
        UsbDevice { bus_num, dev_num, device, product, manufacturer, serial }
    }

    /// What [`UsbDevice::from_bytes`] makes of a descriptor stream: the stream
    /// must start with a device record, and the records behind it form the
    /// tree. The result sits at bus 0, address 0, and has empty strings.
    pub open spec fn parse(bytes: Seq<u8>) -> Result<UsbDeviceView, UsbError> {
        match next_record(bytes) {
            Some((DescriptorTypeView::Device(d), rest)) => Ok(
                UsbDeviceView {
                    bus_num: 0,
                    dev_num: 0,
                    manufacturer: Seq::empty(),
                    product: Seq::empty(),
                    serial: Seq::empty(),
                    device: tree_from(d, rest),
                },
            ),
            _ => Err(UsbError::ParseError),
        }
    }

    /// Builds the descriptor tree of a device from its raw descriptor bytes.
    ///
    /// Fails with [`UsbError::ParseError`] where the bytes do not start with
    /// a device record.
    pub fn from_bytes(vec: Vec<u8>) -> (r: Result<Self, UsbError>)
        ensures
            match Self::parse(vec@) {
                Ok(v) => r is Ok && r->Ok_0@ == v,
                Err(e) => r == Err::<Self, UsbError>(e),
            },
    {
        let mut descs = match Descriptor::from_bytes(vec) {
            Ok(d) => d,
            Err(e) => { return Err(e); },
        };
        let device = match descs.next() {
            Some(DescriptorType::Device(d)) => d,
            _ => { return Err(UsbError::ParseError); },
        };
        let ghost goal = tree_from(device@, descs.descriptor@);
        let mut device = UsbDevice::new(0, 0, device, String::new(), String::new(), String::new());
        loop
            invariant
                device.bus_num == 0,
                device.dev_num == 0,
                device.manufacturer@ == Seq::<char>::empty(),
                device.product@ == Seq::<char>::empty(),
                device.serial@ == Seq::<char>::empty(),
                tree_from(device.device@, descs.descriptor@) == goal,
            ensures
                device.device@ == goal,
            decreases descs.descriptor@.len(),
        {
            let ghost before = device.device@;
            let record = match descs.next() {
                Some(record) => record,
                None => { break; },
            };
            let ghost hung = attach(before, record@);
            match record {
                DescriptorType::Configuration(conf) => {
                    device.device.configurations.push(conf);
                    assert(device.device@.configurations =~~= hung.configurations);
                },
                DescriptorType::Interface(iface) => {
                    let n = device.device.configurations.len();
                    if n > 0 {
                        device.device.configurations[n - 1].interfaces.push(iface);
                        assert(device.device@.configurations[n - 1].interfaces
                            =~~= hung.configurations[n - 1].interfaces);
                        assert(device.device@.configurations =~~= hung.configurations);
                    }
                },
                DescriptorType::Endpoint(endpoint) => {
                    let n = device.device.configurations.len();
                    if n > 0 {
                        let m = device.device.configurations[n - 1].interfaces.len();
                        if m > 0 {
                            device.device.configurations[n - 1].interfaces[m - 1].endpoints.push(endpoint);
                            assert(device.device@.configurations[n - 1].interfaces[m - 1].endpoints
                                =~~= hung.configurations[n - 1].interfaces[m - 1].endpoints);
                            assert(device.device@.configurations[n - 1].interfaces
                                =~~= hung.configurations[n - 1].interfaces);
                            assert(device.device@.configurations =~~= hung.configurations);
                        }
                    }
                },
                _ => {},
            }
        }
        Ok(device)
    }
}

} // verus!
