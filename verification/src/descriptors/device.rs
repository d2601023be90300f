//! The device descriptor.
use super::{join_le16, le16};
use crate::descriptors::configuration::{Configuration, ConfigurationView};
use vstd::prelude::*;

verus! {

/// A device descriptor (eighteen bytes on the wire) with the configurations
/// that follow it.
#[derive(Debug, Clone, PartialEq, Eq)]
pub struct Device {
    pub length: u8,
    pub kind: u8,
    pub bcd_usb: u16,
    pub device_class: u8,
    pub device_sub_class: u8,
    pub device_protocol: u8,
    pub max_packet_size0: u8,
    pub id_vendor: u16,
    pub id_product: u16,
    pub bcd_device: u16,
    pub imanufacturer: u8,
    pub iproduct: u8,
    pub iserial: u8,
    pub num_configurations: u8,
    pub configurations: Vec<Configuration>,
}

/// What a [`Device`] holds, as a mathematical value.
pub struct DeviceView {
    pub length: u8,
    pub kind: u8,
    pub bcd_usb: u16,
    pub device_class: u8,
    pub device_sub_class: u8,
    pub device_protocol: u8,
    pub max_packet_size0: u8,
    pub id_vendor: u16,
    pub id_product: u16,
    pub bcd_device: u16,
    pub imanufacturer: u8,
    pub iproduct: u8,
    pub iserial: u8,
    pub num_configurations: u8,
    pub configurations: Seq<ConfigurationView>,
}

impl View for Device {
    type V = DeviceView;

    open spec fn view(&self) -> DeviceView {
        DeviceView {
            length: self.length,
            kind: self.kind,
            bcd_usb: self.bcd_usb,
            device_class: self.device_class,
            device_sub_class: self.device_sub_class,
            device_protocol: self.device_protocol,
            max_packet_size0: self.max_packet_size0,
            id_vendor: self.id_vendor,
            id_product: self.id_product,
            bcd_device: self.bcd_device,
            imanufacturer: self.imanufacturer,
            iproduct: self.iproduct,
            iserial: self.iserial,
            num_configurations: self.num_configurations,
            configurations: self.configurations@.map_values(|c: Configuration| c@),
        }
    }
}

impl Device {
    /// Number of bytes a device descriptor is read from.
    pub const WIRE_LEN: usize = 18;

    /// The device whose fields are the first eighteen bytes of `bytes`, with
    /// no configurations yet.
    pub open spec fn parse(bytes: Seq<u8>) -> DeviceView
        recommends
            bytes.len() >= 18,
    {
        DeviceView {
            length: bytes[0],
            kind: bytes[1],
            bcd_usb: le16(bytes[2], bytes[3]),
            device_class: bytes[4],
            device_sub_class: bytes[5],
            device_protocol: bytes[6],
            max_packet_size0: bytes[7],
            id_vendor: le16(bytes[8], bytes[9]),
            id_product: le16(bytes[10], bytes[11]),
            bcd_device: le16(bytes[12], bytes[13]),
            imanufacturer: bytes[14],
            iproduct: bytes[15],
            iserial: bytes[16],
            num_configurations: bytes[17],
            configurations: Seq::empty(),
        }
    }

    /// Reads a device descriptor from the front of `bytes`, or `None` where
    /// fewer than eighteen bytes are there.
    pub fn new(bytes: &[u8]) -> (r: Option<Self>)
        ensures
            bytes@.len() >= 18 ==> r is Some && r->0@ == Self::parse(bytes@),
            bytes@.len() < 18 ==> r is None,
    {
        if bytes.len() < Self::WIRE_LEN {
            return None;
        }
        let d = Device {
            length: bytes[0],
            kind: bytes[1],
            bcd_usb: join_le16(bytes[2], bytes[3]),
            device_class: bytes[4],
            device_sub_class: bytes[5],
            device_protocol: bytes[6],
            max_packet_size0: bytes[7],
            id_vendor: join_le16(bytes[8], bytes[9]),
            id_product: join_le16(bytes[10], bytes[11]),
            bcd_device: join_le16(bytes[12], bytes[13]),
            imanufacturer: bytes[14],
            iproduct: bytes[15],
            iserial: bytes[16],
            num_configurations: bytes[17],
            configurations: Vec::new(),
        };
        assert(d@.configurations =~= Seq::empty());
        Some(d)
    }
}

} // verus!
