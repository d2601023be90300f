//! The interface descriptor.
use crate::descriptors::endpoint::Endpoint;
use vstd::prelude::*;

verus! {

/// An interface descriptor (nine bytes on the wire) with the endpoint
/// descriptors that follow it.
#[derive(Debug, Clone, PartialEq, Eq)]
pub struct Interface {
    pub length: u8,
    pub kind: u8,
    pub interface_number: u8,
    pub alternate_setting: u8,
    pub num_endpoints: u8,
    pub interface_class: u8,
    pub interface_sub_class: u8,
    pub interface_protocol: u8,
    pub iinterface: u8,
    pub endpoints: Vec<Endpoint>,
}

/// What an [`Interface`] holds, as a mathematical value.
pub struct InterfaceView {
    pub length: u8,
    pub kind: u8,
    pub interface_number: u8,
    pub alternate_setting: u8,
    pub num_endpoints: u8,
    pub interface_class: u8,
    pub interface_sub_class: u8,
    pub interface_protocol: u8,
    pub iinterface: u8,
    pub endpoints: Seq<Endpoint>,
}

impl InterfaceView {
    /// The same interface with `endpoint` added behind its endpoints.
    pub open spec fn with_endpoint(self, endpoint: Endpoint) -> InterfaceView {
        InterfaceView { endpoints: self.endpoints.push(endpoint), ..self }
    }
}

impl View for Interface {
    type V = InterfaceView;

    open spec fn view(&self) -> InterfaceView {
        InterfaceView {
            length: self.length,
            kind: self.kind,
            interface_number: self.interface_number,
            alternate_setting: self.alternate_setting,
            num_endpoints: self.num_endpoints,
            interface_class: self.interface_class,
            interface_sub_class: self.interface_sub_class,
            interface_protocol: self.interface_protocol,
            iinterface: self.iinterface,
            endpoints: self.endpoints@,
        }
    }
}

impl Interface {
    /// Number of bytes an interface descriptor is read from.
    pub const WIRE_LEN: usize = 9;

    /// The interface whose fields are the first nine bytes of `bytes`, with
    /// no endpoints yet.
    pub open spec fn parse(bytes: Seq<u8>) -> InterfaceView
        recommends
            bytes.len() >= 9,
    {
        InterfaceView {
            length: bytes[0],
            kind: bytes[1],
            interface_number: bytes[2],
            alternate_setting: bytes[3],
            num_endpoints: bytes[4],
            interface_class: bytes[5],
            interface_sub_class: bytes[6],
            interface_protocol: bytes[7],
            iinterface: bytes[8],
            endpoints: Seq::empty(),
        }
    }

    /// Reads an interface descriptor from the front of `bytes`, or `None`
    /// where fewer than nine bytes are there.
    pub fn new(bytes: &[u8]) -> (r: Option<Self>)
        ensures
            bytes@.len() >= 9 ==> r is Some && r->0@ == Self::parse(bytes@),
            bytes@.len() < 9 ==> r is None,
    {
        if bytes.len() < Self::WIRE_LEN {
            return None;
        }
        Some(
            Interface {
                length: bytes[0],
                kind: bytes[1],
                interface_number: bytes[2],
                alternate_setting: bytes[3],
                num_endpoints: bytes[4],
                interface_class: bytes[5],
                interface_sub_class: bytes[6],
                interface_protocol: bytes[7],
                iinterface: bytes[8],
                endpoints: Vec::new(),
            },
        )
    }
}

} // verus!
