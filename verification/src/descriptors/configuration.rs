//! The configuration descriptor.
use super::{join_le16, le16};
use crate::descriptors::interface::{Interface, InterfaceView};
use vstd::prelude::*;

verus! {

/// A configuration descriptor (nine bytes on the wire) with the interfaces
/// that follow it.
#[derive(Debug, Clone, PartialEq, Eq)]
pub struct Configuration {
    pub length: u8,
    pub kind: u8,
    pub total_length: u16,
    pub num_interfaces: u8,
    pub configuration_value: u8,
    pub iconfiguration: u8,
    pub bmattributes: u8,
    pub max_power: u8,
    pub interfaces: Vec<Interface>,
}

/// What a [`Configuration`] holds, as a mathematical value.
pub struct ConfigurationView {
    pub length: u8,
    pub kind: u8,
    pub total_length: u16,
    pub num_interfaces: u8,
    pub configuration_value: u8,
    pub iconfiguration: u8,
    pub bmattributes: u8,
    pub max_power: u8,
    pub interfaces: Seq<InterfaceView>,
}

impl ConfigurationView {
    /// The same configuration with `interface` added behind its interfaces.
    pub open spec fn with_interface(self, interface: InterfaceView) -> ConfigurationView {
        ConfigurationView { interfaces: self.interfaces.push(interface), ..self }
    }

    /// The same configuration with its last interface replaced.
    pub open spec fn with_last_interface(self, interface: InterfaceView) -> ConfigurationView
        recommends
            self.interfaces.len() > 0,
    {
        ConfigurationView {
            interfaces: self.interfaces.update(self.interfaces.len() - 1, interface),
            ..self
        }
    }
}

impl View for Configuration {
    type V = ConfigurationView;

    open spec fn view(&self) -> ConfigurationView {
        ConfigurationView {
            length: self.length,
            kind: self.kind,
            total_length: self.total_length,
            num_interfaces: self.num_interfaces,
            configuration_value: self.configuration_value,
            iconfiguration: self.iconfiguration,
            bmattributes: self.bmattributes,
            max_power: self.max_power,
            interfaces: self.interfaces@.map_values(|i: Interface| i@),
        }
    }
}

impl Configuration {
    /// Number of bytes a configuration descriptor is read from.
    pub const WIRE_LEN: usize = 9;

    /// The configuration whose fields are the first nine bytes of `bytes`,
    /// with no interfaces yet.
    pub open spec fn parse(bytes: Seq<u8>) -> ConfigurationView
        recommends
            bytes.len() >= 9,
    {
        ConfigurationView {
            length: bytes[0],
            kind: bytes[1],
            total_length: le16(bytes[2], bytes[3]),
            num_interfaces: bytes[4],
            configuration_value: bytes[5],
            iconfiguration: bytes[6],
            bmattributes: bytes[7],
            max_power: bytes[8],
            interfaces: Seq::empty(),
        }
    }

    /// Reads a configuration descriptor from the front of `bytes`, or `None`
    /// where fewer than nine bytes are there.
    pub fn new(bytes: &[u8]) -> (r: Option<Self>)
        ensures
            bytes@.len() >= 9 ==> r is Some && r->0@ == Self::parse(bytes@),
            bytes@.len() < 9 ==> r is None,
    {
        if bytes.len() < Self::WIRE_LEN {
            return None;
        }
        let c = Configuration {
            length: bytes[0],
            kind: bytes[1],
            total_length: join_le16(bytes[2], bytes[3]),
            num_interfaces: bytes[4],
            configuration_value: bytes[5],
            iconfiguration: bytes[6],
            bmattributes: bytes[7],
            max_power: bytes[8],
            interfaces: Vec::new(),
        };
        assert(c@.interfaces =~= Seq::empty());
        Some(c)
    }
}

} // verus!
