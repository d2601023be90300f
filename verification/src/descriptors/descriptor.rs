//! Walking a descriptor byte stream record by record.
//!
//! A stream is a run of records, each led by a length byte and a type byte.
//! [`Descriptor::next`] takes one record off the front and says what kind it
//! is; [`next_record`] is the same step on a mathematical sequence.
use super::configuration::{Configuration, ConfigurationView};
use super::device::{Device, DeviceView};
use super::endpoint::Endpoint;
use super::interface::{Interface, InterfaceView};
use crate::error::UsbError;
use vstd::prelude::*;

verus! {

/// Type byte of a device descriptor.
pub const KIND_DEVICE: u8 = 1;

/// Type byte of a configuration descriptor.
pub const KIND_CONFIGURATION: u8 = 2;

/// Type byte of a string descriptor.
pub const KIND_STRING: u8 = 3;

/// Type byte of an interface descriptor.
pub const KIND_INTERFACE: u8 = 4;

/// Type byte of an endpoint descriptor.
pub const KIND_ENDPOINT: u8 = 5;

/// The descriptor bytes that are still to be walked.
#[derive(Debug, Clone, PartialEq, Eq)]
pub struct Descriptor {
    pub descriptor: Vec<u8>,
}

/// One record of a descriptor stream.
#[derive(Debug, Clone, PartialEq, Eq)]
pub enum DescriptorType {
    Device(Device),
    Configuration(Configuration),
    /// A string descriptor. The walk does not decode it: strings are read
    /// from the device by index, so the text here is empty.
    String(String),
    Interface(Interface),
    Endpoint(Endpoint),
    ClassSpecific,
    Hub,
    SsEndpointCompanion,
    /// A record of a type the walk does not know, with its raw bytes.
    Unknown(Vec<u8>),
}

/// What a [`DescriptorType`] holds, as a mathematical value.
pub enum DescriptorTypeView {
    Device(DeviceView),
    Configuration(ConfigurationView),
    String(Seq<char>),
    Interface(InterfaceView),
    Endpoint(Endpoint),
    ClassSpecific,
    Hub,
    SsEndpointCompanion,
    Unknown(Seq<u8>),
}

impl View for DescriptorType {
    type V = DescriptorTypeView;

    open spec fn view(&self) -> DescriptorTypeView {
        match self {
            DescriptorType::Device(d) => DescriptorTypeView::Device(d@),
            DescriptorType::Configuration(c) => DescriptorTypeView::Configuration(c@),
            DescriptorType::String(s) => DescriptorTypeView::String(s@),
            DescriptorType::Interface(i) => DescriptorTypeView::Interface(i@),
            DescriptorType::Endpoint(e) => DescriptorTypeView::Endpoint(*e),
            DescriptorType::ClassSpecific => DescriptorTypeView::ClassSpecific,
            DescriptorType::Hub => DescriptorTypeView::Hub,
            DescriptorType::SsEndpointCompanion => DescriptorTypeView::SsEndpointCompanion,
            DescriptorType::Unknown(b) => DescriptorTypeView::Unknown(b@),
        }
    }
}

/// Whether the length byte at the front of `bytes` describes a record that
/// can be taken off: the stream holds both header bytes, the record lies
/// within the stream, and its length is not the bare header's.
pub open spec fn header_ok(bytes: Seq<u8>) -> bool {
    &&& bytes.len() >= 2
    &&& bytes[0] as int <= bytes.len()
    &&& bytes[0] != 2
}

/// The first record of `bytes` and the bytes that follow it, or `None` where
/// the walk ends.
///
/// A record of a known type is read from as many bytes as its fixed layout
/// has, whatever its length byte says, and the walk goes on behind the length
/// that the record states. A record of an unknown type is handed out raw and
/// ends the walk. The walk also ends at a malformed header, at a fixed-layout
/// record that the stream is too short for, and at a record of a known type
/// that states length zero, which could not be stepped over.
pub open spec fn next_record(bytes: Seq<u8>) -> Option<(DescriptorTypeView, Seq<u8>)> {
    if !header_ok(bytes) {
        None
    } else {
        let dlength = bytes[0] as int;
        let kind = bytes[1];
        let rest = bytes.skip(dlength);
        if kind == KIND_DEVICE {
            if dlength > 0 && bytes.len() >= 18 {
                Some((DescriptorTypeView::Device(Device::parse(bytes)), rest))
            } else {
                None
            }
        } else if kind == KIND_CONFIGURATION {
            if dlength > 0 && bytes.len() >= 9 {
                Some((DescriptorTypeView::Configuration(Configuration::parse(bytes)), rest))
            } else {
                None
            }
        } else if kind == KIND_STRING {
            if dlength > 0 {
                Some((DescriptorTypeView::String(Seq::empty()), rest))
            } else {
                None
            }
        } else if kind == KIND_INTERFACE {
            if dlength > 0 && bytes.len() >= 9 {
                Some((DescriptorTypeView::Interface(Interface::parse(bytes)), rest))
            } else {
                None
            }
        } else if kind == KIND_ENDPOINT {
            if dlength > 0 && bytes.len() >= 7 {
                Some((DescriptorTypeView::Endpoint(Endpoint::parse(bytes)), rest))
            } else {
                None
            }
        } else {
            Some((DescriptorTypeView::Unknown(bytes.take(dlength)), Seq::empty()))
        }
    }
}

/// Every record taken off leaves a strictly shorter stream, so a walk ends.
pub proof fn lemma_next_record_shrinks(bytes: Seq<u8>)
    ensures
        next_record(bytes) matches Some((_, rest)) ==> rest.len() < bytes.len(),
{
}

impl Descriptor {
    /// Takes ownership of the raw descriptor bytes of a device.
    pub fn from_bytes(bytes: Vec<u8>) -> (r: Result<Self, UsbError>)
        ensures
            r is Ok,
            r->Ok_0.descriptor@ == bytes@,
    {
        Ok(Descriptor { descriptor: bytes })
    }

    /// Takes the next record off the front of the stream.
    ///
    /// Returns `None`, and leaves the stream as it is, where [`next_record`]
    /// finds no record.
    pub fn next(&mut self) -> (r: Option<DescriptorType>)
        ensures
            match next_record(old(self).descriptor@) {
                Some((record, rest)) => r is Some && r->0@ == record && final(self).descriptor@ == rest,
                None => r is None && final(self).descriptor@ == old(self).descriptor@,
            },
    {
        let len = self.descriptor.len();
        if len < 2 {
            return None;
        }
        let dlength = self.descriptor[0] as usize;
        if dlength > len || dlength == 2 {
            return None;
        }
        let kind = self.descriptor[1];
        if kind != KIND_DEVICE && kind != KIND_CONFIGURATION && kind != KIND_STRING
            && kind != KIND_INTERFACE && kind != KIND_ENDPOINT {
            let _rest = self.descriptor.split_off(dlength);
            let mut raw: Vec<u8> = Vec::new();
            core::mem::swap(&mut raw, &mut self.descriptor);
            return Some(DescriptorType::Unknown(raw));
        }
        if dlength == 0 {
            return None;
        }
        let record = if kind == KIND_DEVICE {
            DescriptorType::Device(Device::new(self.descriptor.as_slice())?)
        } else if kind == KIND_CONFIGURATION {
            DescriptorType::Configuration(Configuration::new(self.descriptor.as_slice())?)
        } else if kind == KIND_STRING {
            DescriptorType::String(String::new())
        } else if kind == KIND_INTERFACE {
            DescriptorType::Interface(Interface::new(self.descriptor.as_slice())?)
        } else {
            DescriptorType::Endpoint(Endpoint::new(self.descriptor.as_slice())?)
        };
        let rest = self.descriptor.split_off(dlength);
        self.descriptor = rest;
        Some(record)
    }
}

} // verus!
