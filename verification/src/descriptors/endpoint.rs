//! The endpoint descriptor.
use super::{join_le16, le16};
use vstd::prelude::*;

verus! {

/// An endpoint descriptor: seven bytes on the wire.
#[derive(Debug, Clone, Copy, PartialEq, Eq)]
pub struct Endpoint {
    pub length: u8,
    pub kind: u8,
    pub endpoint_address: u8,
    pub bm_attributes: u8,
    pub max_packet_size: u16,
    pub interval: u8,
}

impl Endpoint {
    /// Number of bytes an endpoint descriptor is read from.
    pub const WIRE_LEN: usize = 7;

    /// The record whose fields are the first seven bytes of `bytes`.
    pub open spec fn parse(bytes: Seq<u8>) -> Endpoint
        recommends
            bytes.len() >= 7,
    {
        Endpoint {
            length: bytes[0],
            kind: bytes[1],
            endpoint_address: bytes[2],
            bm_attributes: bytes[3],
            max_packet_size: le16(bytes[4], bytes[5]),
            interval: bytes[6],
        }
    }

    /// Reads an endpoint descriptor from the front of `bytes`, or `None`
    /// where fewer than seven bytes are there.
    pub fn new(bytes: &[u8]) -> (r: Option<Self>)
        ensures
            bytes@.len() >= 7 ==> r == Some(Self::parse(bytes@)),
            bytes@.len() < 7 ==> r is None,
    {
        if bytes.len() < Self::WIRE_LEN {
            return None;
        }
        Some(
            Endpoint {
                length: bytes[0],
                kind: bytes[1],
                endpoint_address: bytes[2],
                bm_attributes: bytes[3],
                max_packet_size: join_le16(bytes[4], bytes[5]),
                interval: bytes[6],
            },
        )
    }
}

} // verus!
