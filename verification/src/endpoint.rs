//! Endpoint addresses.
//!
//! An endpoint address is one byte: bit 7 is the direction (set for IN, clear
//! for OUT) and bits 0 to 3 are the endpoint number. Address zero is the
//! control endpoint; a bulk endpoint always has a nonzero number.
use vstd::prelude::*;
use vstd::std_specs::convert::FromSpecImpl;

verus! {

/// Direction bit of an IN endpoint (device to host).
pub const ENDPOINT_IN: u8 = 0x80;

/// Direction bit of an OUT endpoint (host to device).
pub const ENDPOINT_OUT: u8 = 0x00;

/// An endpoint address byte.
#[derive(Clone, Copy, PartialEq, Eq, Structural, Debug)]
pub struct Endpoint(pub u8);

/// The endpoint number carried in bits 0 to 3 of an address.
pub open spec fn number_of(address: u8) -> int {
    address as int % 16
}

/// Whether bit 7 of an address is set, that is, the direction is IN.
pub open spec fn is_in(address: u8) -> bool {
    address >= 128
}

/// The address of the IN endpoint with the number `n % 16`.
pub open spec fn bulk_in_address(n: u8) -> u8 {
    (128 + n as int % 16) as u8
}

/// The address of the OUT endpoint with the number `n % 16`.
pub open spec fn bulk_out_address(n: u8) -> u8 {
    (n as int % 16) as u8
}

/// Masking with `0x0F` keeps the remainder by 16, and setting bit 7 over
/// it adds 128.
proof fn lemma_low_nibble(b: u8)
    ensures
        (b & 0x0F) as int == b as int % 16,
        (b & 0x0F) < 16,
        0x80u8 | (b & 0x0F) == 128 + (b & 0x0F),
{
    assert((b & 0x0F) == b % 16) by (bit_vector);
    assert((b & 0x0F) < 16) by (bit_vector);
    assert(0x80u8 | (b & 0x0F) == 128 + (b & 0x0F)) by (bit_vector);
}

/// Bit 7 of a byte is set exactly where the byte is at least 128.
proof fn lemma_direction_bit(b: u8)
    ensures
        (b & 0x80 == 0x80) <==> b >= 128,
        (b & 0x80 == 0) <==> b < 128,
{
    assert((b & 0x80 == 0x80) <==> b >= 128) by (bit_vector);
    assert((b & 0x80 == 0) <==> b < 128) by (bit_vector);
}

impl View for Endpoint {
    type V = u8;

    /// The address byte.
    open spec fn view(&self) -> u8 {
        self.0
    }
}

impl Endpoint {
    /// The endpoint with the given address, in specifications.
    pub open spec fn spec_new(ep: u8) -> Endpoint {
        Endpoint(ep)
    }

    /// The bulk OUT endpoint numbered `ep % 16`, in specifications.
    pub open spec fn spec_bulk_out(ep: u8) -> Endpoint {
        Self::spec_new(bulk_out_address(ep))
    }

    /// The bulk IN endpoint numbered `ep % 16`, in specifications.
    pub open spec fn spec_bulk_in(ep: u8) -> Endpoint {
        Self::spec_new(bulk_in_address(ep))
    }

    /// Address zero: the control endpoint.
    pub open spec fn spec_is_control(&self) -> bool {
        self@ == 0
    }

    /// Direction IN and a nonzero endpoint number.
    pub open spec fn spec_is_bulk_in(&self) -> bool {
        is_in(self@) && number_of(self@) != 0
    }

    /// Direction OUT and a nonzero endpoint number.
    pub open spec fn spec_is_bulk_out(&self) -> bool {
        !is_in(self@) && number_of(self@) != 0
    }

    /// Bulk in either direction.
    pub open spec fn spec_is_bulk(&self) -> bool {
        self.spec_is_bulk_in() || self.spec_is_bulk_out()
    }

    /// For every endpoint number from 1 to 15, the IN endpoint of that
    /// number is bulk IN and neither bulk OUT nor control, the OUT endpoint
    /// of that number is bulk OUT and neither bulk IN nor control, and
    /// address zero is control and neither bulk IN nor bulk OUT.
    pub proof fn lemma_classification(n: u8)
        requires
            1 <= n <= 15,
        ensures
            Self::spec_bulk_in(n).spec_is_bulk_in(),
            !Self::spec_bulk_in(n).spec_is_bulk_out(),
            !Self::spec_bulk_in(n).spec_is_control(),
            Self::spec_bulk_out(n).spec_is_bulk_out(),
            !Self::spec_bulk_out(n).spec_is_bulk_in(),
            !Self::spec_bulk_out(n).spec_is_control(),
            Self::spec_new(0).spec_is_control(),
            !Self::spec_new(0).spec_is_bulk_in(),
            !Self::spec_new(0).spec_is_bulk_out(),
    {
    }

    /// An endpoint is of at most one kind.
    pub proof fn lemma_kinds_exclusive(e: Endpoint)
        ensures
            !(e.spec_is_control() && e.spec_is_bulk()),
            !(e.spec_is_bulk_in() && e.spec_is_bulk_out()),
    {
    }

    /// Wraps an address byte as it is.
    #[verifier::when_used_as_spec(spec_new)]
    pub fn new(ep: u8) -> (e: Endpoint)
        ensures
            e == Self::spec_new(ep),
            e@ == ep,
    {
        Endpoint(ep)
    }

    /// The OUT endpoint whose number is the low four bits of `ep`.
    #[verifier::when_used_as_spec(spec_bulk_out)]
    pub fn bulk_out(ep: u8) -> (e: Endpoint)
        ensures
            e == Self::spec_bulk_out(ep),
            e@ == bulk_out_address(ep),
            e@ == ep as int % 16,
    {
        proof {
            lemma_low_nibble(ep);
        }
        Endpoint(ep & 0xF)
    }

    /// The IN endpoint whose number is the low four bits of `ep`.
    #[verifier::when_used_as_spec(spec_bulk_in)]
    pub fn bulk_in(ep: u8) -> (e: Endpoint)
        ensures
            e == Self::spec_bulk_in(ep),
            e@ == bulk_in_address(ep),
            e@ == 128 + ep as int % 16,
    {
        proof {
            lemma_low_nibble(ep);
        }
        Endpoint(ENDPOINT_IN | (ep & 0xF))
    }

    /// The address byte.
    pub fn address(&self) -> (a: u8)
        ensures
            a == self@,
    {
        self.0
    }

    /// Whether this is the control endpoint.
    #[verifier::when_used_as_spec(spec_is_control)]
    pub fn is_control(&self) -> (b: bool)
        ensures
            b == self.spec_is_control(),
    {
        self.0 == 0
    }

    /// Whether this is a bulk IN endpoint.
    #[verifier::when_used_as_spec(spec_is_bulk_in)]
    pub fn is_bulk_in(&self) -> (b: bool)
        ensures
            b == self.spec_is_bulk_in(),
    {
        proof {
            lemma_low_nibble(self.0);
            lemma_direction_bit(self.0);
        }
        self.0 & ENDPOINT_IN == ENDPOINT_IN && self.0 & 0x0F != 0
    }

    /// Whether this is a bulk OUT endpoint.
    #[verifier::when_used_as_spec(spec_is_bulk_out)]
    pub fn is_bulk_out(&self) -> (b: bool)
        ensures
            b == self.spec_is_bulk_out(),
    {
        proof {
            lemma_low_nibble(self.0);
            lemma_direction_bit(self.0);
        }
        self.0 & ENDPOINT_IN == 0 && self.0 & 0x0F != 0
    }

    /// What kind of endpoint this is, in words.
    pub open spec fn spec_label(&self) -> Seq<char> {
        if self.spec_is_bulk_in() {
            "Bulk In"@
        } else if self.spec_is_bulk_out() {
            "Bulk Out"@
        } else if self.spec_is_control() {
            "Control"@
        } else {
            "?TBD?"@
        }
    }

    /// What kind of endpoint this is, in words: `Bulk In`, `Bulk Out`,
    /// `Control`, or `?TBD?` for an address that is none of these.
    pub fn label(&self) -> (s: &'static str)
        ensures
            s@ == self.spec_label(),
    {
        if self.is_bulk_in() {
            "Bulk In"
        } else if self.is_bulk_out() {
            "Bulk Out"
        } else if self.is_control() {
            "Control"
        } else {
            "?TBD?"
        }
    }

    /// Whether this is a bulk endpoint of either direction.
    #[verifier::when_used_as_spec(spec_is_bulk)]
    pub fn is_bulk(&self) -> (b: bool)
        ensures
            b == self.spec_is_bulk(),
    {
        self.is_bulk_in() || self.is_bulk_out()
    }
}

impl From<Endpoint> for u8 {
    /// The address byte of the endpoint.
    fn from(ep: Endpoint) -> (a: u8) {
        ep.0
    }
}

impl FromSpecImpl<Endpoint> for u8 {
    open spec fn obeys_from_spec() -> bool {
        true
    }

    open spec fn from_spec(ep: Endpoint) -> u8 {
        ep@
    }
}

} // verus!
