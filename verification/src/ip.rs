//! IP addresses as plain values, and parsing of dotted-quad IPv4 text.
//!
//! An address is held as its numeric components, so that record-type
//! selection (A for IPv4, AAAA for IPv6) and entry parsing are ordinary
//! verified logic.
use vstd::prelude::*;

use crate::text::{split_bytes, split_on, views_of};

verus! {

/// An IP address: four octets for IPv4, the 128-bit value for IPv6.
#[derive(Clone, Copy, Debug, PartialEq, Eq, Structural)]
pub enum IpAddress {
    V4(u8, u8, u8, u8),
    V6(u128),
}

/// The address-record types this service emits, and a catch-all for every
/// other query type (which the router never consults).
#[derive(Clone, Copy, Debug, PartialEq, Eq, Structural)]
pub enum RecordType {
    A,
    AAAA,
    Other,
}

/// The record type an address is published under.
pub open spec fn rtype_of(a: IpAddress) -> RecordType {
    match a {
        IpAddress::V4(_, _, _, _) => RecordType::A,
        IpAddress::V6(_) => RecordType::AAAA,
    }
}

impl IpAddress {
    /// A records carry IPv4 addresses, AAAA records IPv6 addresses.
    pub fn record_type(&self) -> (r: RecordType)
        ensures
            r == rtype_of(*self),
    {
        match self {
            IpAddress::V4(_, _, _, _) => RecordType::A,
            IpAddress::V6(_) => RecordType::AAAA,
        }
    }
}

/// An ASCII decimal digit.
pub open spec fn is_digit(b: u8) -> bool {
    48 <= b <= 57
}

/// The number a sequence of decimal digits denotes.
pub open spec fn dec_val(p: Seq<u8>) -> int
    decreases p.len(),
{
    if p.len() == 0 {
        0
    } else {
        dec_val(p.drop_last()) * 10 + (p.last() - 48)
    }
}

/// A valid textual octet: one to three digits, value at most 255, and no
/// leading zero except for `0` itself.
pub open spec fn is_octet(p: Seq<u8>) -> bool {
    &&& 1 <= p.len() <= 3
    &&& forall|i: int| 0 <= i < p.len() ==> is_digit(#[trigger] p[i])
    &&& dec_val(p) <= 255
    &&& p.len() > 1 ==> p[0] != 48
}

/// What a textual IPv4 address denotes: four dot-separated valid octets,
/// or nothing.
pub open spec fn parse_ipv4_spec(s: Seq<u8>) -> Option<IpAddress> {
    let parts = split_on(s, 46);
    if parts.len() == 4 && is_octet(parts[0]) && is_octet(parts[1]) && is_octet(parts[2])
        && is_octet(parts[3]) {
        Some(
            IpAddress::V4(
                dec_val(parts[0]) as u8,
                dec_val(parts[1]) as u8,
                dec_val(parts[2]) as u8,
                dec_val(parts[3]) as u8,
            ),
        )
    } else {
        None
    }
}

/// Parse one textual octet.
fn parse_octet(p: &[u8]) -> (r: Option<u8>)
    ensures
        match r {
            Some(v) => is_octet(p@) && v == dec_val(p@),
            None => !is_octet(p@),
        },
{
    if p.len() < 1 || p.len() > 3 {
        return None;
    }
    if p.len() > 1 && p[0] == 48 {
        return None;
    }
    let mut val: u32 = 0;
    let mut i: usize = 0;
    while i < p.len()
        invariant
            0 <= i <= p@.len(),
            1 <= p@.len() <= 3,
            forall|j: int| 0 <= j < i ==> is_digit(#[trigger] p@[j]),
            val == dec_val(p@.take(i as int)),
            val <= 999,
            i < p@.len() ==> val <= 99,
            i + 1 < p@.len() ==> val <= 9,
        decreases p@.len() - i,
    {
        let b = p[i];
        if b < 48 || b > 57 {
            return None;
        }
        proof {
            assert(p@.take(i + 1).drop_last() =~= p@.take(i as int));
            assert(dec_val(p@.take(i + 1)) == val * 10 + (b - 48));
        }
        val = val * 10 + ((b - 48) as u32);
        i = i + 1;
    }
    proof {
        assert(p@.take(p@.len() as int) =~= p@);
    }
    if val > 255 {
        return None;
    }
    Some(val as u8)
}

/// Parse a dotted-quad IPv4 address, exactly as `parse_ipv4_spec` reads it.
pub fn parse_ipv4(s: &[u8]) -> (r: Option<IpAddress>)
    ensures
        r == parse_ipv4_spec(s@),
{
    let parts = split_bytes(s, 46);
    proof {
        assert(views_of(parts@).len() == parts@.len());
    }
    if parts.len() != 4 {
        return None;
    }
    proof {
        assert forall|i: int| 0 <= i < 4 implies parts@[i]@ == split_on(s@, 46)[i] by {
            assert(views_of(parts@)[i] == parts@[i]@);
        }
    }
    let a = match parse_octet(parts[0].as_slice()) {
        Some(v) => v,
        None => {
            return None;
        },
    };
    let b = match parse_octet(parts[1].as_slice()) {
        Some(v) => v,
        None => {
            return None;
        },
    };
    let c = match parse_octet(parts[2].as_slice()) {
        Some(v) => v,
        None => {
            return None;
        },
    };
    let d = match parse_octet(parts[3].as_slice()) {
        Some(v) => v,
        None => {
            return None;
        },
    };
    Some(IpAddress::V4(a, b, c, d))
}

} // verus!
