//! MAC addresses.
use vstd::prelude::*;
use vstd::string::StringSliceAdditionalSpecFns;

use crate::field::{be_nat, read_be_at};
use crate::text::{all_hex_bytes, colon_hex, hex_bytes, parse_hex_parts, split_colon, split_colons, text_from_bytes, utf8_text, write_colon_hex};

verus! {

/// Error type for `MacAddr`.
#[derive(Debug, Clone, PartialEq, Eq)]
pub enum MacAddrError {
    /// A part is not a hexadecimal number below 256.
    ParseInt,
    /// The address does not have 6 octets.
    InvalidLength,
}

/// A MAC address.
#[derive(Debug, Default, Clone, PartialEq, Eq)]
pub struct MacAddr {
    octets: [u8; 6],
}

impl MacAddr {
    /// The six octets of the address.
    pub closed spec fn spec_octets(&self) -> Seq<u8> {
        self.octets@
    }

    /// An address from its six octets.
    pub fn new(a: u8, b: u8, c: u8, d: u8, e: u8, f: u8) -> (r: MacAddr)
        ensures
            r.spec_octets() == seq![a, b, c, d, e, f],
    {
        let r = MacAddr { octets: [a, b, c, d, e, f] };
        assert(r.octets@ =~= seq![a, b, c, d, e, f]);
        r
    }

    /// Parses an address written as colon-separated hexadecimal octets. A
    /// part that is not a hexadecimal byte is an error first; then the number
    /// of parts must be 6.
    pub fn from_str(s: &str) -> (r: Result<MacAddr, MacAddrError>)
        ensures
            r is Ok <==> (all_hex_bytes(split_colon(s.spec_bytes())) && split_colon(
                s.spec_bytes(),
            ).len() == 6),
            r matches Ok(a) ==> a.spec_octets() == hex_bytes(split_colon(s.spec_bytes())),
            r matches Err(e) ==> e == if !all_hex_bytes(split_colon(s.spec_bytes())) {
                MacAddrError::ParseInt
            } else {
                MacAddrError::InvalidLength
            },
    {
        let parts = split_colons(s.as_bytes());
        match parse_hex_parts(&parts) {
            Some(o) => {
                if o.len() != 6 {
                    return Err(MacAddrError::InvalidLength);
                }
                let r = MacAddr::new(o[0], o[1], o[2], o[3], o[4], o[5]);
                assert(r.spec_octets() =~= o@);
                Ok(r)
            },
            None => Err(MacAddrError::ParseInt),
        }
    }

    /// The six octets of the address.
    pub fn octets(&self) -> (r: [u8; 6])
        ensures
            r@ == self.spec_octets(),
    {
        self.octets
    }

    /// The address as text: its octets as lower-case hexadecimal pairs joined
    /// by colons.
    pub fn to_string(&self) -> (r: String)
        ensures
            r@ == utf8_text(colon_hex(self.spec_octets(), false)),
    {
        let b = write_colon_hex(self.octets.as_slice(), false);
        text_from_bytes(b.as_slice())
    }

    /// The address as a number, the first octet most significant.
    pub fn to_u64(&self) -> (r: u64)
        ensures
            r as nat == be_nat(self.spec_octets()),
    {
        let r = read_be_at(self.octets.as_slice(), 0, 6);
        assert(self.octets@.subrange(0, 6) =~= self.octets@);
        r
    }
}

} // verus!
