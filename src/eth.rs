//! Ethernet layer.
use vstd::prelude::*;
use vstd::slice::{slice_subrange, slice_to_vec};

use crate::eth_type::EthType;
use crate::field::{append_bytes, be_bytes, be_nat, read_be_at, splice, write_be_at, zeros};
use crate::field::field_at;
use crate::ipv4::{self, Ipv4};
use crate::udp;
use crate::text::{all_hex_bytes, colon_hex, decimal, hex_bytes, parse_hex_parts, push_decimal, push_str, split_colon, split_colons, text_from_bytes, utf8_text, write_colon_hex};
use vstd::string::StringSliceAdditionalSpecFns;

verus! {

/// Minimum length of an Ethernet header.
pub const MIN_HEADER_LENGTH: usize = 14;

/// Error type for the Ethernet layer.
#[derive(Debug, Clone, PartialEq, Eq)]
pub enum EthError {
    /// The buffer is shorter than the 14 bytes of a header; holds its length.
    InvalidLength(usize),
}

/// Error type for `EthAddr`.
#[derive(Debug, Clone, PartialEq, Eq)]
pub enum EthAddrError {
    /// The address does not have 6 octets; holds the number it has.
    InvalidLength(usize),
    /// An octet is not a hexadecimal number below 256.
    ParseInt,
}

/// Ethernet MAC address.
#[derive(Debug, Default, Clone, Copy, PartialEq, Eq, Hash)]
pub struct EthAddr {
    octets: [u8; 6],
}

impl EthAddr {
    /// The six octets of the address.
    pub closed spec fn spec_octets(self) -> Seq<u8> {
        self.octets@
    }

    /// An address from its six octets.
    pub fn new(a: u8, b: u8, c: u8, d: u8, e: u8, f: u8) -> (r: EthAddr)
        ensures
            r.spec_octets() == seq![a, b, c, d, e, f],
    {
        let r = EthAddr { octets: [a, b, c, d, e, f] };
        assert(r.octets@ =~= seq![a, b, c, d, e, f]);
        r
    }

    /// An address from a slice of exactly six octets.
    pub fn from_slice(s: &[u8]) -> (r: EthAddr)
        requires
            s@.len() == 6,
        ensures
            r.spec_octets() == s@,
    {
        let r = EthAddr::new(s[0], s[1], s[2], s[3], s[4], s[5]);
        assert(r.spec_octets() =~= s@);
        r
    }

    /// Parses an address written as colon-separated hexadecimal octets. A
    /// part that is not a hexadecimal byte is an error first; then the number
    /// of parts must be 6.
    pub fn from_str(s: &str) -> (r: Result<EthAddr, EthAddrError>)
        ensures
            r is Ok <==> (all_hex_bytes(split_colon(s.spec_bytes())) && split_colon(
                s.spec_bytes(),
            ).len() == 6),
            r matches Ok(a) ==> a.spec_octets() == hex_bytes(split_colon(s.spec_bytes())),
            r matches Err(e) ==> e == if !all_hex_bytes(split_colon(s.spec_bytes())) {
                EthAddrError::ParseInt
            } else {
                EthAddrError::InvalidLength(split_colon(s.spec_bytes()).len() as usize)
            },
    {
        let parts = split_colons(s.as_bytes());
        match parse_hex_parts(&parts) {
            Some(octets) => {
                if octets.len() != 6 {
                    return Err(EthAddrError::InvalidLength(octets.len()));
                }
                Ok(EthAddr::from_slice(octets.as_slice()))
            },
            None => Err(EthAddrError::ParseInt),
        }
    }

    /// The six octets of the address.
    pub fn octets(&self) -> (r: [u8; 6])
        ensures
            r@ == self.spec_octets(),
    {
        self.octets
    }

    /// The address as text, in bytes: its octets as upper-case hexadecimal
    /// pairs joined by colons.
    pub fn text_bytes(&self) -> (r: Vec<u8>)
        ensures
            r@ == colon_hex(self.spec_octets(), true),
    {
        write_colon_hex(self.octets.as_slice(), true)
    }

    /// The address as text: its octets as upper-case hexadecimal pairs joined
    /// by colons.
    pub fn to_string(&self) -> (r: String)
        ensures
            r@ == utf8_text(colon_hex(self.spec_octets(), true)),
    {
        let b = self.text_bytes();
        text_from_bytes(b.as_slice())
    }

    /// The address as a number, the first octet most significant.
    pub fn to_u64(&self) -> (r: u64)
        ensures
            r as nat == be_nat(self.spec_octets()),
    {
        let r = read_be_at(self.octets.as_slice(), 0, 6);
        assert(self.octets@.subrange(0, 6) =~= self.octets@);
        r
    }
}

/// The text of an Ethernet type: its name, and for a reserved type its code
/// in decimal between parentheses.
pub open spec fn type_text(t: EthType) -> Seq<u8> {
    vstd::utf8::encode_utf8(t.spec_name()) + match t {
        EthType::Reserved(v) => "(".spec_bytes() + decimal(v as nat) + ")".spec_bytes(),
        _ => Seq::empty(),
    }
}

/// An Ethernet frame over an owned buffer.
pub struct Eth {
    data: Vec<u8>,
}

impl Eth {
    /// The frame's bytes.
    pub closed spec fn bytes(&self) -> Seq<u8> {
        self.data@
    }

    /// The buffer holds a whole header.
    pub open spec fn wf(&self) -> bool {
        self.bytes().len() >= MIN_HEADER_LENGTH
    }

    /// The Ethernet type code held at bytes 12..14.
    pub open spec fn spec_eth_type(&self) -> EthType {
        EthType::spec_from_raw(be_nat(self.bytes().subrange(12, 14)) as u16)
    }

    /// The text that describes the frame's header, in bytes: both addresses
    /// and the type's name, with the code of a reserved type.
    pub open spec fn spec_debug(&self) -> Seq<u8> {
        "Eth { dst: ".spec_bytes() + colon_hex(self.bytes().subrange(0, 6), true)
            + ", src: ".spec_bytes() + colon_hex(self.bytes().subrange(6, 12), true)
            + ", eth_type: ".spec_bytes() + type_text(self.spec_eth_type()) + " }".spec_bytes()
    }

    /// Checks that the buffer holds a whole header.
    pub fn validate(&self) -> (r: Result<(), EthError>)
        ensures
            r == if self.bytes().len() >= MIN_HEADER_LENGTH {
                Ok(())
            } else {
                Err(EthError::InvalidLength(self.bytes().len() as usize))
            },
    {
        if self.data.len() < MIN_HEADER_LENGTH {
            return Err(EthError::InvalidLength(self.data.len()));
        }
        Ok(())
    }

    /// A frame over `data`, if it holds a whole header.
    pub fn new(data: Vec<u8>) -> (r: Result<Eth, EthError>)
        ensures
            r is Ok <==> data@.len() >= MIN_HEADER_LENGTH,
            r matches Ok(e) ==> e.bytes() == data@,
            r matches Err(e) ==> e == EthError::InvalidLength(data@.len() as usize),
    {
        let res = Eth { data };
        match res.validate() {
            Ok(()) => Ok(res),
            Err(e) => Err(e),
        }
    }

    /// The frame's bytes.
    pub fn inner(&self) -> (r: &Vec<u8>)
        ensures
            r@ == self.bytes(),
    {
        &self.data
    }

    /// The destination address, bytes 0..6.
    pub fn dst(&self) -> (r: EthAddr)
        requires
            self.wf(),
        ensures
            r.spec_octets() == self.bytes().subrange(0, 6),
    {
        EthAddr::from_slice(slice_subrange(self.data.as_slice(), 0, 6))
    }

    /// The source address, bytes 6..12.
    pub fn src(&self) -> (r: EthAddr)
        requires
            self.wf(),
        ensures
            r.spec_octets() == self.bytes().subrange(6, 12),
    {
        EthAddr::from_slice(slice_subrange(self.data.as_slice(), 6, 12))
    }

    /// The Ethernet type, bytes 12..14.
    pub fn eth_type(&self) -> (r: EthType)
        requires
            self.wf(),
        ensures
            r == self.spec_eth_type(),
    {
        EthType::from_raw(read_be_at(self.data.as_slice(), 12, 2) as u16)
    }

    /// The payload: the bytes after the header.
    pub fn payload(&self) -> (r: &[u8])
        requires
            self.wf(),
        ensures
            r@ == self.bytes().subrange(MIN_HEADER_LENGTH as int, self.bytes().len() as int),
    {
        slice_subrange(self.data.as_slice(), MIN_HEADER_LENGTH, self.data.len())
    }

    /// The IPv4 packet in the payload, if the type is IPv4 and the payload
    /// holds a whole IPv4 header.
    pub fn ipv4(&self) -> (r: Option<Ipv4>)
        requires
            self.wf(),
        ensures
            r is Some <==> (self.spec_eth_type() == EthType::Ipv4 && self.bytes().len()
                - MIN_HEADER_LENGTH >= ipv4::MIN_HEADER_LENGTH),
            r matches Some(p) ==> p.bytes() == self.bytes().subrange(
                MIN_HEADER_LENGTH as int,
                self.bytes().len() as int,
            ),
    {
        if matches!(self.eth_type(), EthType::Ipv4) {
            match Ipv4::new(slice_to_vec(self.payload())) {
                Ok(p) => Some(p),
                Err(_) => None,
            }
        } else {
            None
        }
    }

    /// The text that describes the frame's header: both addresses and the
    /// type's name, with the code of a reserved type.
    pub fn debug_string(&self) -> (r: String)
        requires
            self.wf(),
        ensures
            r@ == utf8_text(self.spec_debug()),
    {
        let mut out: Vec<u8> = Vec::new();
        push_str(&mut out, "Eth { dst: ");
        let dst = self.dst().text_bytes();
        crate::field::append_bytes(&mut out, dst.as_slice());
        push_str(&mut out, ", src: ");
        let src = self.src().text_bytes();
        crate::field::append_bytes(&mut out, src.as_slice());
        push_str(&mut out, ", eth_type: ");
        let t = self.eth_type();
        push_str(&mut out, t.as_ref());
        match t {
            EthType::Reserved(v) => {
                push_str(&mut out, "(");
                push_decimal(&mut out, v as u64);
                push_str(&mut out, ")");
            },
            _ => {},
        }
        push_str(&mut out, " }");
        assert(out@ =~= self.spec_debug());
        text_from_bytes(out.as_slice())
    }

    /// Writes the destination address.
    pub fn dst_mut(&mut self, addr: EthAddr)
        requires
            old(self).wf(),
        ensures
            final(self).bytes() == splice(old(self).bytes(), 0, addr.spec_octets()),
            final(self).wf(),
            final(self).bytes().len() == old(self).bytes().len(),
    {
        let octets = addr.octets();
        crate::field::copy_into(&mut self.data, 0, octets.as_slice());
    }

    /// Writes the source address.
    pub fn src_mut(&mut self, addr: EthAddr)
        requires
            old(self).wf(),
        ensures
            final(self).bytes() == splice(old(self).bytes(), 6, addr.spec_octets()),
            final(self).wf(),
            final(self).bytes().len() == old(self).bytes().len(),
    {
        let octets = addr.octets();
        crate::field::copy_into(&mut self.data, 6, octets.as_slice());
    }

    /// Writes the Ethernet type.
    pub fn eth_type_mut(&mut self, t: EthType)
        requires
            old(self).wf(),
        ensures
            final(self).bytes() == splice(old(self).bytes(), 12, be_bytes(t.spec_raw() as nat, 2)),
            final(self).wf(),
            final(self).bytes().len() == old(self).bytes().len(),
    {
        write_be_at(&mut self.data, 12, 2, t.raw() as u64);
    }

    /// Overwrites the payload with `p`, which has the payload's length.
    pub fn payload_mut(&mut self, p: &[u8])
        requires
            old(self).wf(),
            p@.len() == old(self).bytes().len() - MIN_HEADER_LENGTH,
        ensures
            final(self).bytes() == splice(old(self).bytes(), MIN_HEADER_LENGTH as int, p@),
            final(self).wf(),
            final(self).bytes().len() == old(self).bytes().len(),
    {
        crate::field::copy_into(&mut self.data, MIN_HEADER_LENGTH, p);
    }
}

/// Builder for [`Eth`].
pub struct EthBuilder {
    src: Option<EthAddr>,
    dst: Option<EthAddr>,
    eth_type: Option<EthType>,
    payload: Vec<u8>,
}

/// The all-zero address.
pub open spec fn zero_addr() -> Seq<u8> {
    seq![0u8, 0u8, 0u8, 0u8, 0u8, 0u8]
}

impl EthBuilder {
    pub closed spec fn spec_src(&self) -> Option<EthAddr> {
        self.src
    }

    pub closed spec fn spec_dst(&self) -> Option<EthAddr> {
        self.dst
    }

    pub closed spec fn spec_eth_type(&self) -> Option<EthType> {
        self.eth_type
    }

    pub closed spec fn spec_payload(&self) -> Seq<u8> {
        self.payload@
    }

    /// The bytes of the frame that `build` makes: each address, or the zero
    /// address, the type code, or 0xFFFF, then the payload.
    pub open spec fn spec_build(&self) -> Seq<u8> {
        (match self.spec_dst() {
            Some(a) => a.spec_octets(),
            None => zero_addr(),
        }) + (match self.spec_src() {
            Some(a) => a.spec_octets(),
            None => zero_addr(),
        }) + be_bytes(
            match self.spec_eth_type() {
                Some(t) => t.spec_raw() as nat,
                None => 0xFFFF,
            },
            2,
        ) + self.spec_payload()
    }

    /// A builder with no field set and an empty payload.
    pub fn new() -> (r: EthBuilder)
        ensures
            r.spec_src() is None,
            r.spec_dst() is None,
            r.spec_eth_type() is None,
            r.spec_payload() == Seq::<u8>::empty(),
    {
        EthBuilder { src: None, dst: None, eth_type: None, payload: Vec::new() }
    }

    /// Sets the source address.
    pub fn src(self, src: EthAddr) -> (r: EthBuilder)
        ensures
            r.spec_src() == Some(src),
            r.spec_dst() == self.spec_dst(),
            r.spec_eth_type() == self.spec_eth_type(),
            r.spec_payload() == self.spec_payload(),
    {
        EthBuilder { src: Some(src), ..self }
    }

    /// Sets the destination address.
    pub fn dst(self, dst: EthAddr) -> (r: EthBuilder)
        ensures
            r.spec_dst() == Some(dst),
            r.spec_src() == self.spec_src(),
            r.spec_eth_type() == self.spec_eth_type(),
            r.spec_payload() == self.spec_payload(),
    {
        EthBuilder { dst: Some(dst), ..self }
    }

    /// Sets the Ethernet type.
    pub fn eth_type(self, eth_type: EthType) -> (r: EthBuilder)
        ensures
            r.spec_eth_type() == Some(eth_type),
            r.spec_src() == self.spec_src(),
            r.spec_dst() == self.spec_dst(),
            r.spec_payload() == self.spec_payload(),
    {
        EthBuilder { eth_type: Some(eth_type), ..self }
    }

    /// Appends `payload` to the payload.
    pub fn payload(self, payload: &[u8]) -> (r: EthBuilder)
        ensures
            r.spec_payload() == self.spec_payload() + payload@,
            r.spec_src() == self.spec_src(),
            r.spec_dst() == self.spec_dst(),
            r.spec_eth_type() == self.spec_eth_type(),
    {
        let mut b = self;
        append_bytes(&mut b.payload, payload);
        b
    }

    /// Builds the frame: a zeroed buffer of header and payload, with each
    /// field written in turn.
    #[verifier::rlimit(50)]
    pub fn build(&self) -> (r: Eth)
        requires
            self.spec_payload().len() + MIN_HEADER_LENGTH <= usize::MAX,
        ensures
            r.wf(),
            r.bytes() == self.spec_build(),
    {
        let len = MIN_HEADER_LENGTH + self.payload.len();
        let mut eth = Eth { data: zeros(len) };
        let zero = EthAddr::new(0, 0, 0, 0, 0, 0);
        eth.src_mut(match self.src {
            Some(a) => a,
            None => zero,
        });
        eth.dst_mut(match self.dst {
            Some(a) => a,
            None => zero,
        });
        eth.eth_type_mut(match self.eth_type {
            Some(t) => t,
            None => EthType::Reserved(0xFFFF),
        });
        eth.payload_mut(self.payload.as_slice());
        proof {
            crate::field::lemma_carrier_round_trip(
                match self.eth_type {
                    Some(t) => t.spec_raw() as nat,
                    None => 0xFFFF,
                },
                2,
                true,
            );
        }
        assert(eth.bytes() =~= self.spec_build());
        eth
    }
}

/// A built frame reads back each address and the type code that was set,
/// or the defaults where none was, and the payload after the header.
pub proof fn lemma_build_reads_back(b: &EthBuilder)
    ensures
        b.spec_build().len() == MIN_HEADER_LENGTH + b.spec_payload().len(),
        b.spec_build().subrange(0, 6) == (match b.spec_dst() {
            Some(a) => a.spec_octets(),
            None => zero_addr(),
        }),
        b.spec_build().subrange(6, 12) == (match b.spec_src() {
            Some(a) => a.spec_octets(),
            None => zero_addr(),
        }),
        be_nat(b.spec_build().subrange(12, 14)) == (match b.spec_eth_type() {
            Some(t) => t.spec_raw() as nat,
            None => 0xFFFF,
        }),
        b.spec_build().subrange(MIN_HEADER_LENGTH as int, b.spec_build().len() as int)
            == b.spec_payload(),
{
    let dst = match b.spec_dst() {
        Some(a) => a.spec_octets(),
        None => zero_addr(),
    };
    let src = match b.spec_src() {
        Some(a) => a.spec_octets(),
        None => zero_addr(),
    };
    let code = match b.spec_eth_type() {
        Some(t) => t.spec_raw() as nat,
        None => 0xFFFF,
    };
    lemma_octets_len(b.spec_dst());
    lemma_octets_len(b.spec_src());
    crate::field::lemma_carrier_round_trip(code, 2, true);
    crate::field::lemma_pow256_small();
    vstd::arithmetic::div_mod::lemma_small_mod(code, 0x1_0000);
    let t = be_bytes(code, 2);
    let d = b.spec_build();
    assert(d.subrange(0, 6) =~= dst);
    assert(d.subrange(6, 12) =~= src);
    assert(d.subrange(12, 14) =~= t);
    assert(d.subrange(MIN_HEADER_LENGTH as int, d.len() as int) =~= b.spec_payload());
}

proof fn lemma_octets_len(a: Option<EthAddr>)
    ensures
        (match a {
            Some(a) => a.spec_octets(),
            None => zero_addr(),
        }).len() == 6,
{
    if let Some(x) = a {
        assert(x.octets@.len() == 6);
    }
}

/// Layer chaining: the UDP datagram that `Ipv4::udp` finds in the packet
/// that `Eth::ipv4` finds in a frame starts at byte 14 + `h` of the frame,
/// `h` being the packet's header length, so its ports are the frame's bytes
/// there.
pub proof fn lemma_chain_udp(frame: Seq<u8>, packet: Seq<u8>, datagram: Seq<u8>, h: int)
    requires
        frame.len() >= MIN_HEADER_LENGTH,
        packet == frame.subrange(MIN_HEADER_LENGTH as int, frame.len() as int),
        0 <= h <= packet.len(),
        datagram == packet.subrange(h, packet.len() as int),
        datagram.len() >= udp::MIN_HEADER_LENGTH,
    ensures
        datagram == frame.subrange(MIN_HEADER_LENGTH + h, frame.len() as int),
        field_at(datagram, 0, udp::SRC_PORT(), true) == field_at(
            frame,
            MIN_HEADER_LENGTH + h,
            udp::SRC_PORT(),
            true,
        ),
        field_at(datagram, 2, udp::DST_PORT(), true) == field_at(
            frame,
            MIN_HEADER_LENGTH + h + 2,
            udp::DST_PORT(),
            true,
        ),
{
    let start = MIN_HEADER_LENGTH + h;
    assert(datagram =~= frame.subrange(start, frame.len() as int));
    assert(datagram.subrange(0, 2) =~= frame.subrange(start, start + 2));
    assert(datagram.subrange(2, 4) =~= frame.subrange(start + 2, start + 4));
}

} // verus!
