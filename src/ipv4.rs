//! IPv4 layer.
use vstd::prelude::*;
use vstd::slice::{slice_subrange, slice_to_vec};

use crate::field::{append_bytes, copy_into, field_at, put_at, read_field, splice, write_field, zero_seq, zeros, FieldSpec};
use crate::ip_protocol::IpProtocol;
use crate::tcp::{self, Tcp};
use crate::udp::{self, Udp};

use crate::field::{lemma_put_outside, lemma_plain_fits, lemma_pow256_small, lemma_put_frame, lemma_put_len, lemma_put_same_carrier, lemma_set_then_get, lemma_splice_frame};

verus! {

/// Minimum length of an IPv4 header.
pub const MIN_HEADER_LENGTH: usize = 20;

/// Error type for the IPv4 layer.
#[derive(Debug, Clone, PartialEq, Eq)]
pub enum Ipv4Error {
    /// The buffer is shorter than the 20 bytes of a header; holds its length.
    InvalidLength(usize),
}

/// Position of the version (4 bits) field.
pub open spec fn VERSION() -> FieldSpec {
    FieldSpec { width: 1, mask: 0xF0, shift: 4 }
}

/// Position of the header length in 32-bit words (4 bits) field.
pub open spec fn IHL() -> FieldSpec {
    FieldSpec { width: 1, mask: 0x0F, shift: 0 }
}

/// Position of the DSCP (6 bits) field.
pub open spec fn DSCP() -> FieldSpec {
    FieldSpec { width: 1, mask: 0xFC, shift: 2 }
}

/// Position of the ECN (2 bits) field.
pub open spec fn ECN() -> FieldSpec {
    FieldSpec { width: 1, mask: 0x03, shift: 0 }
}

/// Position of the total length field.
pub open spec fn TOTAL_LENGTH() -> FieldSpec {
    FieldSpec { width: 2, mask: u64::MAX, shift: 0 }
}

/// Position of the identification field.
pub open spec fn IDENTIFICATION() -> FieldSpec {
    FieldSpec { width: 2, mask: u64::MAX, shift: 0 }
}

/// Position of the flags (3 bits) field.
pub open spec fn FLAGS() -> FieldSpec {
    FieldSpec { width: 1, mask: 0xE0, shift: 5 }
}

/// Position of the fragment offset (13 bits) field.
pub open spec fn FRAGMENT_OFFSET() -> FieldSpec {
    FieldSpec { width: 2, mask: 0x1FFF, shift: 0 }
}

/// Position of the time to live field.
pub open spec fn TTL() -> FieldSpec {
    FieldSpec { width: 1, mask: u64::MAX, shift: 0 }
}

/// Position of the protocol field.
pub open spec fn PROTOCOL() -> FieldSpec {
    FieldSpec { width: 1, mask: u64::MAX, shift: 0 }
}

/// Position of the header checksum field.
pub open spec fn CHECKSUM() -> FieldSpec {
    FieldSpec { width: 2, mask: u64::MAX, shift: 0 }
}

/// Position of the source address field.
pub open spec fn SRC() -> FieldSpec {
    FieldSpec { width: 4, mask: u64::MAX, shift: 0 }
}

/// Position of the destination address field.
pub open spec fn DST() -> FieldSpec {
    FieldSpec { width: 4, mask: u64::MAX, shift: 0 }
}

/// A value below 16 fits the IHL field.
proof fn lemma_ihl_fits(x: u64)
    requires
        x <= 15,
    ensures
        IHL().fits(x),
{
    assert((x << 0u64) >> 0u64 == x && (x << 0u64) & !0x0Fu64 == 0 && (x << 0u64) <= 15) by (bit_vector)
        requires
            x <= 15,
    ;
    assert(crate::field::pow256(1) == 256) by {
        reveal_with_fuel(crate::field::pow256, 2);
    }
}

/// Writing the fragment offset, which shares byte 6 with the flags, keeps
/// the flags.
proof fn lemma_flags_kept(d: Seq<u8>, x: u64)
    requires
        d.len() >= 8,
        FRAGMENT_OFFSET().fits(x),
    ensures
        field_at(put_at(d, 6, FRAGMENT_OFFSET(), true, x), 6, FLAGS(), true) == field_at(
            d,
            6,
            FLAGS(),
            true,
        ),
{
    reveal_with_fuel(crate::field::be_nat, 3);
    reveal_with_fuel(crate::field::be_bytes, 3);
    let s2 = d.subrange(6, 8);
    assert(s2.drop_last().drop_last() =~= Seq::<u8>::empty());
    assert(s2.drop_last() =~= seq![d[6]]);
    let c = crate::field::carrier_at(d, 6, FRAGMENT_OFFSET(), true);
    assert(c == d[6] as nat * 256 + d[7] as nat);
    let v = FRAGMENT_OFFSET().put_spec(c, x);
    let d2 = put_at(d, 6, FRAGMENT_OFFSET(), true, x);
    let bs = crate::field::be_bytes(v as nat, 2);
    assert(bs[0] == ((v as nat / 256) % 256) as u8);
    assert(d2.subrange(6, 7) =~= seq![bs[0]]);
    assert(d.subrange(6, 7) =~= seq![d[6]]);
    assert(seq![bs[0]].drop_last() =~= Seq::<u8>::empty());
    assert(seq![d[6]].drop_last() =~= Seq::<u8>::empty());
    let b6 = d[6] as u64;
    let b7 = d[7] as u64;
    let cc = c as u64;
    assert(cc == b6 * 256 + b7);
    assert((((((cc & !0x1FFFu64) | (x << 0u64)) / 256) % 256) & 0xE0) >> 5 == (b6 & 0xE0) >> 5)
        by (bit_vector)
        requires
            b6 < 256,
            b7 < 256,
            cc == b6 * 256 + b7,
            (x << 0u64) & !0x1FFFu64 == 0,
    ;
}

/// An IPv4 packet over an owned buffer.
pub struct Ipv4 {
    data: Vec<u8>,
}

impl Ipv4 {
    /// The packet's bytes.
    pub closed spec fn bytes(&self) -> Seq<u8> {
        self.data@
    }

    /// The buffer holds the fixed part of a header.
    pub open spec fn wf(&self) -> bool {
        self.bytes().len() >= MIN_HEADER_LENGTH
    }

    /// The header length in bytes that the IHL field declares.
    pub open spec fn spec_header_len(&self) -> int {
        4 * (field_at(self.bytes(), 0, IHL(), true) as u8) as int
    }

    /// The protocol that the protocol field names.
    pub open spec fn spec_protocol(&self) -> IpProtocol {
        IpProtocol::spec_from_raw(field_at(self.bytes(), 9, PROTOCOL(), true) as u8)
    }

    /// Checks that the buffer holds the fixed part of a header.
    pub fn validate(&self) -> (r: Result<(), Ipv4Error>)
        ensures
            r == if self.bytes().len() >= MIN_HEADER_LENGTH {
                Ok(())
            } else {
                Err(Ipv4Error::InvalidLength(self.bytes().len() as usize))
            },
    {
        if self.data.len() < MIN_HEADER_LENGTH {
            return Err(Ipv4Error::InvalidLength(self.data.len()));
        }
        Ok(())
    }

    /// A packet over `data`, if it holds the fixed part of a header.
    pub fn new(data: Vec<u8>) -> (r: Result<Ipv4, Ipv4Error>)
        ensures
            r is Ok <==> data@.len() >= MIN_HEADER_LENGTH,
            r matches Ok(p) ==> p.bytes() == data@,
            r matches Err(e) ==> e == Ipv4Error::InvalidLength(data@.len() as usize),
    {
        let res = Ipv4 { data };
        match res.validate() {
            Ok(()) => Ok(res),
            Err(e) => Err(e),
        }
    }

    /// The packet's bytes.
    pub fn inner(&self) -> (r: &Vec<u8>)
        ensures
            r@ == self.bytes(),
    {
        &self.data
    }

    /// The version (4 bits).
    pub fn version(&self) -> (r: u8)
        requires
            self.wf(),
        ensures
            r == field_at(self.bytes(), 0, VERSION(), true) as u8,
    {
        let f = FieldSpec { width: 1, mask: 0xF0, shift: 4 };
        read_field(self.data.as_slice(), 0, f, true) as u8
    }

    /// Writes the version (4 bits).
    pub fn version_mut(&mut self, v: u8)
        requires
            old(self).wf(),
        ensures
            final(self).bytes() == put_at(old(self).bytes(), 0, VERSION(), true, v as u64),
            final(self).wf(),
            final(self).bytes().len() == old(self).bytes().len(),
    {
        let f = FieldSpec { width: 1, mask: 0xF0, shift: 4 };
        write_field(&mut self.data, 0, f, true, v as u64);
    }

    /// The header length in 32-bit words (4 bits).
    pub fn ihl(&self) -> (r: u8)
        requires
            self.wf(),
        ensures
            r == field_at(self.bytes(), 0, IHL(), true) as u8,
    {
        let f = FieldSpec { width: 1, mask: 0x0F, shift: 0 };
        read_field(self.data.as_slice(), 0, f, true) as u8
    }

    /// Writes the header length in 32-bit words (4 bits).
    pub fn ihl_mut(&mut self, v: u8)
        requires
            old(self).wf(),
        ensures
            final(self).bytes() == put_at(old(self).bytes(), 0, IHL(), true, v as u64),
            final(self).wf(),
            final(self).bytes().len() == old(self).bytes().len(),
    {
        let f = FieldSpec { width: 1, mask: 0x0F, shift: 0 };
        write_field(&mut self.data, 0, f, true, v as u64);
    }

    /// The DSCP (6 bits).
    pub fn dscp(&self) -> (r: u8)
        requires
            self.wf(),
        ensures
            r == field_at(self.bytes(), 1, DSCP(), true) as u8,
    {
        let f = FieldSpec { width: 1, mask: 0xFC, shift: 2 };
        read_field(self.data.as_slice(), 1, f, true) as u8
    }

    /// Writes the DSCP (6 bits).
    pub fn dscp_mut(&mut self, v: u8)
        requires
            old(self).wf(),
        ensures
            final(self).bytes() == put_at(old(self).bytes(), 1, DSCP(), true, v as u64),
            final(self).wf(),
            final(self).bytes().len() == old(self).bytes().len(),
    {
        let f = FieldSpec { width: 1, mask: 0xFC, shift: 2 };
        write_field(&mut self.data, 1, f, true, v as u64);
    }

    /// The ECN (2 bits).
    pub fn ecn(&self) -> (r: u8)
        requires
            self.wf(),
        ensures
            r == field_at(self.bytes(), 1, ECN(), true) as u8,
    {
        let f = FieldSpec { width: 1, mask: 0x03, shift: 0 };
        read_field(self.data.as_slice(), 1, f, true) as u8
    }

    /// Writes the ECN (2 bits).
    pub fn ecn_mut(&mut self, v: u8)
        requires
            old(self).wf(),
        ensures
            final(self).bytes() == put_at(old(self).bytes(), 1, ECN(), true, v as u64),
            final(self).wf(),
            final(self).bytes().len() == old(self).bytes().len(),
    {
        let f = FieldSpec { width: 1, mask: 0x03, shift: 0 };
        write_field(&mut self.data, 1, f, true, v as u64);
    }

    /// The total length.
    pub fn total_length(&self) -> (r: u16)
        requires
            self.wf(),
        ensures
            r == field_at(self.bytes(), 2, TOTAL_LENGTH(), true) as u16,
    {
        let f = FieldSpec { width: 2, mask: u64::MAX, shift: 0 };
        read_field(self.data.as_slice(), 2, f, true) as u16
    }

    /// Writes the total length.
    pub fn total_length_mut(&mut self, v: u16)
        requires
            old(self).wf(),
        ensures
            final(self).bytes() == put_at(old(self).bytes(), 2, TOTAL_LENGTH(), true, v as u64),
            final(self).wf(),
            final(self).bytes().len() == old(self).bytes().len(),
    {
        let f = FieldSpec { width: 2, mask: u64::MAX, shift: 0 };
        write_field(&mut self.data, 2, f, true, v as u64);
    }

    /// The identification.
    pub fn identification(&self) -> (r: u16)
        requires
            self.wf(),
        ensures
            r == field_at(self.bytes(), 4, IDENTIFICATION(), true) as u16,
    {
        let f = FieldSpec { width: 2, mask: u64::MAX, shift: 0 };
        read_field(self.data.as_slice(), 4, f, true) as u16
    }

    /// Writes the identification.
    pub fn identification_mut(&mut self, v: u16)
        requires
            old(self).wf(),
        ensures
            final(self).bytes() == put_at(old(self).bytes(), 4, IDENTIFICATION(), true, v as u64),
            final(self).wf(),
            final(self).bytes().len() == old(self).bytes().len(),
    {
        let f = FieldSpec { width: 2, mask: u64::MAX, shift: 0 };
        write_field(&mut self.data, 4, f, true, v as u64);
    }

    /// The flags (3 bits).
    pub fn flags(&self) -> (r: u8)
        requires
            self.wf(),
        ensures
            r == field_at(self.bytes(), 6, FLAGS(), true) as u8,
    {
        let f = FieldSpec { width: 1, mask: 0xE0, shift: 5 };
        read_field(self.data.as_slice(), 6, f, true) as u8
    }

    /// Writes the flags (3 bits).
    pub fn flags_mut(&mut self, v: u8)
        requires
            old(self).wf(),
        ensures
            final(self).bytes() == put_at(old(self).bytes(), 6, FLAGS(), true, v as u64),
            final(self).wf(),
            final(self).bytes().len() == old(self).bytes().len(),
    {
        let f = FieldSpec { width: 1, mask: 0xE0, shift: 5 };
        write_field(&mut self.data, 6, f, true, v as u64);
    }

    /// The fragment offset (13 bits).
    pub fn fragment_offset(&self) -> (r: u16)
        requires
            self.wf(),
        ensures
            r == field_at(self.bytes(), 6, FRAGMENT_OFFSET(), true) as u16,
    {
        let f = FieldSpec { width: 2, mask: 0x1FFF, shift: 0 };
        read_field(self.data.as_slice(), 6, f, true) as u16
    }

    /// Writes the fragment offset (13 bits).
    pub fn fragment_offset_mut(&mut self, v: u16)
        requires
            old(self).wf(),
        ensures
            final(self).bytes() == put_at(old(self).bytes(), 6, FRAGMENT_OFFSET(), true, v as u64),
            final(self).wf(),
            final(self).bytes().len() == old(self).bytes().len(),
    {
        let f = FieldSpec { width: 2, mask: 0x1FFF, shift: 0 };
        write_field(&mut self.data, 6, f, true, v as u64);
    }

    /// The time to live.
    pub fn ttl(&self) -> (r: u8)
        requires
            self.wf(),
        ensures
            r == field_at(self.bytes(), 8, TTL(), true) as u8,
    {
        let f = FieldSpec { width: 1, mask: u64::MAX, shift: 0 };
        read_field(self.data.as_slice(), 8, f, true) as u8
    }

    /// Writes the time to live.
    pub fn ttl_mut(&mut self, v: u8)
        requires
            old(self).wf(),
        ensures
            final(self).bytes() == put_at(old(self).bytes(), 8, TTL(), true, v as u64),
            final(self).wf(),
            final(self).bytes().len() == old(self).bytes().len(),
    {
        let f = FieldSpec { width: 1, mask: u64::MAX, shift: 0 };
        write_field(&mut self.data, 8, f, true, v as u64);
    }

    /// The protocol.
    pub fn protocol(&self) -> (r: IpProtocol)
        requires
            self.wf(),
        ensures
            r == self.spec_protocol(),
    {
        let f = FieldSpec { width: 1, mask: u64::MAX, shift: 0 };
        IpProtocol::from_raw(read_field(self.data.as_slice(), 9, f, true) as u8)
    }

    /// Writes the protocol.
    pub fn protocol_mut(&mut self, v: IpProtocol)
        requires
            old(self).wf(),
        ensures
            final(self).bytes() == put_at(old(self).bytes(), 9, PROTOCOL(), true, v.spec_raw() as u64),
            final(self).wf(),
            final(self).bytes().len() == old(self).bytes().len(),
    {
        let f = FieldSpec { width: 1, mask: u64::MAX, shift: 0 };
        write_field(&mut self.data, 9, f, true, v.raw() as u64);
    }

    /// The header checksum.
    pub fn checksum(&self) -> (r: u16)
        requires
            self.wf(),
        ensures
            r == field_at(self.bytes(), 10, CHECKSUM(), true) as u16,
    {
        let f = FieldSpec { width: 2, mask: u64::MAX, shift: 0 };
        read_field(self.data.as_slice(), 10, f, true) as u16
    }

    /// Writes the header checksum.
    pub fn checksum_mut(&mut self, v: u16)
        requires
            old(self).wf(),
        ensures
            final(self).bytes() == put_at(old(self).bytes(), 10, CHECKSUM(), true, v as u64),
            final(self).wf(),
            final(self).bytes().len() == old(self).bytes().len(),
    {
        let f = FieldSpec { width: 2, mask: u64::MAX, shift: 0 };
        write_field(&mut self.data, 10, f, true, v as u64);
    }

    /// The source address.
    pub fn src(&self) -> (r: u32)
        requires
            self.wf(),
        ensures
            r == field_at(self.bytes(), 12, SRC(), true) as u32,
    {
        let f = FieldSpec { width: 4, mask: u64::MAX, shift: 0 };
        read_field(self.data.as_slice(), 12, f, true) as u32
    }

    /// Writes the source address.
    pub fn src_mut(&mut self, v: u32)
        requires
            old(self).wf(),
        ensures
            final(self).bytes() == put_at(old(self).bytes(), 12, SRC(), true, v as u64),
            final(self).wf(),
            final(self).bytes().len() == old(self).bytes().len(),
    {
        let f = FieldSpec { width: 4, mask: u64::MAX, shift: 0 };
        write_field(&mut self.data, 12, f, true, v as u64);
    }

    /// The destination address.
    pub fn dst(&self) -> (r: u32)
        requires
            self.wf(),
        ensures
            r == field_at(self.bytes(), 16, DST(), true) as u32,
    {
        let f = FieldSpec { width: 4, mask: u64::MAX, shift: 0 };
        read_field(self.data.as_slice(), 16, f, true) as u32
    }

    /// Writes the destination address.
    pub fn dst_mut(&mut self, v: u32)
        requires
            old(self).wf(),
        ensures
            final(self).bytes() == put_at(old(self).bytes(), 16, DST(), true, v as u64),
            final(self).wf(),
            final(self).bytes().len() == old(self).bytes().len(),
    {
        let f = FieldSpec { width: 4, mask: u64::MAX, shift: 0 };
        write_field(&mut self.data, 16, f, true, v as u64);
    }

    /// The options: the header's bytes after the fixed part.
    pub fn options(&self) -> (r: &[u8])
        requires
            self.wf(),
            MIN_HEADER_LENGTH <= self.spec_header_len() <= self.bytes().len(),
        ensures
            r@ == self.bytes().subrange(MIN_HEADER_LENGTH as int, self.spec_header_len()),
    {
        let end = self.ihl() as usize * 4;
        slice_subrange(self.data.as_slice(), MIN_HEADER_LENGTH, end)
    }

    /// The payload: the bytes after the header.
    pub fn payload(&self) -> (r: &[u8])
        requires
            self.wf(),
            self.spec_header_len() <= self.bytes().len(),
        ensures
            r@ == self.bytes().subrange(self.spec_header_len(), self.bytes().len() as int),
    {
        let start = self.ihl() as usize * 4;
        slice_subrange(self.data.as_slice(), start, self.data.len())
    }

    /// Overwrites the options with `o`, which has the options' length.
    pub fn options_mut(&mut self, o: &[u8])
        requires
            old(self).wf(),
            MIN_HEADER_LENGTH <= old(self).spec_header_len() <= old(self).bytes().len(),
            o@.len() == old(self).spec_header_len() - MIN_HEADER_LENGTH,
        ensures
            final(self).bytes() == splice(old(self).bytes(), MIN_HEADER_LENGTH as int, o@),
            final(self).wf(),
    {
        copy_into(&mut self.data, MIN_HEADER_LENGTH, o);
    }

    /// Overwrites the payload with `p`, which has the payload's length.
    pub fn payload_mut(&mut self, p: &[u8])
        requires
            old(self).wf(),
            old(self).spec_header_len() <= old(self).bytes().len(),
            p@.len() == old(self).bytes().len() - old(self).spec_header_len(),
        ensures
            final(self).bytes() == splice(old(self).bytes(), old(self).spec_header_len(), p@),
            final(self).wf(),
    {
        let start = self.ihl() as usize * 4;
        copy_into(&mut self.data, start, p);
    }

    /// The TCP segment in the payload, if the protocol is TCP and the payload
    /// holds the fixed part of a TCP header.
    pub fn tcp(&self) -> (r: Option<Tcp>)
        requires
            self.wf(),
            self.spec_header_len() <= self.bytes().len(),
        ensures
            r is Some <==> (self.spec_protocol() == IpProtocol::Tcp && self.bytes().len()
                - self.spec_header_len() >= tcp::MIN_HEADER_LENGTH),
            r matches Some(t) ==> t.bytes() == self.bytes().subrange(
                self.spec_header_len(),
                self.bytes().len() as int,
            ),
    {
        if matches!(self.protocol(), IpProtocol::Tcp) {
            match Tcp::new(slice_to_vec(self.payload())) {
                Ok(t) => Some(t),
                Err(_) => None,
            }
        } else {
            None
        }
    }

    /// The UDP datagram in the payload, if the protocol is UDP and the
    /// payload holds a UDP header.
    pub fn udp(&self) -> (r: Option<Udp>)
        requires
            self.wf(),
            self.spec_header_len() <= self.bytes().len(),
        ensures
            r is Some <==> (self.spec_protocol() == IpProtocol::Udp && self.bytes().len()
                - self.spec_header_len() >= udp::MIN_HEADER_LENGTH),
            r matches Some(u) ==> u.bytes() == self.bytes().subrange(
                self.spec_header_len(),
                self.bytes().len() as int,
            ),
    {
        if matches!(self.protocol(), IpProtocol::Udp) {
            match Udp::new(slice_to_vec(self.payload())) {
                Ok(u) => Some(u),
                Err(_) => None,
            }
        } else {
            None
        }
    }
}

/// Builder for [`Ipv4`].
pub struct Ipv4Builder {
    ihl: Option<u8>,
    dscp: Option<u8>,
    ecn: Option<u8>,
    total_length: Option<u16>,
    identification: Option<u16>,
    flags: Option<u8>,
    fragment_offset: Option<u16>,
    ttl: Option<u8>,
    protocol: Option<IpProtocol>,
    checksum: Option<u16>,
    src: Option<u32>,
    dst: Option<u32>,
    options: Vec<u8>,
    payload: Vec<u8>,
}

impl Ipv4Builder {
    pub closed spec fn spec_ihl(&self) -> Option<u8> {
        self.ihl
    }

    pub closed spec fn spec_dscp(&self) -> Option<u8> {
        self.dscp
    }

    pub closed spec fn spec_ecn(&self) -> Option<u8> {
        self.ecn
    }

    pub closed spec fn spec_total_length(&self) -> Option<u16> {
        self.total_length
    }

    pub closed spec fn spec_identification(&self) -> Option<u16> {
        self.identification
    }

    pub closed spec fn spec_flags(&self) -> Option<u8> {
        self.flags
    }

    pub closed spec fn spec_fragment_offset(&self) -> Option<u16> {
        self.fragment_offset
    }

    pub closed spec fn spec_ttl(&self) -> Option<u8> {
        self.ttl
    }

    pub closed spec fn spec_protocol(&self) -> Option<IpProtocol> {
        self.protocol
    }

    pub closed spec fn spec_checksum(&self) -> Option<u16> {
        self.checksum
    }

    pub closed spec fn spec_src(&self) -> Option<u32> {
        self.src
    }

    pub closed spec fn spec_dst(&self) -> Option<u32> {
        self.dst
    }

    pub closed spec fn spec_options(&self) -> Seq<u8> {
        self.options@
    }

    pub closed spec fn spec_payload(&self) -> Seq<u8> {
        self.payload@
    }

    /// The IHL that `build` writes: the one set, or the least that holds the
    /// options, their length in words rounded up plus 5 (16, which does not
    /// fit, where that is above 15).
    pub open spec fn built_ihl(&self) -> u8 {
        match self.spec_ihl() {
            Some(v) => v,
            None => if self.spec_options().len() <= 40 {
                ((self.spec_options().len() + 3) / 4 + 5) as u8
            } else {
                16
            },
        }
    }

    /// The total length that `build` writes: the one set, or the header
    /// length plus the payload's length.
    pub open spec fn built_total_length(&self) -> int {
        match self.spec_total_length() {
            Some(v) => v as int,
            None => self.built_ihl() as int * 4 + (self.spec_payload().len() as u16) as int,
        }
    }

    /// The IHL fits its four bits, the header holds the options (zeros pad
    /// them to its end), and the total length holds exactly the header and
    /// the payload.
    pub open spec fn buildable(&self) -> bool {
        &&& self.built_total_length() <= u16::MAX
        &&& self.built_ihl() <= 15
        &&& self.built_ihl() as int * 4 >= MIN_HEADER_LENGTH + self.spec_options().len()
        &&& self.built_total_length() == self.built_ihl() as int * 4 + self.spec_payload().len()
    }

    /// The bytes of the packet that `build` makes: a zeroed buffer of the
    /// total length, with version 4 and each field, set or defaulted, written
    /// in turn, then the options and the payload.
    pub open spec fn spec_build(&self) -> Seq<u8> {
        let d = zero_seq(self.built_total_length() as nat);
        let d = put_at(d, 0, VERSION(), true, 4);
        let d = put_at(d, 0, IHL(), true, self.built_ihl() as u64);
        let d = put_at(d, 1, DSCP(), true, match self.spec_dscp() { Some(v) => v, None => 0 } as u64);
        let d = put_at(d, 1, ECN(), true, match self.spec_ecn() { Some(v) => v, None => 0 } as u64);
        let d = put_at(d, 2, TOTAL_LENGTH(), true, self.built_total_length() as u64);
        let d = put_at(d, 4, IDENTIFICATION(), true, match self.spec_identification() { Some(v) => v, None => 0 } as u64);
        let d = put_at(d, 6, FLAGS(), true, match self.spec_flags() { Some(v) => v, None => 0 } as u64);
        let d = put_at(d, 6, FRAGMENT_OFFSET(), true, match self.spec_fragment_offset() { Some(v) => v, None => 0 } as u64);
        let d = put_at(d, 8, TTL(), true, match self.spec_ttl() { Some(v) => v, None => 64 } as u64);
        let d = put_at(
            d,
            9,
            PROTOCOL(),
            true,
            match self.spec_protocol() { Some(v) => v, None => IpProtocol::Reserved(255) }.spec_raw() as u64,
        );
        let d = put_at(d, 10, CHECKSUM(), true, match self.spec_checksum() { Some(v) => v, None => 0 } as u64);
        let d = put_at(d, 12, SRC(), true, match self.spec_src() { Some(v) => v, None => 0 } as u64);
        let d = put_at(d, 16, DST(), true, match self.spec_dst() { Some(v) => v, None => 0 } as u64);
        let d = splice(d, MIN_HEADER_LENGTH as int, self.spec_options());
        splice(d, self.built_ihl() as int * 4, self.spec_payload())
    }

    /// A builder with no field set and no options or payload.
    pub fn new() -> (r: Ipv4Builder)
        ensures
            r.spec_ihl() is None,
            r.spec_dscp() is None,
            r.spec_ecn() is None,
            r.spec_total_length() is None,
            r.spec_identification() is None,
            r.spec_flags() is None,
            r.spec_fragment_offset() is None,
            r.spec_ttl() is None,
            r.spec_protocol() is None,
            r.spec_checksum() is None,
            r.spec_src() is None,
            r.spec_dst() is None,
            r.spec_options() == Seq::<u8>::empty(),
            r.spec_payload() == Seq::<u8>::empty(),
    {
        Ipv4Builder {
            ihl: None,
            dscp: None,
            ecn: None,
            total_length: None,
            identification: None,
            flags: None,
            fragment_offset: None,
            ttl: None,
            protocol: None,
            checksum: None,
            src: None,
            dst: None,
            options: Vec::new(),
            payload: Vec::new(),
        }
    }

    /// Sets the ihl.
    pub fn ihl(self, v: u8) -> (r: Ipv4Builder)
        ensures
            r.spec_ihl() == Some(v),
            r.spec_dscp() == self.spec_dscp(),
            r.spec_ecn() == self.spec_ecn(),
            r.spec_total_length() == self.spec_total_length(),
            r.spec_identification() == self.spec_identification(),
            r.spec_flags() == self.spec_flags(),
            r.spec_fragment_offset() == self.spec_fragment_offset(),
            r.spec_ttl() == self.spec_ttl(),
            r.spec_protocol() == self.spec_protocol(),
            r.spec_checksum() == self.spec_checksum(),
            r.spec_src() == self.spec_src(),
            r.spec_dst() == self.spec_dst(),
            r.spec_options() == self.spec_options(),
            r.spec_payload() == self.spec_payload(),
    {
        Ipv4Builder { ihl: Some(v), ..self }
    }

    /// Sets the dscp.
    pub fn dscp(self, v: u8) -> (r: Ipv4Builder)
        ensures
            r.spec_dscp() == Some(v),
            r.spec_ihl() == self.spec_ihl(),
            r.spec_ecn() == self.spec_ecn(),
            r.spec_total_length() == self.spec_total_length(),
            r.spec_identification() == self.spec_identification(),
            r.spec_flags() == self.spec_flags(),
            r.spec_fragment_offset() == self.spec_fragment_offset(),
            r.spec_ttl() == self.spec_ttl(),
            r.spec_protocol() == self.spec_protocol(),
            r.spec_checksum() == self.spec_checksum(),
            r.spec_src() == self.spec_src(),
            r.spec_dst() == self.spec_dst(),
            r.spec_options() == self.spec_options(),
            r.spec_payload() == self.spec_payload(),
    {
        Ipv4Builder { dscp: Some(v), ..self }
    }

    /// Sets the ecn.
    pub fn ecn(self, v: u8) -> (r: Ipv4Builder)
        ensures
            r.spec_ecn() == Some(v),
            r.spec_ihl() == self.spec_ihl(),
            r.spec_dscp() == self.spec_dscp(),
            r.spec_total_length() == self.spec_total_length(),
            r.spec_identification() == self.spec_identification(),
            r.spec_flags() == self.spec_flags(),
            r.spec_fragment_offset() == self.spec_fragment_offset(),
            r.spec_ttl() == self.spec_ttl(),
            r.spec_protocol() == self.spec_protocol(),
            r.spec_checksum() == self.spec_checksum(),
            r.spec_src() == self.spec_src(),
            r.spec_dst() == self.spec_dst(),
            r.spec_options() == self.spec_options(),
            r.spec_payload() == self.spec_payload(),
    {
        Ipv4Builder { ecn: Some(v), ..self }
    }

    /// Sets the total length.
    pub fn total_length(self, v: u16) -> (r: Ipv4Builder)
        ensures
            r.spec_total_length() == Some(v),
            r.spec_ihl() == self.spec_ihl(),
            r.spec_dscp() == self.spec_dscp(),
            r.spec_ecn() == self.spec_ecn(),
            r.spec_identification() == self.spec_identification(),
            r.spec_flags() == self.spec_flags(),
            r.spec_fragment_offset() == self.spec_fragment_offset(),
            r.spec_ttl() == self.spec_ttl(),
            r.spec_protocol() == self.spec_protocol(),
            r.spec_checksum() == self.spec_checksum(),
            r.spec_src() == self.spec_src(),
            r.spec_dst() == self.spec_dst(),
            r.spec_options() == self.spec_options(),
            r.spec_payload() == self.spec_payload(),
    {
        Ipv4Builder { total_length: Some(v), ..self }
    }

    /// Sets the identification.
    pub fn identification(self, v: u16) -> (r: Ipv4Builder)
        ensures
            r.spec_identification() == Some(v),
            r.spec_ihl() == self.spec_ihl(),
            r.spec_dscp() == self.spec_dscp(),
            r.spec_ecn() == self.spec_ecn(),
            r.spec_total_length() == self.spec_total_length(),
            r.spec_flags() == self.spec_flags(),
            r.spec_fragment_offset() == self.spec_fragment_offset(),
            r.spec_ttl() == self.spec_ttl(),
            r.spec_protocol() == self.spec_protocol(),
            r.spec_checksum() == self.spec_checksum(),
            r.spec_src() == self.spec_src(),
            r.spec_dst() == self.spec_dst(),
            r.spec_options() == self.spec_options(),
            r.spec_payload() == self.spec_payload(),
    {
        Ipv4Builder { identification: Some(v), ..self }
    }

    /// Sets the flags.
    pub fn flags(self, v: u8) -> (r: Ipv4Builder)
        ensures
            r.spec_flags() == Some(v),
            r.spec_ihl() == self.spec_ihl(),
            r.spec_dscp() == self.spec_dscp(),
            r.spec_ecn() == self.spec_ecn(),
            r.spec_total_length() == self.spec_total_length(),
            r.spec_identification() == self.spec_identification(),
            r.spec_fragment_offset() == self.spec_fragment_offset(),
            r.spec_ttl() == self.spec_ttl(),
            r.spec_protocol() == self.spec_protocol(),
            r.spec_checksum() == self.spec_checksum(),
            r.spec_src() == self.spec_src(),
            r.spec_dst() == self.spec_dst(),
            r.spec_options() == self.spec_options(),
            r.spec_payload() == self.spec_payload(),
    {
        Ipv4Builder { flags: Some(v), ..self }
    }

    /// Sets the fragment offset.
    pub fn fragment_offset(self, v: u16) -> (r: Ipv4Builder)
        ensures
            r.spec_fragment_offset() == Some(v),
            r.spec_ihl() == self.spec_ihl(),
            r.spec_dscp() == self.spec_dscp(),
            r.spec_ecn() == self.spec_ecn(),
            r.spec_total_length() == self.spec_total_length(),
            r.spec_identification() == self.spec_identification(),
            r.spec_flags() == self.spec_flags(),
            r.spec_ttl() == self.spec_ttl(),
            r.spec_protocol() == self.spec_protocol(),
            r.spec_checksum() == self.spec_checksum(),
            r.spec_src() == self.spec_src(),
            r.spec_dst() == self.spec_dst(),
            r.spec_options() == self.spec_options(),
            r.spec_payload() == self.spec_payload(),
    {
        Ipv4Builder { fragment_offset: Some(v), ..self }
    }

    /// Sets the ttl.
    pub fn ttl(self, v: u8) -> (r: Ipv4Builder)
        ensures
            r.spec_ttl() == Some(v),
            r.spec_ihl() == self.spec_ihl(),
            r.spec_dscp() == self.spec_dscp(),
            r.spec_ecn() == self.spec_ecn(),
            r.spec_total_length() == self.spec_total_length(),
            r.spec_identification() == self.spec_identification(),
            r.spec_flags() == self.spec_flags(),
            r.spec_fragment_offset() == self.spec_fragment_offset(),
            r.spec_protocol() == self.spec_protocol(),
            r.spec_checksum() == self.spec_checksum(),
            r.spec_src() == self.spec_src(),
            r.spec_dst() == self.spec_dst(),
            r.spec_options() == self.spec_options(),
            r.spec_payload() == self.spec_payload(),
    {
        Ipv4Builder { ttl: Some(v), ..self }
    }

    /// Sets the protocol.
    pub fn protocol(self, v: IpProtocol) -> (r: Ipv4Builder)
        ensures
            r.spec_protocol() == Some(v),
            r.spec_ihl() == self.spec_ihl(),
            r.spec_dscp() == self.spec_dscp(),
            r.spec_ecn() == self.spec_ecn(),
            r.spec_total_length() == self.spec_total_length(),
            r.spec_identification() == self.spec_identification(),
            r.spec_flags() == self.spec_flags(),
            r.spec_fragment_offset() == self.spec_fragment_offset(),
            r.spec_ttl() == self.spec_ttl(),
            r.spec_checksum() == self.spec_checksum(),
            r.spec_src() == self.spec_src(),
            r.spec_dst() == self.spec_dst(),
            r.spec_options() == self.spec_options(),
            r.spec_payload() == self.spec_payload(),
    {
        Ipv4Builder { protocol: Some(v), ..self }
    }

    /// Sets the checksum.
    pub fn checksum(self, v: u16) -> (r: Ipv4Builder)
        ensures
            r.spec_checksum() == Some(v),
            r.spec_ihl() == self.spec_ihl(),
            r.spec_dscp() == self.spec_dscp(),
            r.spec_ecn() == self.spec_ecn(),
            r.spec_total_length() == self.spec_total_length(),
            r.spec_identification() == self.spec_identification(),
            r.spec_flags() == self.spec_flags(),
            r.spec_fragment_offset() == self.spec_fragment_offset(),
            r.spec_ttl() == self.spec_ttl(),
            r.spec_protocol() == self.spec_protocol(),
            r.spec_src() == self.spec_src(),
            r.spec_dst() == self.spec_dst(),
            r.spec_options() == self.spec_options(),
            r.spec_payload() == self.spec_payload(),
    {
        Ipv4Builder { checksum: Some(v), ..self }
    }

    /// Sets the src.
    pub fn src(self, v: u32) -> (r: Ipv4Builder)
        ensures
            r.spec_src() == Some(v),
            r.spec_ihl() == self.spec_ihl(),
            r.spec_dscp() == self.spec_dscp(),
            r.spec_ecn() == self.spec_ecn(),
            r.spec_total_length() == self.spec_total_length(),
            r.spec_identification() == self.spec_identification(),
            r.spec_flags() == self.spec_flags(),
            r.spec_fragment_offset() == self.spec_fragment_offset(),
            r.spec_ttl() == self.spec_ttl(),
            r.spec_protocol() == self.spec_protocol(),
            r.spec_checksum() == self.spec_checksum(),
            r.spec_dst() == self.spec_dst(),
            r.spec_options() == self.spec_options(),
            r.spec_payload() == self.spec_payload(),
    {
        Ipv4Builder { src: Some(v), ..self }
    }

    /// Sets the dst.
    pub fn dst(self, v: u32) -> (r: Ipv4Builder)
        ensures
            r.spec_dst() == Some(v),
            r.spec_ihl() == self.spec_ihl(),
            r.spec_dscp() == self.spec_dscp(),
            r.spec_ecn() == self.spec_ecn(),
            r.spec_total_length() == self.spec_total_length(),
            r.spec_identification() == self.spec_identification(),
            r.spec_flags() == self.spec_flags(),
            r.spec_fragment_offset() == self.spec_fragment_offset(),
            r.spec_ttl() == self.spec_ttl(),
            r.spec_protocol() == self.spec_protocol(),
            r.spec_checksum() == self.spec_checksum(),
            r.spec_src() == self.spec_src(),
            r.spec_options() == self.spec_options(),
            r.spec_payload() == self.spec_payload(),
    {
        Ipv4Builder { dst: Some(v), ..self }
    }

    /// Appends `v` to the options.
    pub fn options(self, v: &[u8]) -> (r: Ipv4Builder)
        ensures
            r.spec_options() == self.spec_options() + v@,
            r.spec_payload() == self.spec_payload(),
            r.spec_ihl() == self.spec_ihl(),
            r.spec_dscp() == self.spec_dscp(),
            r.spec_ecn() == self.spec_ecn(),
            r.spec_total_length() == self.spec_total_length(),
            r.spec_identification() == self.spec_identification(),
            r.spec_flags() == self.spec_flags(),
            r.spec_fragment_offset() == self.spec_fragment_offset(),
            r.spec_ttl() == self.spec_ttl(),
            r.spec_protocol() == self.spec_protocol(),
            r.spec_checksum() == self.spec_checksum(),
            r.spec_src() == self.spec_src(),
            r.spec_dst() == self.spec_dst(),
    {
        let mut b = self;
        append_bytes(&mut b.options, v);
        b
    }

    /// Appends `v` to the payload.
    pub fn payload(self, v: &[u8]) -> (r: Ipv4Builder)
        ensures
            r.spec_payload() == self.spec_payload() + v@,
            r.spec_options() == self.spec_options(),
            r.spec_ihl() == self.spec_ihl(),
            r.spec_dscp() == self.spec_dscp(),
            r.spec_ecn() == self.spec_ecn(),
            r.spec_total_length() == self.spec_total_length(),
            r.spec_identification() == self.spec_identification(),
            r.spec_flags() == self.spec_flags(),
            r.spec_fragment_offset() == self.spec_fragment_offset(),
            r.spec_ttl() == self.spec_ttl(),
            r.spec_protocol() == self.spec_protocol(),
            r.spec_checksum() == self.spec_checksum(),
            r.spec_src() == self.spec_src(),
            r.spec_dst() == self.spec_dst(),
    {
        let mut b = self;
        append_bytes(&mut b.payload, v);
        b
    }

    /// Builds the packet.
    #[verifier::rlimit(50)]
    pub fn build(&self) -> (r: Ipv4)
        requires
            self.buildable(),
        ensures
            r.wf(),
            r.bytes() == self.spec_build(),
    {
        let ihl: u8 = match self.ihl {
            Some(v) => v,
            None => if self.options.len() <= 40 {
                ((self.options.len() + 3) / 4 + 5) as u8
            } else {
                16
            },
        };
        let length: u16 = match self.total_length {
            Some(v) => v,
            None => ihl as u16 * 4 + self.payload.len() as u16,
        };
        let mut ipv4 = Ipv4 { data: zeros(length as usize) };
        proof {
            assert(ipv4.bytes() =~= zero_seq(length as nat));
        }
        ipv4.version_mut(4);
        let ghost before = ipv4.bytes();
        ipv4.ihl_mut(ihl);
        proof {
            lemma_ihl_fits(ihl as u64);
            crate::field::lemma_set_then_get(before, 0, IHL(), true, ihl as u64);
        }
        let v = match self.dscp { Some(v) => v, None => 0 };
        let ghost before = ipv4.bytes();
        ipv4.dscp_mut(v);
        proof {
            crate::field::lemma_put_frame(before, 0, IHL(), 1, DSCP(), true, v as u64);
        }
        let v = match self.ecn { Some(v) => v, None => 0 };
        let ghost before = ipv4.bytes();
        ipv4.ecn_mut(v);
        proof {
            crate::field::lemma_put_frame(before, 0, IHL(), 1, ECN(), true, v as u64);
        }
        let v = length;
        let ghost before = ipv4.bytes();
        ipv4.total_length_mut(v);
        proof {
            crate::field::lemma_put_frame(before, 0, IHL(), 2, TOTAL_LENGTH(), true, v as u64);
        }
        let v = match self.identification { Some(v) => v, None => 0 };
        let ghost before = ipv4.bytes();
        ipv4.identification_mut(v);
        proof {
            crate::field::lemma_put_frame(before, 0, IHL(), 4, IDENTIFICATION(), true, v as u64);
        }
        let v = match self.flags { Some(v) => v, None => 0 };
        let ghost before = ipv4.bytes();
        ipv4.flags_mut(v);
        proof {
            crate::field::lemma_put_frame(before, 0, IHL(), 6, FLAGS(), true, v as u64);
        }
        let v = match self.fragment_offset { Some(v) => v, None => 0 };
        let ghost before = ipv4.bytes();
        ipv4.fragment_offset_mut(v);
        proof {
            crate::field::lemma_put_frame(before, 0, IHL(), 6, FRAGMENT_OFFSET(), true, v as u64);
        }
        let v = match self.ttl { Some(v) => v, None => 64 };
        let ghost before = ipv4.bytes();
        ipv4.ttl_mut(v);
        proof {
            crate::field::lemma_put_frame(before, 0, IHL(), 8, TTL(), true, v as u64);
        }
        let v = match self.protocol { Some(v) => v, None => IpProtocol::Reserved(255) };
        let ghost before = ipv4.bytes();
        ipv4.protocol_mut(v);
        proof {
            crate::field::lemma_put_frame(before, 0, IHL(), 9, PROTOCOL(), true, v.spec_raw() as u64);
        }
        let v = match self.checksum { Some(v) => v, None => 0 };
        let ghost before = ipv4.bytes();
        ipv4.checksum_mut(v);
        proof {
            crate::field::lemma_put_frame(before, 0, IHL(), 10, CHECKSUM(), true, v as u64);
        }
        let v = match self.src { Some(v) => v, None => 0 };
        let ghost before = ipv4.bytes();
        ipv4.src_mut(v);
        proof {
            crate::field::lemma_put_frame(before, 0, IHL(), 12, SRC(), true, v as u64);
        }
        let v = match self.dst { Some(v) => v, None => 0 };
        let ghost before = ipv4.bytes();
        ipv4.dst_mut(v);
        proof {
            crate::field::lemma_put_frame(before, 0, IHL(), 16, DST(), true, v as u64);
        }
        let ghost before = ipv4.bytes();
        copy_into(&mut ipv4.data, MIN_HEADER_LENGTH, self.options.as_slice());
        proof {
            assert(ipv4.bytes().subrange(0, 1) =~= before.subrange(0, 1));
        }
        ipv4.payload_mut(self.payload.as_slice());
        ipv4
    }
}

/// The first six fields of a built packet read back.
#[verifier::rlimit(100)]
proof fn lemma_reads_back_head(b: &Ipv4Builder)
    requires
        b.buildable(),
        (match b.spec_dscp() { Some(v) => v, None => 0 }) <= 63,
        (match b.spec_ecn() { Some(v) => v, None => 0 }) <= 3,
        (match b.spec_flags() { Some(v) => v, None => 0 }) <= 7,
        (match b.spec_fragment_offset() { Some(v) => v, None => 0 }) <= 0x1FFF,
    ensures
        b.spec_build().len() == (zero_seq(b.built_total_length() as nat)).len(),
        field_at(b.spec_build(), 0, VERSION(), true) == (4u64) as u64,
        field_at(b.spec_build(), 0, IHL(), true) == (b.built_ihl()) as u64,
        field_at(b.spec_build(), 1, DSCP(), true) == (match b.spec_dscp() { Some(v) => v, None => 0 }) as u64,
        field_at(b.spec_build(), 1, ECN(), true) == (match b.spec_ecn() { Some(v) => v, None => 0 }) as u64,
        field_at(b.spec_build(), 2, TOTAL_LENGTH(), true) == (b.built_total_length()) as u64,
        field_at(b.spec_build(), 4, IDENTIFICATION(), true) == (match b.spec_identification() { Some(v) => v, None => 0 }) as u64,
{
    let d0 = zero_seq(b.built_total_length() as nat);
    let x1 = (4u64) as u64;
    let d1 = put_at(d0, 0, VERSION(), true, x1);
    let x2 = (b.built_ihl()) as u64;
    let d2 = put_at(d1, 0, IHL(), true, x2);
    let x3 = (match b.spec_dscp() { Some(v) => v, None => 0 }) as u64;
    let d3 = put_at(d2, 1, DSCP(), true, x3);
    let x4 = (match b.spec_ecn() { Some(v) => v, None => 0 }) as u64;
    let d4 = put_at(d3, 1, ECN(), true, x4);
    let x5 = (b.built_total_length()) as u64;
    let d5 = put_at(d4, 2, TOTAL_LENGTH(), true, x5);
    let x6 = (match b.spec_identification() { Some(v) => v, None => 0 }) as u64;
    let d6 = put_at(d5, 4, IDENTIFICATION(), true, x6);
    let x7 = (match b.spec_flags() { Some(v) => v, None => 0 }) as u64;
    let d7 = put_at(d6, 6, FLAGS(), true, x7);
    let x8 = (match b.spec_fragment_offset() { Some(v) => v, None => 0 }) as u64;
    let d8 = put_at(d7, 6, FRAGMENT_OFFSET(), true, x8);
    let x9 = (match b.spec_ttl() { Some(v) => v, None => 64 }) as u64;
    let d9 = put_at(d8, 8, TTL(), true, x9);
    let x10 = (match b.spec_protocol() { Some(v) => v, None => IpProtocol::Reserved(255) }.spec_raw()) as u64;
    let d10 = put_at(d9, 9, PROTOCOL(), true, x10);
    let x11 = (match b.spec_checksum() { Some(v) => v, None => 0 }) as u64;
    let d11 = put_at(d10, 10, CHECKSUM(), true, x11);
    let x12 = (match b.spec_src() { Some(v) => v, None => 0 }) as u64;
    let d12 = put_at(d11, 12, SRC(), true, x12);
    let x13 = (match b.spec_dst() { Some(v) => v, None => 0 }) as u64;
    let d13 = put_at(d12, 16, DST(), true, x13);
    let e1 = splice(d13, MIN_HEADER_LENGTH as int, b.spec_options());
    let e2 = splice(e1, b.built_ihl() as int * 4, b.spec_payload());
    assert(e2 == b.spec_build());
    lemma_pow256_small();
    lemma_put_len(d0, 0, VERSION(), true, x1);
    lemma_put_len(d1, 0, IHL(), true, x2);
    lemma_put_len(d2, 1, DSCP(), true, x3);
    lemma_put_len(d3, 1, ECN(), true, x4);
    lemma_put_len(d4, 2, TOTAL_LENGTH(), true, x5);
    lemma_put_len(d5, 4, IDENTIFICATION(), true, x6);
    lemma_put_len(d6, 6, FLAGS(), true, x7);
    lemma_put_len(d7, 6, FRAGMENT_OFFSET(), true, x8);
    lemma_put_len(d8, 8, TTL(), true, x9);
    lemma_put_len(d9, 9, PROTOCOL(), true, x10);
    lemma_put_len(d10, 10, CHECKSUM(), true, x11);
    lemma_put_len(d11, 12, SRC(), true, x12);
    lemma_put_len(d12, 16, DST(), true, x13);
    lemma_plain_fits(x5, 2);
    lemma_plain_fits(x6, 2);
    lemma_plain_fits(x9, 1);
    lemma_plain_fits(x10, 1);
    lemma_plain_fits(x11, 2);
    lemma_plain_fits(x12, 4);
    lemma_plain_fits(x13, 4);
    assert((x1 << 4u64) >> 4u64 == x1 && (x1 << 4u64) & !0xF0u64 == 0 && (x1 << 4u64) < 256 && (x2 << 0u64) >> 0u64 == x2 && (x2 << 0u64) & !0x0Fu64 == 0 && (x2 << 0u64) < 256 && (x3 << 2u64) >> 2u64 == x3 && (x3 << 2u64) & !0xFCu64 == 0 && (x3 << 2u64) < 256 && (x4 << 0u64) >> 0u64 == x4 && (x4 << 0u64) & !0x03u64 == 0 && (x4 << 0u64) < 256 && (x7 << 5u64) >> 5u64 == x7 && (x7 << 5u64) & !0xE0u64 == 0 && (x7 << 5u64) < 256 && (x8 << 0u64) >> 0u64 == x8 && (x8 << 0u64) & !0x1FFFu64 == 0 && (x8 << 0u64) < 65536 && 0xF0u64 & 0x0Fu64 == 0 && 0xFCu64 & 0x03u64 == 0) by (bit_vector)
        requires
            x1 <= 4,
            x2 <= 15,
            x3 <= 63,
            x4 <= 3,
            x7 <= 7,
            x8 <= 0x1FFF,
    ;
    lemma_set_then_get(d0, 0, VERSION(), true, x1);
    lemma_put_same_carrier(d1, 0, VERSION(), IHL(), true, x2);
    lemma_put_frame(d2, 0, VERSION(), 1, DSCP(), true, x3);
    lemma_put_frame(d3, 0, VERSION(), 1, ECN(), true, x4);
    lemma_put_frame(d4, 0, VERSION(), 2, TOTAL_LENGTH(), true, x5);
    lemma_put_frame(d5, 0, VERSION(), 4, IDENTIFICATION(), true, x6);
    lemma_put_frame(d6, 0, VERSION(), 6, FLAGS(), true, x7);
    lemma_put_frame(d7, 0, VERSION(), 6, FRAGMENT_OFFSET(), true, x8);
    lemma_put_frame(d8, 0, VERSION(), 8, TTL(), true, x9);
    lemma_put_frame(d9, 0, VERSION(), 9, PROTOCOL(), true, x10);
    lemma_put_frame(d10, 0, VERSION(), 10, CHECKSUM(), true, x11);
    lemma_put_frame(d11, 0, VERSION(), 12, SRC(), true, x12);
    lemma_put_frame(d12, 0, VERSION(), 16, DST(), true, x13);
    lemma_splice_frame(d13, 0, VERSION(), MIN_HEADER_LENGTH as int, b.spec_options(), true);
    lemma_splice_frame(e1, 0, VERSION(), b.built_ihl() as int * 4, b.spec_payload(), true);
    lemma_set_then_get(d1, 0, IHL(), true, x2);
    lemma_put_frame(d2, 0, IHL(), 1, DSCP(), true, x3);
    lemma_put_frame(d3, 0, IHL(), 1, ECN(), true, x4);
    lemma_put_frame(d4, 0, IHL(), 2, TOTAL_LENGTH(), true, x5);
    lemma_put_frame(d5, 0, IHL(), 4, IDENTIFICATION(), true, x6);
    lemma_put_frame(d6, 0, IHL(), 6, FLAGS(), true, x7);
    lemma_put_frame(d7, 0, IHL(), 6, FRAGMENT_OFFSET(), true, x8);
    lemma_put_frame(d8, 0, IHL(), 8, TTL(), true, x9);
    lemma_put_frame(d9, 0, IHL(), 9, PROTOCOL(), true, x10);
    lemma_put_frame(d10, 0, IHL(), 10, CHECKSUM(), true, x11);
    lemma_put_frame(d11, 0, IHL(), 12, SRC(), true, x12);
    lemma_put_frame(d12, 0, IHL(), 16, DST(), true, x13);
    lemma_splice_frame(d13, 0, IHL(), MIN_HEADER_LENGTH as int, b.spec_options(), true);
    lemma_splice_frame(e1, 0, IHL(), b.built_ihl() as int * 4, b.spec_payload(), true);
    lemma_set_then_get(d2, 1, DSCP(), true, x3);
    lemma_put_same_carrier(d3, 1, DSCP(), ECN(), true, x4);
    lemma_put_frame(d4, 1, DSCP(), 2, TOTAL_LENGTH(), true, x5);
    lemma_put_frame(d5, 1, DSCP(), 4, IDENTIFICATION(), true, x6);
    lemma_put_frame(d6, 1, DSCP(), 6, FLAGS(), true, x7);
    lemma_put_frame(d7, 1, DSCP(), 6, FRAGMENT_OFFSET(), true, x8);
    lemma_put_frame(d8, 1, DSCP(), 8, TTL(), true, x9);
    lemma_put_frame(d9, 1, DSCP(), 9, PROTOCOL(), true, x10);
    lemma_put_frame(d10, 1, DSCP(), 10, CHECKSUM(), true, x11);
    lemma_put_frame(d11, 1, DSCP(), 12, SRC(), true, x12);
    lemma_put_frame(d12, 1, DSCP(), 16, DST(), true, x13);
    lemma_splice_frame(d13, 1, DSCP(), MIN_HEADER_LENGTH as int, b.spec_options(), true);
    lemma_splice_frame(e1, 1, DSCP(), b.built_ihl() as int * 4, b.spec_payload(), true);
    lemma_set_then_get(d3, 1, ECN(), true, x4);
    lemma_put_frame(d4, 1, ECN(), 2, TOTAL_LENGTH(), true, x5);
    lemma_put_frame(d5, 1, ECN(), 4, IDENTIFICATION(), true, x6);
    lemma_put_frame(d6, 1, ECN(), 6, FLAGS(), true, x7);
    lemma_put_frame(d7, 1, ECN(), 6, FRAGMENT_OFFSET(), true, x8);
    lemma_put_frame(d8, 1, ECN(), 8, TTL(), true, x9);
    lemma_put_frame(d9, 1, ECN(), 9, PROTOCOL(), true, x10);
    lemma_put_frame(d10, 1, ECN(), 10, CHECKSUM(), true, x11);
    lemma_put_frame(d11, 1, ECN(), 12, SRC(), true, x12);
    lemma_put_frame(d12, 1, ECN(), 16, DST(), true, x13);
    lemma_splice_frame(d13, 1, ECN(), MIN_HEADER_LENGTH as int, b.spec_options(), true);
    lemma_splice_frame(e1, 1, ECN(), b.built_ihl() as int * 4, b.spec_payload(), true);
    lemma_set_then_get(d4, 2, TOTAL_LENGTH(), true, x5);
    lemma_put_frame(d5, 2, TOTAL_LENGTH(), 4, IDENTIFICATION(), true, x6);
    lemma_put_frame(d6, 2, TOTAL_LENGTH(), 6, FLAGS(), true, x7);
    lemma_put_frame(d7, 2, TOTAL_LENGTH(), 6, FRAGMENT_OFFSET(), true, x8);
    lemma_put_frame(d8, 2, TOTAL_LENGTH(), 8, TTL(), true, x9);
    lemma_put_frame(d9, 2, TOTAL_LENGTH(), 9, PROTOCOL(), true, x10);
    lemma_put_frame(d10, 2, TOTAL_LENGTH(), 10, CHECKSUM(), true, x11);
    lemma_put_frame(d11, 2, TOTAL_LENGTH(), 12, SRC(), true, x12);
    lemma_put_frame(d12, 2, TOTAL_LENGTH(), 16, DST(), true, x13);
    lemma_splice_frame(d13, 2, TOTAL_LENGTH(), MIN_HEADER_LENGTH as int, b.spec_options(), true);
    lemma_splice_frame(e1, 2, TOTAL_LENGTH(), b.built_ihl() as int * 4, b.spec_payload(), true);
    lemma_set_then_get(d5, 4, IDENTIFICATION(), true, x6);
    lemma_put_frame(d6, 4, IDENTIFICATION(), 6, FLAGS(), true, x7);
    lemma_put_frame(d7, 4, IDENTIFICATION(), 6, FRAGMENT_OFFSET(), true, x8);
    lemma_put_frame(d8, 4, IDENTIFICATION(), 8, TTL(), true, x9);
    lemma_put_frame(d9, 4, IDENTIFICATION(), 9, PROTOCOL(), true, x10);
    lemma_put_frame(d10, 4, IDENTIFICATION(), 10, CHECKSUM(), true, x11);
    lemma_put_frame(d11, 4, IDENTIFICATION(), 12, SRC(), true, x12);
    lemma_put_frame(d12, 4, IDENTIFICATION(), 16, DST(), true, x13);
    lemma_splice_frame(d13, 4, IDENTIFICATION(), MIN_HEADER_LENGTH as int, b.spec_options(), true);
    lemma_splice_frame(e1, 4, IDENTIFICATION(), b.built_ihl() as int * 4, b.spec_payload(), true);
}

/// The last seven fields of a built packet read back.
#[verifier::rlimit(100)]
proof fn lemma_reads_back_tail(b: &Ipv4Builder)
    requires
        b.buildable(),
        (match b.spec_dscp() { Some(v) => v, None => 0 }) <= 63,
        (match b.spec_ecn() { Some(v) => v, None => 0 }) <= 3,
        (match b.spec_flags() { Some(v) => v, None => 0 }) <= 7,
        (match b.spec_fragment_offset() { Some(v) => v, None => 0 }) <= 0x1FFF,
    ensures
        b.spec_build().len() == (zero_seq(b.built_total_length() as nat)).len(),
        field_at(b.spec_build(), 6, FLAGS(), true) == (match b.spec_flags() { Some(v) => v, None => 0 }) as u64,
        field_at(b.spec_build(), 6, FRAGMENT_OFFSET(), true) == (match b.spec_fragment_offset() { Some(v) => v, None => 0 }) as u64,
        field_at(b.spec_build(), 8, TTL(), true) == (match b.spec_ttl() { Some(v) => v, None => 64 }) as u64,
        field_at(b.spec_build(), 9, PROTOCOL(), true) == (match b.spec_protocol() { Some(v) => v, None => IpProtocol::Reserved(255) }.spec_raw()) as u64,
        field_at(b.spec_build(), 10, CHECKSUM(), true) == (match b.spec_checksum() { Some(v) => v, None => 0 }) as u64,
        field_at(b.spec_build(), 12, SRC(), true) == (match b.spec_src() { Some(v) => v, None => 0 }) as u64,
        field_at(b.spec_build(), 16, DST(), true) == (match b.spec_dst() { Some(v) => v, None => 0 }) as u64,
{
    let d0 = zero_seq(b.built_total_length() as nat);
    let x1 = (4u64) as u64;
    let d1 = put_at(d0, 0, VERSION(), true, x1);
    let x2 = (b.built_ihl()) as u64;
    let d2 = put_at(d1, 0, IHL(), true, x2);
    let x3 = (match b.spec_dscp() { Some(v) => v, None => 0 }) as u64;
    let d3 = put_at(d2, 1, DSCP(), true, x3);
    let x4 = (match b.spec_ecn() { Some(v) => v, None => 0 }) as u64;
    let d4 = put_at(d3, 1, ECN(), true, x4);
    let x5 = (b.built_total_length()) as u64;
    let d5 = put_at(d4, 2, TOTAL_LENGTH(), true, x5);
    let x6 = (match b.spec_identification() { Some(v) => v, None => 0 }) as u64;
    let d6 = put_at(d5, 4, IDENTIFICATION(), true, x6);
    let x7 = (match b.spec_flags() { Some(v) => v, None => 0 }) as u64;
    let d7 = put_at(d6, 6, FLAGS(), true, x7);
    let x8 = (match b.spec_fragment_offset() { Some(v) => v, None => 0 }) as u64;
    let d8 = put_at(d7, 6, FRAGMENT_OFFSET(), true, x8);
    let x9 = (match b.spec_ttl() { Some(v) => v, None => 64 }) as u64;
    let d9 = put_at(d8, 8, TTL(), true, x9);
    let x10 = (match b.spec_protocol() { Some(v) => v, None => IpProtocol::Reserved(255) }.spec_raw()) as u64;
    let d10 = put_at(d9, 9, PROTOCOL(), true, x10);
    let x11 = (match b.spec_checksum() { Some(v) => v, None => 0 }) as u64;
    let d11 = put_at(d10, 10, CHECKSUM(), true, x11);
    let x12 = (match b.spec_src() { Some(v) => v, None => 0 }) as u64;
    let d12 = put_at(d11, 12, SRC(), true, x12);
    let x13 = (match b.spec_dst() { Some(v) => v, None => 0 }) as u64;
    let d13 = put_at(d12, 16, DST(), true, x13);
    let e1 = splice(d13, MIN_HEADER_LENGTH as int, b.spec_options());
    let e2 = splice(e1, b.built_ihl() as int * 4, b.spec_payload());
    assert(e2 == b.spec_build());
    lemma_pow256_small();
    lemma_put_len(d0, 0, VERSION(), true, x1);
    lemma_put_len(d1, 0, IHL(), true, x2);
    lemma_put_len(d2, 1, DSCP(), true, x3);
    lemma_put_len(d3, 1, ECN(), true, x4);
    lemma_put_len(d4, 2, TOTAL_LENGTH(), true, x5);
    lemma_put_len(d5, 4, IDENTIFICATION(), true, x6);
    lemma_put_len(d6, 6, FLAGS(), true, x7);
    lemma_put_len(d7, 6, FRAGMENT_OFFSET(), true, x8);
    lemma_put_len(d8, 8, TTL(), true, x9);
    lemma_put_len(d9, 9, PROTOCOL(), true, x10);
    lemma_put_len(d10, 10, CHECKSUM(), true, x11);
    lemma_put_len(d11, 12, SRC(), true, x12);
    lemma_put_len(d12, 16, DST(), true, x13);
    lemma_plain_fits(x5, 2);
    lemma_plain_fits(x6, 2);
    lemma_plain_fits(x9, 1);
    lemma_plain_fits(x10, 1);
    lemma_plain_fits(x11, 2);
    lemma_plain_fits(x12, 4);
    lemma_plain_fits(x13, 4);
    assert((x1 << 4u64) >> 4u64 == x1 && (x1 << 4u64) & !0xF0u64 == 0 && (x1 << 4u64) < 256 && (x2 << 0u64) >> 0u64 == x2 && (x2 << 0u64) & !0x0Fu64 == 0 && (x2 << 0u64) < 256 && (x3 << 2u64) >> 2u64 == x3 && (x3 << 2u64) & !0xFCu64 == 0 && (x3 << 2u64) < 256 && (x4 << 0u64) >> 0u64 == x4 && (x4 << 0u64) & !0x03u64 == 0 && (x4 << 0u64) < 256 && (x7 << 5u64) >> 5u64 == x7 && (x7 << 5u64) & !0xE0u64 == 0 && (x7 << 5u64) < 256 && (x8 << 0u64) >> 0u64 == x8 && (x8 << 0u64) & !0x1FFFu64 == 0 && (x8 << 0u64) < 65536) by (bit_vector)
        requires
            x1 <= 4,
            x2 <= 15,
            x3 <= 63,
            x4 <= 3,
            x7 <= 7,
            x8 <= 0x1FFF,
    ;
    lemma_set_then_get(d6, 6, FLAGS(), true, x7);
    lemma_flags_kept(d7, x8);
    lemma_put_frame(d8, 6, FLAGS(), 8, TTL(), true, x9);
    lemma_put_frame(d9, 6, FLAGS(), 9, PROTOCOL(), true, x10);
    lemma_put_frame(d10, 6, FLAGS(), 10, CHECKSUM(), true, x11);
    lemma_put_frame(d11, 6, FLAGS(), 12, SRC(), true, x12);
    lemma_put_frame(d12, 6, FLAGS(), 16, DST(), true, x13);
    lemma_splice_frame(d13, 6, FLAGS(), MIN_HEADER_LENGTH as int, b.spec_options(), true);
    lemma_splice_frame(e1, 6, FLAGS(), b.built_ihl() as int * 4, b.spec_payload(), true);
    lemma_set_then_get(d7, 6, FRAGMENT_OFFSET(), true, x8);
    lemma_put_frame(d8, 6, FRAGMENT_OFFSET(), 8, TTL(), true, x9);
    lemma_put_frame(d9, 6, FRAGMENT_OFFSET(), 9, PROTOCOL(), true, x10);
    lemma_put_frame(d10, 6, FRAGMENT_OFFSET(), 10, CHECKSUM(), true, x11);
    lemma_put_frame(d11, 6, FRAGMENT_OFFSET(), 12, SRC(), true, x12);
    lemma_put_frame(d12, 6, FRAGMENT_OFFSET(), 16, DST(), true, x13);
    lemma_splice_frame(d13, 6, FRAGMENT_OFFSET(), MIN_HEADER_LENGTH as int, b.spec_options(), true);
    lemma_splice_frame(e1, 6, FRAGMENT_OFFSET(), b.built_ihl() as int * 4, b.spec_payload(), true);
    lemma_set_then_get(d8, 8, TTL(), true, x9);
    lemma_put_frame(d9, 8, TTL(), 9, PROTOCOL(), true, x10);
    lemma_put_frame(d10, 8, TTL(), 10, CHECKSUM(), true, x11);
    lemma_put_frame(d11, 8, TTL(), 12, SRC(), true, x12);
    lemma_put_frame(d12, 8, TTL(), 16, DST(), true, x13);
    lemma_splice_frame(d13, 8, TTL(), MIN_HEADER_LENGTH as int, b.spec_options(), true);
    lemma_splice_frame(e1, 8, TTL(), b.built_ihl() as int * 4, b.spec_payload(), true);
    lemma_set_then_get(d9, 9, PROTOCOL(), true, x10);
    lemma_put_frame(d10, 9, PROTOCOL(), 10, CHECKSUM(), true, x11);
    lemma_put_frame(d11, 9, PROTOCOL(), 12, SRC(), true, x12);
    lemma_put_frame(d12, 9, PROTOCOL(), 16, DST(), true, x13);
    lemma_splice_frame(d13, 9, PROTOCOL(), MIN_HEADER_LENGTH as int, b.spec_options(), true);
    lemma_splice_frame(e1, 9, PROTOCOL(), b.built_ihl() as int * 4, b.spec_payload(), true);
    lemma_set_then_get(d10, 10, CHECKSUM(), true, x11);
    lemma_put_frame(d11, 10, CHECKSUM(), 12, SRC(), true, x12);
    lemma_put_frame(d12, 10, CHECKSUM(), 16, DST(), true, x13);
    lemma_splice_frame(d13, 10, CHECKSUM(), MIN_HEADER_LENGTH as int, b.spec_options(), true);
    lemma_splice_frame(e1, 10, CHECKSUM(), b.built_ihl() as int * 4, b.spec_payload(), true);
    lemma_set_then_get(d11, 12, SRC(), true, x12);
    lemma_put_frame(d12, 12, SRC(), 16, DST(), true, x13);
    lemma_splice_frame(d13, 12, SRC(), MIN_HEADER_LENGTH as int, b.spec_options(), true);
    lemma_splice_frame(e1, 12, SRC(), b.built_ihl() as int * 4, b.spec_payload(), true);
    lemma_set_then_get(d12, 16, DST(), true, x13);
    lemma_splice_frame(d13, 16, DST(), MIN_HEADER_LENGTH as int, b.spec_options(), true);
    lemma_splice_frame(e1, 16, DST(), b.built_ihl() as int * 4, b.spec_payload(), true);
}

/// A built packet reads back version 4 and each field that was set, its
/// default where it was not, and the derived header and total lengths
/// where none were set, as long as each value fits its bits.
pub proof fn lemma_build_reads_back(b: &Ipv4Builder)
    requires
        b.buildable(),
        (match b.spec_dscp() { Some(v) => v, None => 0 }) <= 63,
        (match b.spec_ecn() { Some(v) => v, None => 0 }) <= 3,
        (match b.spec_flags() { Some(v) => v, None => 0 }) <= 7,
        (match b.spec_fragment_offset() { Some(v) => v, None => 0 }) <= 0x1FFF,
    ensures
        b.spec_build().len() == (zero_seq(b.built_total_length() as nat)).len(),
        field_at(b.spec_build(), 0, VERSION(), true) == (4u64) as u64,
        field_at(b.spec_build(), 0, IHL(), true) == (b.built_ihl()) as u64,
        field_at(b.spec_build(), 1, DSCP(), true) == (match b.spec_dscp() { Some(v) => v, None => 0 }) as u64,
        field_at(b.spec_build(), 1, ECN(), true) == (match b.spec_ecn() { Some(v) => v, None => 0 }) as u64,
        field_at(b.spec_build(), 2, TOTAL_LENGTH(), true) == (b.built_total_length()) as u64,
        field_at(b.spec_build(), 4, IDENTIFICATION(), true) == (match b.spec_identification() { Some(v) => v, None => 0 }) as u64,
        field_at(b.spec_build(), 6, FLAGS(), true) == (match b.spec_flags() { Some(v) => v, None => 0 }) as u64,
        field_at(b.spec_build(), 6, FRAGMENT_OFFSET(), true) == (match b.spec_fragment_offset() { Some(v) => v, None => 0 }) as u64,
        field_at(b.spec_build(), 8, TTL(), true) == (match b.spec_ttl() { Some(v) => v, None => 64 }) as u64,
        field_at(b.spec_build(), 9, PROTOCOL(), true) == (match b.spec_protocol() { Some(v) => v, None => IpProtocol::Reserved(255) }.spec_raw()) as u64,
        field_at(b.spec_build(), 10, CHECKSUM(), true) == (match b.spec_checksum() { Some(v) => v, None => 0 }) as u64,
        field_at(b.spec_build(), 12, SRC(), true) == (match b.spec_src() { Some(v) => v, None => 0 }) as u64,
        field_at(b.spec_build(), 16, DST(), true) == (match b.spec_dst() { Some(v) => v, None => 0 }) as u64,
{
    lemma_reads_back_head(b);
    lemma_reads_back_tail(b);
}

/// A built packet holds the options right after the fixed header, zeros
/// up to the end of the header, and then the payload.
#[verifier::rlimit(100)]
pub proof fn lemma_build_body(b: &Ipv4Builder)
    requires
        b.buildable(),
    ensures
        b.spec_build().len() == b.built_total_length(),
        b.spec_build().subrange(MIN_HEADER_LENGTH as int, MIN_HEADER_LENGTH + b.spec_options().len())
            == b.spec_options(),
        forall|i: int|
            MIN_HEADER_LENGTH + b.spec_options().len() <= i < b.built_ihl() as int * 4 ==> b.spec_build()[i] == 0,
        b.spec_build().subrange(b.built_ihl() as int * 4, b.spec_build().len() as int) == b.spec_payload(),
{
    let d0 = zero_seq(b.built_total_length() as nat);
    let x1 = (4u64) as u64;
    let d1 = put_at(d0, 0, VERSION(), true, x1);
    lemma_put_outside(d0, 0, VERSION(), true, x1);
    let x2 = (b.built_ihl()) as u64;
    let d2 = put_at(d1, 0, IHL(), true, x2);
    lemma_put_outside(d1, 0, IHL(), true, x2);
    let x3 = (match b.spec_dscp() { Some(v) => v, None => 0 }) as u64;
    let d3 = put_at(d2, 1, DSCP(), true, x3);
    lemma_put_outside(d2, 1, DSCP(), true, x3);
    let x4 = (match b.spec_ecn() { Some(v) => v, None => 0 }) as u64;
    let d4 = put_at(d3, 1, ECN(), true, x4);
    lemma_put_outside(d3, 1, ECN(), true, x4);
    let x5 = (b.built_total_length()) as u64;
    let d5 = put_at(d4, 2, TOTAL_LENGTH(), true, x5);
    lemma_put_outside(d4, 2, TOTAL_LENGTH(), true, x5);
    let x6 = (match b.spec_identification() { Some(v) => v, None => 0 }) as u64;
    let d6 = put_at(d5, 4, IDENTIFICATION(), true, x6);
    lemma_put_outside(d5, 4, IDENTIFICATION(), true, x6);
    let x7 = (match b.spec_flags() { Some(v) => v, None => 0 }) as u64;
    let d7 = put_at(d6, 6, FLAGS(), true, x7);
    lemma_put_outside(d6, 6, FLAGS(), true, x7);
    let x8 = (match b.spec_fragment_offset() { Some(v) => v, None => 0 }) as u64;
    let d8 = put_at(d7, 6, FRAGMENT_OFFSET(), true, x8);
    lemma_put_outside(d7, 6, FRAGMENT_OFFSET(), true, x8);
    let x9 = (match b.spec_ttl() { Some(v) => v, None => 64 }) as u64;
    let d9 = put_at(d8, 8, TTL(), true, x9);
    lemma_put_outside(d8, 8, TTL(), true, x9);
    let x10 = (match b.spec_protocol() { Some(v) => v, None => IpProtocol::Reserved(255) }.spec_raw()) as u64;
    let d10 = put_at(d9, 9, PROTOCOL(), true, x10);
    lemma_put_outside(d9, 9, PROTOCOL(), true, x10);
    let x11 = (match b.spec_checksum() { Some(v) => v, None => 0 }) as u64;
    let d11 = put_at(d10, 10, CHECKSUM(), true, x11);
    lemma_put_outside(d10, 10, CHECKSUM(), true, x11);
    let x12 = (match b.spec_src() { Some(v) => v, None => 0 }) as u64;
    let d12 = put_at(d11, 12, SRC(), true, x12);
    lemma_put_outside(d11, 12, SRC(), true, x12);
    let x13 = (match b.spec_dst() { Some(v) => v, None => 0 }) as u64;
    let d13 = put_at(d12, 16, DST(), true, x13);
    lemma_put_outside(d12, 16, DST(), true, x13);
    assert forall|i: int| MIN_HEADER_LENGTH <= i < d13.len() implies d13[i] == 0 by {
        assert(d13[i] == d12[i]);
        assert(d12[i] == d11[i]);
        assert(d11[i] == d10[i]);
        assert(d10[i] == d9[i]);
        assert(d9[i] == d8[i]);
        assert(d8[i] == d7[i]);
        assert(d7[i] == d6[i]);
        assert(d6[i] == d5[i]);
        assert(d5[i] == d4[i]);
        assert(d4[i] == d3[i]);
        assert(d3[i] == d2[i]);
        assert(d2[i] == d1[i]);
        assert(d1[i] == d0[i]);
    }
    let opts = b.spec_options();
    let e1 = splice(d13, MIN_HEADER_LENGTH as int, opts);
    let e2 = splice(e1, b.built_ihl() as int * 4, b.spec_payload());
    assert(e2 == b.spec_build());
    assert(e2.subrange(MIN_HEADER_LENGTH as int, MIN_HEADER_LENGTH + opts.len()) =~= opts);
    assert(e2.subrange(b.built_ihl() as int * 4, e2.len() as int) =~= b.spec_payload());
}

/// A builder given only a payload builds a packet whose header length is
/// the minimum, 5 words, and whose total length is 20 bytes more than the
/// payload.
pub proof fn lemma_derived_lengths(b: &Ipv4Builder)
    requires
        b.spec_ihl() is None,
        b.spec_dscp() is None,
        b.spec_ecn() is None,
        b.spec_total_length() is None,
        b.spec_flags() is None,
        b.spec_fragment_offset() is None,
        b.spec_options().len() == 0,
        b.spec_payload().len() + MIN_HEADER_LENGTH <= u16::MAX,
    ensures
        b.buildable(),
        field_at(b.spec_build(), 0, IHL(), true) == 5,
        field_at(b.spec_build(), 2, TOTAL_LENGTH(), true) == MIN_HEADER_LENGTH + b.spec_payload().len(),
{
    assert(b.built_ihl() == 5);
    assert(b.buildable());
    lemma_build_reads_back(b);
}

} // verus!
