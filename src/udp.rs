//! UDP layer.
use vstd::prelude::*;
use vstd::slice::slice_subrange;

use crate::field::{append_bytes, copy_into, field_at, put_at, read_field, splice, write_field, zero_seq, zeros, FieldSpec};

use crate::field::{lemma_plain_fits, lemma_pow256_small, lemma_put_frame, lemma_put_len, lemma_set_then_get, lemma_splice_frame};

verus! {

/// Minimum length of a UDP header.
pub const MIN_HEADER_LENGTH: usize = 8;

/// Error type for the UDP layer.
#[derive(Debug, Clone, PartialEq, Eq)]
pub enum UdpError {
    /// The buffer is shorter than the 8 bytes of a header; holds its length.
    InvalidLength(usize),
}

/// Position of the source port field.
pub open spec fn SRC_PORT() -> FieldSpec {
    FieldSpec { width: 2, mask: u64::MAX, shift: 0 }
}

/// Position of the destination port field.
pub open spec fn DST_PORT() -> FieldSpec {
    FieldSpec { width: 2, mask: u64::MAX, shift: 0 }
}

/// Position of the length field.
pub open spec fn LENGTH() -> FieldSpec {
    FieldSpec { width: 2, mask: u64::MAX, shift: 0 }
}

/// Position of the checksum field.
pub open spec fn CHECKSUM() -> FieldSpec {
    FieldSpec { width: 2, mask: u64::MAX, shift: 0 }
}

/// A UDP header and its payload, over an owned buffer.
pub struct Udp {
    data: Vec<u8>,
}

impl Udp {
    /// The bytes.
    pub closed spec fn bytes(&self) -> Seq<u8> {
        self.data@
    }

    /// The buffer holds the fixed part of a header.
    pub open spec fn wf(&self) -> bool {
        self.bytes().len() >= MIN_HEADER_LENGTH
    }

    /// Checks that the buffer holds the fixed part of a header.
    pub fn validate(&self) -> (r: Result<(), UdpError>)
        ensures
            r == if self.bytes().len() >= MIN_HEADER_LENGTH {
                Ok(())
            } else {
                Err(UdpError::InvalidLength(self.bytes().len() as usize))
            },
    {
        if self.data.len() < MIN_HEADER_LENGTH {
            return Err(UdpError::InvalidLength(self.data.len()));
        }
        Ok(())
    }

    /// A view over `data`, if it holds the fixed part of a header.
    pub fn new(data: Vec<u8>) -> (r: Result<Udp, UdpError>)
        ensures
            r is Ok <==> data@.len() >= MIN_HEADER_LENGTH,
            r matches Ok(p) ==> p.bytes() == data@,
            r matches Err(e) ==> e == UdpError::InvalidLength(data@.len() as usize),
    {
        let res = Udp { data };
        match res.validate() {
            Ok(()) => Ok(res),
            Err(e) => Err(e),
        }
    }

    /// The bytes.
    pub fn inner(&self) -> (r: &Vec<u8>)
        ensures
            r@ == self.bytes(),
    {
        &self.data
    }

    /// The source port.
    pub fn src_port(&self) -> (r: u16)
        requires
            self.wf(),
        ensures
            r == field_at(self.bytes(), 0, SRC_PORT(), true) as u16,
    {
        let f = FieldSpec { width: 2, mask: u64::MAX, shift: 0 };
        read_field(self.data.as_slice(), 0, f, true) as u16
    }

    /// Writes the source port.
    pub fn src_port_mut(&mut self, v: u16)
        requires
            old(self).wf(),
        ensures
            final(self).bytes() == put_at(old(self).bytes(), 0, SRC_PORT(), true, v as u64),
            final(self).wf(),
            final(self).bytes().len() == old(self).bytes().len(),
    {
        let f = FieldSpec { width: 2, mask: u64::MAX, shift: 0 };
        write_field(&mut self.data, 0, f, true, v as u64);
    }

    /// The destination port.
    pub fn dst_port(&self) -> (r: u16)
        requires
            self.wf(),
        ensures
            r == field_at(self.bytes(), 2, DST_PORT(), true) as u16,
    {
        let f = FieldSpec { width: 2, mask: u64::MAX, shift: 0 };
        read_field(self.data.as_slice(), 2, f, true) as u16
    }

    /// Writes the destination port.
    pub fn dst_port_mut(&mut self, v: u16)
        requires
            old(self).wf(),
        ensures
            final(self).bytes() == put_at(old(self).bytes(), 2, DST_PORT(), true, v as u64),
            final(self).wf(),
            final(self).bytes().len() == old(self).bytes().len(),
    {
        let f = FieldSpec { width: 2, mask: u64::MAX, shift: 0 };
        write_field(&mut self.data, 2, f, true, v as u64);
    }

    /// The length.
    pub fn length(&self) -> (r: u16)
        requires
            self.wf(),
        ensures
            r == field_at(self.bytes(), 4, LENGTH(), true) as u16,
    {
        let f = FieldSpec { width: 2, mask: u64::MAX, shift: 0 };
        read_field(self.data.as_slice(), 4, f, true) as u16
    }

    /// Writes the length.
    pub fn length_mut(&mut self, v: u16)
        requires
            old(self).wf(),
        ensures
            final(self).bytes() == put_at(old(self).bytes(), 4, LENGTH(), true, v as u64),
            final(self).wf(),
            final(self).bytes().len() == old(self).bytes().len(),
    {
        let f = FieldSpec { width: 2, mask: u64::MAX, shift: 0 };
        write_field(&mut self.data, 4, f, true, v as u64);
    }

    /// The checksum.
    pub fn checksum(&self) -> (r: u16)
        requires
            self.wf(),
        ensures
            r == field_at(self.bytes(), 6, CHECKSUM(), true) as u16,
    {
        let f = FieldSpec { width: 2, mask: u64::MAX, shift: 0 };
        read_field(self.data.as_slice(), 6, f, true) as u16
    }

    /// Writes the checksum.
    pub fn checksum_mut(&mut self, v: u16)
        requires
            old(self).wf(),
        ensures
            final(self).bytes() == put_at(old(self).bytes(), 6, CHECKSUM(), true, v as u64),
            final(self).wf(),
            final(self).bytes().len() == old(self).bytes().len(),
    {
        let f = FieldSpec { width: 2, mask: u64::MAX, shift: 0 };
        write_field(&mut self.data, 6, f, true, v as u64);
    }

    /// The payload: the bytes after the header.
    pub fn payload(&self) -> (r: &[u8])
        requires
            self.wf(),
        ensures
            r@ == self.bytes().subrange(MIN_HEADER_LENGTH as int, self.bytes().len() as int),
    {
        slice_subrange(self.data.as_slice(), MIN_HEADER_LENGTH, self.data.len())
    }

    /// Overwrites the payload with `p`, which has the payload's length.
    pub fn payload_mut(&mut self, p: &[u8])
        requires
            old(self).wf(),
            p@.len() == old(self).bytes().len() - MIN_HEADER_LENGTH,
        ensures
            final(self).bytes() == splice(old(self).bytes(), MIN_HEADER_LENGTH as int, p@),
            final(self).wf(),
            final(self).bytes().len() == old(self).bytes().len(),
    {
        copy_into(&mut self.data, MIN_HEADER_LENGTH, p);
    }
}

/// Builder for [`Udp`].
pub struct UdpBuilder {
    src_port: Option<u16>,
    dst_port: Option<u16>,
    length: Option<u16>,
    checksum: Option<u16>,
    payload: Vec<u8>,
}

impl UdpBuilder {
    pub closed spec fn spec_src_port(&self) -> Option<u16> {
        self.src_port
    }

    pub closed spec fn spec_dst_port(&self) -> Option<u16> {
        self.dst_port
    }

    pub closed spec fn spec_length(&self) -> Option<u16> {
        self.length
    }

    pub closed spec fn spec_checksum(&self) -> Option<u16> {
        self.checksum
    }

    pub closed spec fn spec_payload(&self) -> Seq<u8> {
        self.payload@
    }

    /// The length that `build` writes: the one set, or 8 plus the payload's
    /// length.
    pub open spec fn built_length(&self) -> int {
        match self.spec_length() {
            Some(v) => v as int,
            None => MIN_HEADER_LENGTH as int + (self.spec_payload().len() as u16) as int,
        }
    }

    /// The length leaves room for exactly the header and the payload.
    pub open spec fn buildable(&self) -> bool {
        &&& self.built_length() <= u16::MAX
        &&& self.built_length() == MIN_HEADER_LENGTH + self.spec_payload().len()
    }

    /// The bytes of the datagram that `build` makes: a zeroed buffer of the
    /// length, with each field, set or zero, written in turn, then the payload.
    pub open spec fn spec_build(&self) -> Seq<u8> {
        let d = zero_seq(self.built_length() as nat);
        let d = put_at(d, 0, SRC_PORT(), true, match self.spec_src_port() { Some(v) => v, None => 0 } as u64);
        let d = put_at(d, 2, DST_PORT(), true, match self.spec_dst_port() { Some(v) => v, None => 0 } as u64);
        let d = put_at(d, 4, LENGTH(), true, self.built_length() as u64);
        let d = put_at(d, 6, CHECKSUM(), true, match self.spec_checksum() { Some(v) => v, None => 0 } as u64);
        splice(d, MIN_HEADER_LENGTH as int, self.spec_payload())
    }

    /// A builder with no field set and an empty payload.
    pub fn new() -> (r: UdpBuilder)
        ensures
            r.spec_src_port() is None,
            r.spec_dst_port() is None,
            r.spec_length() is None,
            r.spec_checksum() is None,
            r.spec_payload() == Seq::<u8>::empty(),
    {
        UdpBuilder {
            src_port: None,
            dst_port: None,
            length: None,
            checksum: None,
            payload: Vec::new(),
        }
    }

    /// Sets the source port.
    pub fn src_port(self, v: u16) -> (r: UdpBuilder)
        ensures
            r.spec_src_port() == Some(v),
            r.spec_dst_port() == self.spec_dst_port(),
            r.spec_length() == self.spec_length(),
            r.spec_checksum() == self.spec_checksum(),
            r.spec_payload() == self.spec_payload(),
    {
        UdpBuilder { src_port: Some(v), ..self }
    }

    /// Sets the destination port.
    pub fn dst_port(self, v: u16) -> (r: UdpBuilder)
        ensures
            r.spec_dst_port() == Some(v),
            r.spec_src_port() == self.spec_src_port(),
            r.spec_length() == self.spec_length(),
            r.spec_checksum() == self.spec_checksum(),
            r.spec_payload() == self.spec_payload(),
    {
        UdpBuilder { dst_port: Some(v), ..self }
    }

    /// Sets the length.
    pub fn length(self, v: u16) -> (r: UdpBuilder)
        ensures
            r.spec_length() == Some(v),
            r.spec_src_port() == self.spec_src_port(),
            r.spec_dst_port() == self.spec_dst_port(),
            r.spec_checksum() == self.spec_checksum(),
            r.spec_payload() == self.spec_payload(),
    {
        UdpBuilder { length: Some(v), ..self }
    }

    /// Sets the checksum.
    pub fn checksum(self, v: u16) -> (r: UdpBuilder)
        ensures
            r.spec_checksum() == Some(v),
            r.spec_src_port() == self.spec_src_port(),
            r.spec_dst_port() == self.spec_dst_port(),
            r.spec_length() == self.spec_length(),
            r.spec_payload() == self.spec_payload(),
    {
        UdpBuilder { checksum: Some(v), ..self }
    }

    /// Appends `v` to the payload.
    pub fn payload(self, v: &[u8]) -> (r: UdpBuilder)
        ensures
            r.spec_payload() == self.spec_payload() + v@,
            r.spec_src_port() == self.spec_src_port(),
            r.spec_dst_port() == self.spec_dst_port(),
            r.spec_length() == self.spec_length(),
            r.spec_checksum() == self.spec_checksum(),
    {
        let mut b = self;
        append_bytes(&mut b.payload, v);
        b
    }

    #[verifier::rlimit(50)]
    /// Builds the datagram.
    pub fn build(&self) -> (r: Udp)
        requires
            self.buildable(),
        ensures
            r.wf(),
            r.bytes() == self.spec_build(),
    {
        let len: u16 = match self.length {
            Some(v) => v,
            None => MIN_HEADER_LENGTH as u16 + self.payload.len() as u16,
        };
        let mut udp = Udp { data: zeros(len as usize) };
        proof {
            assert(udp.bytes() =~= zero_seq(len as nat));
        }
        udp.src_port_mut(match self.src_port { Some(v) => v, None => 0 });
        udp.dst_port_mut(match self.dst_port { Some(v) => v, None => 0 });
        udp.length_mut(len);
        udp.checksum_mut(match self.checksum { Some(v) => v, None => 0 });
        udp.payload_mut(self.payload.as_slice());
        udp
    }

}

/// A built datagram reads back each field that was set, its default
/// where it was not, and the derived length where none was set.
#[verifier::rlimit(100)]
pub proof fn lemma_build_reads_back(b: &UdpBuilder)
    requires
        b.buildable(),
    ensures
        b.spec_build().len() == (zero_seq(b.built_length() as nat)).len(),
        field_at(b.spec_build(), 0, SRC_PORT(), true) == (match b.spec_src_port() { Some(v) => v, None => 0 }) as u64,
        field_at(b.spec_build(), 2, DST_PORT(), true) == (match b.spec_dst_port() { Some(v) => v, None => 0 }) as u64,
        field_at(b.spec_build(), 4, LENGTH(), true) == (b.built_length()) as u64,
        field_at(b.spec_build(), 6, CHECKSUM(), true) == (match b.spec_checksum() { Some(v) => v, None => 0 }) as u64,
{
    let d0 = zero_seq(b.built_length() as nat);
    let x1 = (match b.spec_src_port() { Some(v) => v, None => 0 }) as u64;
    let d1 = put_at(d0, 0, SRC_PORT(), true, x1);
    let x2 = (match b.spec_dst_port() { Some(v) => v, None => 0 }) as u64;
    let d2 = put_at(d1, 2, DST_PORT(), true, x2);
    let x3 = (b.built_length()) as u64;
    let d3 = put_at(d2, 4, LENGTH(), true, x3);
    let x4 = (match b.spec_checksum() { Some(v) => v, None => 0 }) as u64;
    let d4 = put_at(d3, 6, CHECKSUM(), true, x4);
    let e1 = splice(d4, MIN_HEADER_LENGTH as int, b.spec_payload());
    assert(e1 == b.spec_build());
    lemma_pow256_small();
    lemma_put_len(d0, 0, SRC_PORT(), true, x1);
    lemma_put_len(d1, 2, DST_PORT(), true, x2);
    lemma_put_len(d2, 4, LENGTH(), true, x3);
    lemma_put_len(d3, 6, CHECKSUM(), true, x4);
    lemma_plain_fits(x1, 2);
    lemma_plain_fits(x2, 2);
    lemma_plain_fits(x3, 2);
    lemma_plain_fits(x4, 2);
    lemma_set_then_get(d0, 0, SRC_PORT(), true, x1);
    lemma_put_frame(d1, 0, SRC_PORT(), 2, DST_PORT(), true, x2);
    lemma_put_frame(d2, 0, SRC_PORT(), 4, LENGTH(), true, x3);
    lemma_put_frame(d3, 0, SRC_PORT(), 6, CHECKSUM(), true, x4);
    lemma_splice_frame(d4, 0, SRC_PORT(), MIN_HEADER_LENGTH as int, b.spec_payload(), true);
    lemma_set_then_get(d1, 2, DST_PORT(), true, x2);
    lemma_put_frame(d2, 2, DST_PORT(), 4, LENGTH(), true, x3);
    lemma_put_frame(d3, 2, DST_PORT(), 6, CHECKSUM(), true, x4);
    lemma_splice_frame(d4, 2, DST_PORT(), MIN_HEADER_LENGTH as int, b.spec_payload(), true);
    lemma_set_then_get(d2, 4, LENGTH(), true, x3);
    lemma_put_frame(d3, 4, LENGTH(), 6, CHECKSUM(), true, x4);
    lemma_splice_frame(d4, 4, LENGTH(), MIN_HEADER_LENGTH as int, b.spec_payload(), true);
    lemma_set_then_get(d3, 6, CHECKSUM(), true, x4);
    lemma_splice_frame(d4, 6, CHECKSUM(), MIN_HEADER_LENGTH as int, b.spec_payload(), true);
}

} // verus!
