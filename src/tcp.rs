//! TCP layer.
use vstd::prelude::*;
use vstd::slice::slice_subrange;

use crate::field::{append_bytes, copy_into, field_at, put_at, read_field, splice, write_field, zero_seq, zeros, FieldSpec};

use crate::tcp_flags::TcpFlags;

use crate::field::{lemma_put_outside, lemma_plain_fits, lemma_pow256_small, lemma_put_frame, lemma_put_len, lemma_set_then_get, lemma_splice_frame};

verus! {

/// Minimum length of a TCP header.
pub const MIN_HEADER_LENGTH: usize = 20;

/// Error type for the TCP layer.
#[derive(Debug, Clone, PartialEq, Eq)]
pub enum TcpError {
    /// The buffer is shorter than the 20 bytes of a header; holds its length.
    InvalidLength(usize),
}

/// Position of the source port field.
pub open spec fn SRC_PORT() -> FieldSpec {
    FieldSpec { width: 2, mask: u64::MAX, shift: 0 }
}

/// Position of the destination port field.
pub open spec fn DST_PORT() -> FieldSpec {
    FieldSpec { width: 2, mask: u64::MAX, shift: 0 }
}

/// Position of the sequence number field.
pub open spec fn SEQ_NUM() -> FieldSpec {
    FieldSpec { width: 4, mask: u64::MAX, shift: 0 }
}

/// Position of the acknowledgment number field.
pub open spec fn ACK_NUM() -> FieldSpec {
    FieldSpec { width: 4, mask: u64::MAX, shift: 0 }
}

/// Position of the data offset: header length in 32-bit words (4 bits) field.
pub open spec fn DATA_OFFSET() -> FieldSpec {
    FieldSpec { width: 1, mask: 0xF0, shift: 4 }
}

/// Position of the flags field.
pub open spec fn FLAGS() -> FieldSpec {
    FieldSpec { width: 1, mask: u64::MAX, shift: 0 }
}

/// Position of the window size field.
pub open spec fn WINDOW_SIZE() -> FieldSpec {
    FieldSpec { width: 2, mask: u64::MAX, shift: 0 }
}

/// Position of the checksum field.
pub open spec fn CHECKSUM() -> FieldSpec {
    FieldSpec { width: 2, mask: u64::MAX, shift: 0 }
}

/// Position of the urgent pointer field.
pub open spec fn URGENT_POINTER() -> FieldSpec {
    FieldSpec { width: 2, mask: u64::MAX, shift: 0 }
}

/// A value below 16 fits the data offset field.
pub proof fn lemma_data_offset_fits(x: u64)
    requires
        x <= 15,
    ensures
        DATA_OFFSET().fits(x),
{
    assert((x << 4u64) >> 4u64 == x && (x << 4u64) & !0xF0u64 == 0 && (x << 4u64) < 256) by (bit_vector)
        requires
            x <= 15,
    ;
    assert(crate::field::pow256(1) == 256) by {
        reveal_with_fuel(crate::field::pow256, 2);
    }
}

/// A TCP header and its payload, over an owned buffer.
pub struct Tcp {
    data: Vec<u8>,
}

impl Tcp {
    /// The bytes.
    pub closed spec fn bytes(&self) -> Seq<u8> {
        self.data@
    }

    /// The buffer holds the fixed part of a header.
    pub open spec fn wf(&self) -> bool {
        self.bytes().len() >= MIN_HEADER_LENGTH
    }

    /// The header length in bytes that the data offset field declares.
    pub open spec fn spec_header_len(&self) -> int {
        4 * (field_at(self.bytes(), 12, DATA_OFFSET(), true) as u8) as int
    }

    /// Checks that the buffer holds the fixed part of a header.
    pub fn validate(&self) -> (r: Result<(), TcpError>)
        ensures
            r == if self.bytes().len() >= MIN_HEADER_LENGTH {
                Ok(())
            } else {
                Err(TcpError::InvalidLength(self.bytes().len() as usize))
            },
    {
        if self.data.len() < MIN_HEADER_LENGTH {
            return Err(TcpError::InvalidLength(self.data.len()));
        }
        Ok(())
    }

    /// A view over `data`, if it holds the fixed part of a header.
    pub fn new(data: Vec<u8>) -> (r: Result<Tcp, TcpError>)
        ensures
            r is Ok <==> data@.len() >= MIN_HEADER_LENGTH,
            r matches Ok(p) ==> p.bytes() == data@,
            r matches Err(e) ==> e == TcpError::InvalidLength(data@.len() as usize),
    {
        let res = Tcp { data };
        match res.validate() {
            Ok(()) => Ok(res),
            Err(e) => Err(e),
        }
    }

    /// The bytes.
    pub fn inner(&self) -> (r: &Vec<u8>)
        ensures
            r@ == self.bytes(),
    {
        &self.data
    }

    /// The source port.
    pub fn src_port(&self) -> (r: u16)
        requires
            self.wf(),
        ensures
            r == field_at(self.bytes(), 0, SRC_PORT(), true) as u16,
    {
        let f = FieldSpec { width: 2, mask: u64::MAX, shift: 0 };
        read_field(self.data.as_slice(), 0, f, true) as u16
    }

    /// Writes the source port.
    pub fn src_port_mut(&mut self, v: u16)
        requires
            old(self).wf(),
        ensures
            final(self).bytes() == put_at(old(self).bytes(), 0, SRC_PORT(), true, v as u64),
            final(self).wf(),
            final(self).bytes().len() == old(self).bytes().len(),
    {
        let f = FieldSpec { width: 2, mask: u64::MAX, shift: 0 };
        write_field(&mut self.data, 0, f, true, v as u64);
    }

    /// The destination port.
    pub fn dst_port(&self) -> (r: u16)
        requires
            self.wf(),
        ensures
            r == field_at(self.bytes(), 2, DST_PORT(), true) as u16,
    {
        let f = FieldSpec { width: 2, mask: u64::MAX, shift: 0 };
        read_field(self.data.as_slice(), 2, f, true) as u16
    }

    /// Writes the destination port.
    pub fn dst_port_mut(&mut self, v: u16)
        requires
            old(self).wf(),
        ensures
            final(self).bytes() == put_at(old(self).bytes(), 2, DST_PORT(), true, v as u64),
            final(self).wf(),
            final(self).bytes().len() == old(self).bytes().len(),
    {
        let f = FieldSpec { width: 2, mask: u64::MAX, shift: 0 };
        write_field(&mut self.data, 2, f, true, v as u64);
    }

    /// The sequence number.
    pub fn seq_num(&self) -> (r: u32)
        requires
            self.wf(),
        ensures
            r == field_at(self.bytes(), 4, SEQ_NUM(), true) as u32,
    {
        let f = FieldSpec { width: 4, mask: u64::MAX, shift: 0 };
        read_field(self.data.as_slice(), 4, f, true) as u32
    }

    /// Writes the sequence number.
    pub fn seq_num_mut(&mut self, v: u32)
        requires
            old(self).wf(),
        ensures
            final(self).bytes() == put_at(old(self).bytes(), 4, SEQ_NUM(), true, v as u64),
            final(self).wf(),
            final(self).bytes().len() == old(self).bytes().len(),
    {
        let f = FieldSpec { width: 4, mask: u64::MAX, shift: 0 };
        write_field(&mut self.data, 4, f, true, v as u64);
    }

    /// The acknowledgment number.
    pub fn ack_num(&self) -> (r: u32)
        requires
            self.wf(),
        ensures
            r == field_at(self.bytes(), 8, ACK_NUM(), true) as u32,
    {
        let f = FieldSpec { width: 4, mask: u64::MAX, shift: 0 };
        read_field(self.data.as_slice(), 8, f, true) as u32
    }

    /// Writes the acknowledgment number.
    pub fn ack_num_mut(&mut self, v: u32)
        requires
            old(self).wf(),
        ensures
            final(self).bytes() == put_at(old(self).bytes(), 8, ACK_NUM(), true, v as u64),
            final(self).wf(),
            final(self).bytes().len() == old(self).bytes().len(),
    {
        let f = FieldSpec { width: 4, mask: u64::MAX, shift: 0 };
        write_field(&mut self.data, 8, f, true, v as u64);
    }

    /// The data offset: header length in 32-bit words (4 bits).
    pub fn data_offset(&self) -> (r: u8)
        requires
            self.wf(),
        ensures
            r == field_at(self.bytes(), 12, DATA_OFFSET(), true) as u8,
    {
        let f = FieldSpec { width: 1, mask: 0xF0, shift: 4 };
        read_field(self.data.as_slice(), 12, f, true) as u8
    }

    /// Writes the data offset: header length in 32-bit words (4 bits).
    pub fn data_offset_mut(&mut self, v: u8)
        requires
            old(self).wf(),
        ensures
            final(self).bytes() == put_at(old(self).bytes(), 12, DATA_OFFSET(), true, v as u64),
            final(self).wf(),
            final(self).bytes().len() == old(self).bytes().len(),
    {
        let f = FieldSpec { width: 1, mask: 0xF0, shift: 4 };
        write_field(&mut self.data, 12, f, true, v as u64);
    }

    /// The flags.
    pub fn flags(&self) -> (r: TcpFlags)
        requires
            self.wf(),
        ensures
            r == TcpFlags::spec_from_bits(field_at(self.bytes(), 13, FLAGS(), true) as u8),
    {
        let f = FieldSpec { width: 1, mask: u64::MAX, shift: 0 };
        TcpFlags::from_bits_retain(read_field(self.data.as_slice(), 13, f, true) as u8)
    }

    /// Writes the flags.
    pub fn flags_mut(&mut self, v: TcpFlags)
        requires
            old(self).wf(),
        ensures
            final(self).bytes() == put_at(old(self).bytes(), 13, FLAGS(), true, v.spec_bits() as u64),
            final(self).wf(),
            final(self).bytes().len() == old(self).bytes().len(),
    {
        let f = FieldSpec { width: 1, mask: u64::MAX, shift: 0 };
        write_field(&mut self.data, 13, f, true, v.bits() as u64);
    }

    /// The window size.
    pub fn window_size(&self) -> (r: u16)
        requires
            self.wf(),
        ensures
            r == field_at(self.bytes(), 14, WINDOW_SIZE(), true) as u16,
    {
        let f = FieldSpec { width: 2, mask: u64::MAX, shift: 0 };
        read_field(self.data.as_slice(), 14, f, true) as u16
    }

    /// Writes the window size.
    pub fn window_size_mut(&mut self, v: u16)
        requires
            old(self).wf(),
        ensures
            final(self).bytes() == put_at(old(self).bytes(), 14, WINDOW_SIZE(), true, v as u64),
            final(self).wf(),
            final(self).bytes().len() == old(self).bytes().len(),
    {
        let f = FieldSpec { width: 2, mask: u64::MAX, shift: 0 };
        write_field(&mut self.data, 14, f, true, v as u64);
    }

    /// The checksum.
    pub fn checksum(&self) -> (r: u16)
        requires
            self.wf(),
        ensures
            r == field_at(self.bytes(), 16, CHECKSUM(), true) as u16,
    {
        let f = FieldSpec { width: 2, mask: u64::MAX, shift: 0 };
        read_field(self.data.as_slice(), 16, f, true) as u16
    }

    /// Writes the checksum.
    pub fn checksum_mut(&mut self, v: u16)
        requires
            old(self).wf(),
        ensures
            final(self).bytes() == put_at(old(self).bytes(), 16, CHECKSUM(), true, v as u64),
            final(self).wf(),
            final(self).bytes().len() == old(self).bytes().len(),
    {
        let f = FieldSpec { width: 2, mask: u64::MAX, shift: 0 };
        write_field(&mut self.data, 16, f, true, v as u64);
    }

    /// The urgent pointer.
    pub fn urgent_pointer(&self) -> (r: u16)
        requires
            self.wf(),
        ensures
            r == field_at(self.bytes(), 18, URGENT_POINTER(), true) as u16,
    {
        let f = FieldSpec { width: 2, mask: u64::MAX, shift: 0 };
        read_field(self.data.as_slice(), 18, f, true) as u16
    }

    /// Writes the urgent pointer.
    pub fn urgent_pointer_mut(&mut self, v: u16)
        requires
            old(self).wf(),
        ensures
            final(self).bytes() == put_at(old(self).bytes(), 18, URGENT_POINTER(), true, v as u64),
            final(self).wf(),
            final(self).bytes().len() == old(self).bytes().len(),
    {
        let f = FieldSpec { width: 2, mask: u64::MAX, shift: 0 };
        write_field(&mut self.data, 18, f, true, v as u64);
    }

    /// The options: the header's bytes after the fixed part.
    pub fn options(&self) -> (r: &[u8])
        requires
            self.wf(),
            MIN_HEADER_LENGTH <= self.spec_header_len() <= self.bytes().len(),
        ensures
            r@ == self.bytes().subrange(MIN_HEADER_LENGTH as int, self.spec_header_len()),
    {
        let end = self.data_offset() as usize * 4;
        slice_subrange(self.data.as_slice(), MIN_HEADER_LENGTH, end)
    }

    /// The payload: the bytes after the header.
    pub fn payload(&self) -> (r: &[u8])
        requires
            self.wf(),
            self.spec_header_len() <= self.bytes().len(),
        ensures
            r@ == self.bytes().subrange(self.spec_header_len(), self.bytes().len() as int),
    {
        let start = self.data_offset() as usize * 4;
        slice_subrange(self.data.as_slice(), start, self.data.len())
    }

    /// Overwrites the options with `o`, which has the options' length.
    pub fn options_mut(&mut self, o: &[u8])
        requires
            old(self).wf(),
            MIN_HEADER_LENGTH <= old(self).spec_header_len() <= old(self).bytes().len(),
            o@.len() == old(self).spec_header_len() - MIN_HEADER_LENGTH,
        ensures
            final(self).bytes() == splice(old(self).bytes(), MIN_HEADER_LENGTH as int, o@),
            final(self).wf(),
            final(self).bytes().len() == old(self).bytes().len(),
    {
        copy_into(&mut self.data, MIN_HEADER_LENGTH, o);
    }

    /// Overwrites the payload with `p`, which has the payload's length.
    pub fn payload_mut(&mut self, p: &[u8])
        requires
            old(self).wf(),
            old(self).spec_header_len() <= old(self).bytes().len(),
            p@.len() == old(self).bytes().len() - old(self).spec_header_len(),
        ensures
            final(self).bytes() == splice(old(self).bytes(), old(self).spec_header_len(), p@),
            final(self).wf(),
            final(self).bytes().len() == old(self).bytes().len(),
    {
        let start = self.data_offset() as usize * 4;
        copy_into(&mut self.data, start, p);
    }
}

/// Builder for [`Tcp`].
pub struct TcpBuilder {
    src_port: Option<u16>,
    dst_port: Option<u16>,
    seq_num: Option<u32>,
    ack_num: Option<u32>,
    data_offset: Option<u8>,
    flags: Option<TcpFlags>,
    window_size: Option<u16>,
    checksum: Option<u16>,
    urgent_pointer: Option<u16>,
    options: Vec<u8>,
    payload: Vec<u8>,
}

impl TcpBuilder {
    pub closed spec fn spec_src_port(&self) -> Option<u16> {
        self.src_port
    }

    pub closed spec fn spec_dst_port(&self) -> Option<u16> {
        self.dst_port
    }

    pub closed spec fn spec_seq_num(&self) -> Option<u32> {
        self.seq_num
    }

    pub closed spec fn spec_ack_num(&self) -> Option<u32> {
        self.ack_num
    }

    pub closed spec fn spec_data_offset(&self) -> Option<u8> {
        self.data_offset
    }

    pub closed spec fn spec_flags(&self) -> Option<TcpFlags> {
        self.flags
    }

    pub closed spec fn spec_window_size(&self) -> Option<u16> {
        self.window_size
    }

    pub closed spec fn spec_checksum(&self) -> Option<u16> {
        self.checksum
    }

    pub closed spec fn spec_urgent_pointer(&self) -> Option<u16> {
        self.urgent_pointer
    }

    pub closed spec fn spec_options(&self) -> Seq<u8> {
        self.options@
    }

    pub closed spec fn spec_payload(&self) -> Seq<u8> {
        self.payload@
    }

    /// The data offset that `build` writes: the one set, or the least that
    /// holds the options, their length in words rounded up plus 5 (16, which
    /// does not fit, where that is above 15).
    pub open spec fn built_data_offset(&self) -> u8 {
        match self.spec_data_offset() {
            Some(v) => v,
            None => if self.spec_options().len() <= 40 {
                ((self.spec_options().len() + 3) / 4 + 5) as u8
            } else {
                16
            },
        }
    }

    /// The data offset fits its four bits and the header holds the options
    /// (zeros pad them to its end).
    pub open spec fn buildable(&self) -> bool {
        &&& self.built_data_offset() <= 15
        &&& self.built_data_offset() as int * 4 >= MIN_HEADER_LENGTH + self.spec_options().len()
        &&& self.built_data_offset() as int * 4 + self.spec_payload().len() <= usize::MAX
    }

    /// The bytes of the segment that `build` makes: a zeroed buffer of header
    /// and payload, with each field, set or defaulted, written in turn, then
    /// the options and the payload.
    pub open spec fn spec_build(&self) -> Seq<u8> {
        let d = zero_seq((self.built_data_offset() as int * 4 + self.spec_payload().len()) as nat);
        let d = put_at(d, 0, SRC_PORT(), true, match self.spec_src_port() { Some(v) => v, None => 0 } as u64);
        let d = put_at(d, 2, DST_PORT(), true, match self.spec_dst_port() { Some(v) => v, None => 0 } as u64);
        let d = put_at(d, 4, SEQ_NUM(), true, match self.spec_seq_num() { Some(v) => v, None => 0 } as u64);
        let d = put_at(d, 8, ACK_NUM(), true, match self.spec_ack_num() { Some(v) => v, None => 0 } as u64);
        let d = put_at(d, 12, DATA_OFFSET(), true, self.built_data_offset() as u64);
        let d = put_at(d, 13, FLAGS(), true, match self.spec_flags() { Some(v) => v, None => TcpFlags::spec_from_bits(0) }.spec_bits() as u64);
        let d = put_at(d, 14, WINDOW_SIZE(), true, match self.spec_window_size() { Some(v) => v, None => 64 } as u64);
        let d = put_at(d, 16, CHECKSUM(), true, match self.spec_checksum() { Some(v) => v, None => 0 } as u64);
        let d = put_at(d, 18, URGENT_POINTER(), true, match self.spec_urgent_pointer() { Some(v) => v, None => 0 } as u64);
        let d = splice(d, MIN_HEADER_LENGTH as int, self.spec_options());
        splice(d, self.built_data_offset() as int * 4, self.spec_payload())
    }

    /// A builder with no field set and no options or payload.
    pub fn new() -> (r: TcpBuilder)
        ensures
            r.spec_src_port() is None,
            r.spec_dst_port() is None,
            r.spec_seq_num() is None,
            r.spec_ack_num() is None,
            r.spec_data_offset() is None,
            r.spec_flags() is None,
            r.spec_window_size() is None,
            r.spec_checksum() is None,
            r.spec_urgent_pointer() is None,
            r.spec_options() == Seq::<u8>::empty(),
            r.spec_payload() == Seq::<u8>::empty(),
    {
        TcpBuilder {
            src_port: None,
            dst_port: None,
            seq_num: None,
            ack_num: None,
            data_offset: None,
            flags: None,
            window_size: None,
            checksum: None,
            urgent_pointer: None,
            options: Vec::new(),
            payload: Vec::new(),
        }
    }

    /// Sets the source port.
    pub fn src_port(self, v: u16) -> (r: TcpBuilder)
        ensures
            r.spec_src_port() == Some(v),
            r.spec_dst_port() == self.spec_dst_port(),
            r.spec_seq_num() == self.spec_seq_num(),
            r.spec_ack_num() == self.spec_ack_num(),
            r.spec_data_offset() == self.spec_data_offset(),
            r.spec_flags() == self.spec_flags(),
            r.spec_window_size() == self.spec_window_size(),
            r.spec_checksum() == self.spec_checksum(),
            r.spec_urgent_pointer() == self.spec_urgent_pointer(),
            r.spec_options() == self.spec_options(),
            r.spec_payload() == self.spec_payload(),
    {
        TcpBuilder { src_port: Some(v), ..self }
    }

    /// Sets the destination port.
    pub fn dst_port(self, v: u16) -> (r: TcpBuilder)
        ensures
            r.spec_dst_port() == Some(v),
            r.spec_src_port() == self.spec_src_port(),
            r.spec_seq_num() == self.spec_seq_num(),
            r.spec_ack_num() == self.spec_ack_num(),
            r.spec_data_offset() == self.spec_data_offset(),
            r.spec_flags() == self.spec_flags(),
            r.spec_window_size() == self.spec_window_size(),
            r.spec_checksum() == self.spec_checksum(),
            r.spec_urgent_pointer() == self.spec_urgent_pointer(),
            r.spec_options() == self.spec_options(),
            r.spec_payload() == self.spec_payload(),
    {
        TcpBuilder { dst_port: Some(v), ..self }
    }

    /// Sets the sequence number.
    pub fn seq_num(self, v: u32) -> (r: TcpBuilder)
        ensures
            r.spec_seq_num() == Some(v),
            r.spec_src_port() == self.spec_src_port(),
            r.spec_dst_port() == self.spec_dst_port(),
            r.spec_ack_num() == self.spec_ack_num(),
            r.spec_data_offset() == self.spec_data_offset(),
            r.spec_flags() == self.spec_flags(),
            r.spec_window_size() == self.spec_window_size(),
            r.spec_checksum() == self.spec_checksum(),
            r.spec_urgent_pointer() == self.spec_urgent_pointer(),
            r.spec_options() == self.spec_options(),
            r.spec_payload() == self.spec_payload(),
    {
        TcpBuilder { seq_num: Some(v), ..self }
    }

    /// Sets the acknowledgment number.
    pub fn ack_num(self, v: u32) -> (r: TcpBuilder)
        ensures
            r.spec_ack_num() == Some(v),
            r.spec_src_port() == self.spec_src_port(),
            r.spec_dst_port() == self.spec_dst_port(),
            r.spec_seq_num() == self.spec_seq_num(),
            r.spec_data_offset() == self.spec_data_offset(),
            r.spec_flags() == self.spec_flags(),
            r.spec_window_size() == self.spec_window_size(),
            r.spec_checksum() == self.spec_checksum(),
            r.spec_urgent_pointer() == self.spec_urgent_pointer(),
            r.spec_options() == self.spec_options(),
            r.spec_payload() == self.spec_payload(),
    {
        TcpBuilder { ack_num: Some(v), ..self }
    }

    /// Sets the data offset.
    pub fn data_offset(self, v: u8) -> (r: TcpBuilder)
        ensures
            r.spec_data_offset() == Some(v),
            r.spec_src_port() == self.spec_src_port(),
            r.spec_dst_port() == self.spec_dst_port(),
            r.spec_seq_num() == self.spec_seq_num(),
            r.spec_ack_num() == self.spec_ack_num(),
            r.spec_flags() == self.spec_flags(),
            r.spec_window_size() == self.spec_window_size(),
            r.spec_checksum() == self.spec_checksum(),
            r.spec_urgent_pointer() == self.spec_urgent_pointer(),
            r.spec_options() == self.spec_options(),
            r.spec_payload() == self.spec_payload(),
    {
        TcpBuilder { data_offset: Some(v), ..self }
    }

    /// Sets the flags.
    pub fn flags(self, v: TcpFlags) -> (r: TcpBuilder)
        ensures
            r.spec_flags() == Some(v),
            r.spec_src_port() == self.spec_src_port(),
            r.spec_dst_port() == self.spec_dst_port(),
            r.spec_seq_num() == self.spec_seq_num(),
            r.spec_ack_num() == self.spec_ack_num(),
            r.spec_data_offset() == self.spec_data_offset(),
            r.spec_window_size() == self.spec_window_size(),
            r.spec_checksum() == self.spec_checksum(),
            r.spec_urgent_pointer() == self.spec_urgent_pointer(),
            r.spec_options() == self.spec_options(),
            r.spec_payload() == self.spec_payload(),
    {
        TcpBuilder { flags: Some(v), ..self }
    }

    /// Sets the window size.
    pub fn window_size(self, v: u16) -> (r: TcpBuilder)
        ensures
            r.spec_window_size() == Some(v),
            r.spec_src_port() == self.spec_src_port(),
            r.spec_dst_port() == self.spec_dst_port(),
            r.spec_seq_num() == self.spec_seq_num(),
            r.spec_ack_num() == self.spec_ack_num(),
            r.spec_data_offset() == self.spec_data_offset(),
            r.spec_flags() == self.spec_flags(),
            r.spec_checksum() == self.spec_checksum(),
            r.spec_urgent_pointer() == self.spec_urgent_pointer(),
            r.spec_options() == self.spec_options(),
            r.spec_payload() == self.spec_payload(),
    {
        TcpBuilder { window_size: Some(v), ..self }
    }

    /// Sets the checksum.
    pub fn checksum(self, v: u16) -> (r: TcpBuilder)
        ensures
            r.spec_checksum() == Some(v),
            r.spec_src_port() == self.spec_src_port(),
            r.spec_dst_port() == self.spec_dst_port(),
            r.spec_seq_num() == self.spec_seq_num(),
            r.spec_ack_num() == self.spec_ack_num(),
            r.spec_data_offset() == self.spec_data_offset(),
            r.spec_flags() == self.spec_flags(),
            r.spec_window_size() == self.spec_window_size(),
            r.spec_urgent_pointer() == self.spec_urgent_pointer(),
            r.spec_options() == self.spec_options(),
            r.spec_payload() == self.spec_payload(),
    {
        TcpBuilder { checksum: Some(v), ..self }
    }

    /// Sets the urgent pointer.
    pub fn urgent_pointer(self, v: u16) -> (r: TcpBuilder)
        ensures
            r.spec_urgent_pointer() == Some(v),
            r.spec_src_port() == self.spec_src_port(),
            r.spec_dst_port() == self.spec_dst_port(),
            r.spec_seq_num() == self.spec_seq_num(),
            r.spec_ack_num() == self.spec_ack_num(),
            r.spec_data_offset() == self.spec_data_offset(),
            r.spec_flags() == self.spec_flags(),
            r.spec_window_size() == self.spec_window_size(),
            r.spec_checksum() == self.spec_checksum(),
            r.spec_options() == self.spec_options(),
            r.spec_payload() == self.spec_payload(),
    {
        TcpBuilder { urgent_pointer: Some(v), ..self }
    }

    /// Appends `v` to the options.
    pub fn options(self, v: &[u8]) -> (r: TcpBuilder)
        ensures
            r.spec_options() == self.spec_options() + v@,
            r.spec_src_port() == self.spec_src_port(),
            r.spec_dst_port() == self.spec_dst_port(),
            r.spec_seq_num() == self.spec_seq_num(),
            r.spec_ack_num() == self.spec_ack_num(),
            r.spec_data_offset() == self.spec_data_offset(),
            r.spec_flags() == self.spec_flags(),
            r.spec_window_size() == self.spec_window_size(),
            r.spec_checksum() == self.spec_checksum(),
            r.spec_urgent_pointer() == self.spec_urgent_pointer(),
            r.spec_payload() == self.spec_payload(),
    {
        let mut b = self;
        append_bytes(&mut b.options, v);
        b
    }

    /// Appends `v` to the payload.
    pub fn payload(self, v: &[u8]) -> (r: TcpBuilder)
        ensures
            r.spec_payload() == self.spec_payload() + v@,
            r.spec_src_port() == self.spec_src_port(),
            r.spec_dst_port() == self.spec_dst_port(),
            r.spec_seq_num() == self.spec_seq_num(),
            r.spec_ack_num() == self.spec_ack_num(),
            r.spec_data_offset() == self.spec_data_offset(),
            r.spec_flags() == self.spec_flags(),
            r.spec_window_size() == self.spec_window_size(),
            r.spec_checksum() == self.spec_checksum(),
            r.spec_urgent_pointer() == self.spec_urgent_pointer(),
            r.spec_options() == self.spec_options(),
    {
        let mut b = self;
        append_bytes(&mut b.payload, v);
        b
    }

    #[verifier::rlimit(50)]
    /// Builds the segment.
    pub fn build(&self) -> (r: Tcp)
        requires
            self.buildable(),
        ensures
            r.wf(),
            r.bytes() == self.spec_build(),
    {
        let data_offset: u8 = match self.data_offset {
            Some(v) => v,
            None => if self.options.len() <= 40 {
                ((self.options.len() + 3) / 4 + 5) as u8
            } else {
                16
            },
        };
        let len = data_offset as usize * 4 + self.payload.len();
        let mut tcp = Tcp { data: zeros(len) };
        proof {
            assert(tcp.bytes() =~= zero_seq(len as nat));
        }
        tcp.src_port_mut(match self.src_port { Some(v) => v, None => 0 });
        tcp.dst_port_mut(match self.dst_port { Some(v) => v, None => 0 });
        tcp.seq_num_mut(match self.seq_num { Some(v) => v, None => 0 });
        tcp.ack_num_mut(match self.ack_num { Some(v) => v, None => 0 });
        let ghost before = tcp.bytes();
        tcp.data_offset_mut(data_offset);
        proof {
            lemma_data_offset_fits(data_offset as u64);
            crate::field::lemma_set_then_get(before, 12, DATA_OFFSET(), true, data_offset as u64);
        }
        let v = match self.flags { Some(v) => v, None => TcpFlags::empty() };
        let ghost before = tcp.bytes();
        tcp.flags_mut(v);
        proof {
            crate::field::lemma_put_frame(before, 12, DATA_OFFSET(), 13, FLAGS(), true, v.spec_bits() as u64);
        }
        let v = match self.window_size { Some(v) => v, None => 64 };
        let ghost before = tcp.bytes();
        tcp.window_size_mut(v);
        proof {
            crate::field::lemma_put_frame(before, 12, DATA_OFFSET(), 14, WINDOW_SIZE(), true, v as u64);
        }
        let v = match self.checksum { Some(v) => v, None => 0 };
        let ghost before = tcp.bytes();
        tcp.checksum_mut(v);
        proof {
            crate::field::lemma_put_frame(before, 12, DATA_OFFSET(), 16, CHECKSUM(), true, v as u64);
        }
        let v = match self.urgent_pointer { Some(v) => v, None => 0 };
        let ghost before = tcp.bytes();
        tcp.urgent_pointer_mut(v);
        proof {
            crate::field::lemma_put_frame(before, 12, DATA_OFFSET(), 18, URGENT_POINTER(), true, v as u64);
        }
        let ghost before = tcp.bytes();
        copy_into(&mut tcp.data, MIN_HEADER_LENGTH, self.options.as_slice());
        proof {
            assert(tcp.bytes().subrange(12, 13) =~= before.subrange(12, 13));
        }
        tcp.payload_mut(self.payload.as_slice());
        tcp
    }

}

/// A built segment reads back each field that was set, its default
/// where it was not, and the derived data offset where none was set.
#[verifier::rlimit(100)]
pub proof fn lemma_build_reads_back(b: &TcpBuilder)
    requires
        b.buildable(),
    ensures
        b.spec_build().len() == ((zero_seq((b.built_data_offset() as int * 4 + b.spec_payload().len()) as nat))).len(),
        field_at(b.spec_build(), 0, SRC_PORT(), true) == (match b.spec_src_port() { Some(v) => v, None => 0 }) as u64,
        field_at(b.spec_build(), 2, DST_PORT(), true) == (match b.spec_dst_port() { Some(v) => v, None => 0 }) as u64,
        field_at(b.spec_build(), 4, SEQ_NUM(), true) == (match b.spec_seq_num() { Some(v) => v, None => 0 }) as u64,
        field_at(b.spec_build(), 8, ACK_NUM(), true) == (match b.spec_ack_num() { Some(v) => v, None => 0 }) as u64,
        field_at(b.spec_build(), 12, DATA_OFFSET(), true) == (b.built_data_offset()) as u64,
        field_at(b.spec_build(), 13, FLAGS(), true) == (match b.spec_flags() { Some(v) => v, None => TcpFlags::spec_from_bits(0) }.spec_bits()) as u64,
        field_at(b.spec_build(), 14, WINDOW_SIZE(), true) == (match b.spec_window_size() { Some(v) => v, None => 64 }) as u64,
        field_at(b.spec_build(), 16, CHECKSUM(), true) == (match b.spec_checksum() { Some(v) => v, None => 0 }) as u64,
        field_at(b.spec_build(), 18, URGENT_POINTER(), true) == (match b.spec_urgent_pointer() { Some(v) => v, None => 0 }) as u64,
{
    let d0 = (zero_seq((b.built_data_offset() as int * 4 + b.spec_payload().len()) as nat));
    let x1 = (match b.spec_src_port() { Some(v) => v, None => 0 }) as u64;
    let d1 = put_at(d0, 0, SRC_PORT(), true, x1);
    let x2 = (match b.spec_dst_port() { Some(v) => v, None => 0 }) as u64;
    let d2 = put_at(d1, 2, DST_PORT(), true, x2);
    let x3 = (match b.spec_seq_num() { Some(v) => v, None => 0 }) as u64;
    let d3 = put_at(d2, 4, SEQ_NUM(), true, x3);
    let x4 = (match b.spec_ack_num() { Some(v) => v, None => 0 }) as u64;
    let d4 = put_at(d3, 8, ACK_NUM(), true, x4);
    let x5 = (b.built_data_offset()) as u64;
    let d5 = put_at(d4, 12, DATA_OFFSET(), true, x5);
    let x6 = (match b.spec_flags() { Some(v) => v, None => TcpFlags::spec_from_bits(0) }.spec_bits()) as u64;
    let d6 = put_at(d5, 13, FLAGS(), true, x6);
    let x7 = (match b.spec_window_size() { Some(v) => v, None => 64 }) as u64;
    let d7 = put_at(d6, 14, WINDOW_SIZE(), true, x7);
    let x8 = (match b.spec_checksum() { Some(v) => v, None => 0 }) as u64;
    let d8 = put_at(d7, 16, CHECKSUM(), true, x8);
    let x9 = (match b.spec_urgent_pointer() { Some(v) => v, None => 0 }) as u64;
    let d9 = put_at(d8, 18, URGENT_POINTER(), true, x9);
    let e1 = splice(d9, MIN_HEADER_LENGTH as int, b.spec_options());
    let e2 = splice(e1, b.built_data_offset() as int * 4, b.spec_payload());
    assert(e2 == b.spec_build());
    lemma_pow256_small();
    lemma_put_len(d0, 0, SRC_PORT(), true, x1);
    lemma_put_len(d1, 2, DST_PORT(), true, x2);
    lemma_put_len(d2, 4, SEQ_NUM(), true, x3);
    lemma_put_len(d3, 8, ACK_NUM(), true, x4);
    lemma_put_len(d4, 12, DATA_OFFSET(), true, x5);
    lemma_put_len(d5, 13, FLAGS(), true, x6);
    lemma_put_len(d6, 14, WINDOW_SIZE(), true, x7);
    lemma_put_len(d7, 16, CHECKSUM(), true, x8);
    lemma_put_len(d8, 18, URGENT_POINTER(), true, x9);
    lemma_plain_fits(x1, 2);
    lemma_plain_fits(x2, 2);
    lemma_plain_fits(x3, 4);
    lemma_plain_fits(x4, 4);
    lemma_plain_fits(x6, 1);
    lemma_plain_fits(x7, 2);
    lemma_plain_fits(x8, 2);
    lemma_plain_fits(x9, 2);
    assert((x5 << 4u64) >> 4u64 == x5 && (x5 << 4u64) & !0xF0u64 == 0 && (x5 << 4u64) < 256) by (bit_vector)
        requires
            x5 <= 15,
    ;
    lemma_set_then_get(d0, 0, SRC_PORT(), true, x1);
    lemma_put_frame(d1, 0, SRC_PORT(), 2, DST_PORT(), true, x2);
    lemma_put_frame(d2, 0, SRC_PORT(), 4, SEQ_NUM(), true, x3);
    lemma_put_frame(d3, 0, SRC_PORT(), 8, ACK_NUM(), true, x4);
    lemma_put_frame(d4, 0, SRC_PORT(), 12, DATA_OFFSET(), true, x5);
    lemma_put_frame(d5, 0, SRC_PORT(), 13, FLAGS(), true, x6);
    lemma_put_frame(d6, 0, SRC_PORT(), 14, WINDOW_SIZE(), true, x7);
    lemma_put_frame(d7, 0, SRC_PORT(), 16, CHECKSUM(), true, x8);
    lemma_put_frame(d8, 0, SRC_PORT(), 18, URGENT_POINTER(), true, x9);
    lemma_splice_frame(d9, 0, SRC_PORT(), MIN_HEADER_LENGTH as int, b.spec_options(), true);
    lemma_splice_frame(e1, 0, SRC_PORT(), b.built_data_offset() as int * 4, b.spec_payload(), true);
    lemma_set_then_get(d1, 2, DST_PORT(), true, x2);
    lemma_put_frame(d2, 2, DST_PORT(), 4, SEQ_NUM(), true, x3);
    lemma_put_frame(d3, 2, DST_PORT(), 8, ACK_NUM(), true, x4);
    lemma_put_frame(d4, 2, DST_PORT(), 12, DATA_OFFSET(), true, x5);
    lemma_put_frame(d5, 2, DST_PORT(), 13, FLAGS(), true, x6);
    lemma_put_frame(d6, 2, DST_PORT(), 14, WINDOW_SIZE(), true, x7);
    lemma_put_frame(d7, 2, DST_PORT(), 16, CHECKSUM(), true, x8);
    lemma_put_frame(d8, 2, DST_PORT(), 18, URGENT_POINTER(), true, x9);
    lemma_splice_frame(d9, 2, DST_PORT(), MIN_HEADER_LENGTH as int, b.spec_options(), true);
    lemma_splice_frame(e1, 2, DST_PORT(), b.built_data_offset() as int * 4, b.spec_payload(), true);
    lemma_set_then_get(d2, 4, SEQ_NUM(), true, x3);
    lemma_put_frame(d3, 4, SEQ_NUM(), 8, ACK_NUM(), true, x4);
    lemma_put_frame(d4, 4, SEQ_NUM(), 12, DATA_OFFSET(), true, x5);
    lemma_put_frame(d5, 4, SEQ_NUM(), 13, FLAGS(), true, x6);
    lemma_put_frame(d6, 4, SEQ_NUM(), 14, WINDOW_SIZE(), true, x7);
    lemma_put_frame(d7, 4, SEQ_NUM(), 16, CHECKSUM(), true, x8);
    lemma_put_frame(d8, 4, SEQ_NUM(), 18, URGENT_POINTER(), true, x9);
    lemma_splice_frame(d9, 4, SEQ_NUM(), MIN_HEADER_LENGTH as int, b.spec_options(), true);
    lemma_splice_frame(e1, 4, SEQ_NUM(), b.built_data_offset() as int * 4, b.spec_payload(), true);
    lemma_set_then_get(d3, 8, ACK_NUM(), true, x4);
    lemma_put_frame(d4, 8, ACK_NUM(), 12, DATA_OFFSET(), true, x5);
    lemma_put_frame(d5, 8, ACK_NUM(), 13, FLAGS(), true, x6);
    lemma_put_frame(d6, 8, ACK_NUM(), 14, WINDOW_SIZE(), true, x7);
    lemma_put_frame(d7, 8, ACK_NUM(), 16, CHECKSUM(), true, x8);
    lemma_put_frame(d8, 8, ACK_NUM(), 18, URGENT_POINTER(), true, x9);
    lemma_splice_frame(d9, 8, ACK_NUM(), MIN_HEADER_LENGTH as int, b.spec_options(), true);
    lemma_splice_frame(e1, 8, ACK_NUM(), b.built_data_offset() as int * 4, b.spec_payload(), true);
    lemma_set_then_get(d4, 12, DATA_OFFSET(), true, x5);
    lemma_put_frame(d5, 12, DATA_OFFSET(), 13, FLAGS(), true, x6);
    lemma_put_frame(d6, 12, DATA_OFFSET(), 14, WINDOW_SIZE(), true, x7);
    lemma_put_frame(d7, 12, DATA_OFFSET(), 16, CHECKSUM(), true, x8);
    lemma_put_frame(d8, 12, DATA_OFFSET(), 18, URGENT_POINTER(), true, x9);
    lemma_splice_frame(d9, 12, DATA_OFFSET(), MIN_HEADER_LENGTH as int, b.spec_options(), true);
    lemma_splice_frame(e1, 12, DATA_OFFSET(), b.built_data_offset() as int * 4, b.spec_payload(), true);
    lemma_set_then_get(d5, 13, FLAGS(), true, x6);
    lemma_put_frame(d6, 13, FLAGS(), 14, WINDOW_SIZE(), true, x7);
    lemma_put_frame(d7, 13, FLAGS(), 16, CHECKSUM(), true, x8);
    lemma_put_frame(d8, 13, FLAGS(), 18, URGENT_POINTER(), true, x9);
    lemma_splice_frame(d9, 13, FLAGS(), MIN_HEADER_LENGTH as int, b.spec_options(), true);
    lemma_splice_frame(e1, 13, FLAGS(), b.built_data_offset() as int * 4, b.spec_payload(), true);
    lemma_set_then_get(d6, 14, WINDOW_SIZE(), true, x7);
    lemma_put_frame(d7, 14, WINDOW_SIZE(), 16, CHECKSUM(), true, x8);
    lemma_put_frame(d8, 14, WINDOW_SIZE(), 18, URGENT_POINTER(), true, x9);
    lemma_splice_frame(d9, 14, WINDOW_SIZE(), MIN_HEADER_LENGTH as int, b.spec_options(), true);
    lemma_splice_frame(e1, 14, WINDOW_SIZE(), b.built_data_offset() as int * 4, b.spec_payload(), true);
    lemma_set_then_get(d7, 16, CHECKSUM(), true, x8);
    lemma_put_frame(d8, 16, CHECKSUM(), 18, URGENT_POINTER(), true, x9);
    lemma_splice_frame(d9, 16, CHECKSUM(), MIN_HEADER_LENGTH as int, b.spec_options(), true);
    lemma_splice_frame(e1, 16, CHECKSUM(), b.built_data_offset() as int * 4, b.spec_payload(), true);
    lemma_set_then_get(d8, 18, URGENT_POINTER(), true, x9);
    lemma_splice_frame(d9, 18, URGENT_POINTER(), MIN_HEADER_LENGTH as int, b.spec_options(), true);
    lemma_splice_frame(e1, 18, URGENT_POINTER(), b.built_data_offset() as int * 4, b.spec_payload(), true);
}

/// A built segment holds the options right after the fixed header, zeros
/// up to the end of the header, and then the payload.
#[verifier::rlimit(100)]
pub proof fn lemma_build_body(b: &TcpBuilder)
    requires
        b.buildable(),
    ensures
        b.spec_build().len() == b.built_data_offset() as int * 4 + b.spec_payload().len(),
        b.spec_build().subrange(MIN_HEADER_LENGTH as int, MIN_HEADER_LENGTH + b.spec_options().len())
            == b.spec_options(),
        forall|i: int|
            MIN_HEADER_LENGTH + b.spec_options().len() <= i < b.built_data_offset() as int * 4 ==> b.spec_build()[i] == 0,
        b.spec_build().subrange(b.built_data_offset() as int * 4, b.spec_build().len() as int) == b.spec_payload(),
{
    let d0 = (zero_seq((b.built_data_offset() as int * 4 + b.spec_payload().len()) as nat));
    let x1 = (match b.spec_src_port() { Some(v) => v, None => 0 }) as u64;
    let d1 = put_at(d0, 0, SRC_PORT(), true, x1);
    lemma_put_outside(d0, 0, SRC_PORT(), true, x1);
    let x2 = (match b.spec_dst_port() { Some(v) => v, None => 0 }) as u64;
    let d2 = put_at(d1, 2, DST_PORT(), true, x2);
    lemma_put_outside(d1, 2, DST_PORT(), true, x2);
    let x3 = (match b.spec_seq_num() { Some(v) => v, None => 0 }) as u64;
    let d3 = put_at(d2, 4, SEQ_NUM(), true, x3);
    lemma_put_outside(d2, 4, SEQ_NUM(), true, x3);
    let x4 = (match b.spec_ack_num() { Some(v) => v, None => 0 }) as u64;
    let d4 = put_at(d3, 8, ACK_NUM(), true, x4);
    lemma_put_outside(d3, 8, ACK_NUM(), true, x4);
    let x5 = (b.built_data_offset()) as u64;
    let d5 = put_at(d4, 12, DATA_OFFSET(), true, x5);
    lemma_put_outside(d4, 12, DATA_OFFSET(), true, x5);
    let x6 = (match b.spec_flags() { Some(v) => v, None => TcpFlags::spec_from_bits(0) }.spec_bits()) as u64;
    let d6 = put_at(d5, 13, FLAGS(), true, x6);
    lemma_put_outside(d5, 13, FLAGS(), true, x6);
    let x7 = (match b.spec_window_size() { Some(v) => v, None => 64 }) as u64;
    let d7 = put_at(d6, 14, WINDOW_SIZE(), true, x7);
    lemma_put_outside(d6, 14, WINDOW_SIZE(), true, x7);
    let x8 = (match b.spec_checksum() { Some(v) => v, None => 0 }) as u64;
    let d8 = put_at(d7, 16, CHECKSUM(), true, x8);
    lemma_put_outside(d7, 16, CHECKSUM(), true, x8);
    let x9 = (match b.spec_urgent_pointer() { Some(v) => v, None => 0 }) as u64;
    let d9 = put_at(d8, 18, URGENT_POINTER(), true, x9);
    lemma_put_outside(d8, 18, URGENT_POINTER(), true, x9);
    assert forall|i: int| MIN_HEADER_LENGTH <= i < d9.len() implies d9[i] == 0 by {
        assert(d9[i] == d8[i]);
        assert(d8[i] == d7[i]);
        assert(d7[i] == d6[i]);
        assert(d6[i] == d5[i]);
        assert(d5[i] == d4[i]);
        assert(d4[i] == d3[i]);
        assert(d3[i] == d2[i]);
        assert(d2[i] == d1[i]);
        assert(d1[i] == d0[i]);
    }
    let opts = b.spec_options();
    let e1 = splice(d9, MIN_HEADER_LENGTH as int, opts);
    let e2 = splice(e1, b.built_data_offset() as int * 4, b.spec_payload());
    assert(e2 == b.spec_build());
    assert(e2.subrange(MIN_HEADER_LENGTH as int, MIN_HEADER_LENGTH + opts.len()) =~= opts);
    assert(e2.subrange(b.built_data_offset() as int * 4, e2.len() as int) =~= b.spec_payload());
}

/// A builder given only a payload builds a segment whose data offset is the
/// minimum, 5 words, and whose length is 20 bytes more than the payload.
pub proof fn lemma_derived_lengths(b: &TcpBuilder)
    requires
        b.spec_data_offset() is None,
        b.spec_options().len() == 0,
        b.spec_payload().len() + MIN_HEADER_LENGTH <= usize::MAX,
    ensures
        b.buildable(),
        field_at(b.spec_build(), 12, DATA_OFFSET(), true) == 5,
        b.spec_build().len() == MIN_HEADER_LENGTH + b.spec_payload().len(),
{
    assert(b.built_data_offset() == 5);
    assert(b.buildable());
    lemma_build_reads_back(b);
}

} // verus!
