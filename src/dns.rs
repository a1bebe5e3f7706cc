//! Domain Name System (DNS) layer.
use vstd::prelude::*;
use vstd::slice::slice_subrange;

use crate::field::{append_bytes, field_at, put_at, read_field, write_field, zero_seq, zeros, FieldSpec};
use vstd::slice::slice_to_vec;

pub mod class;
pub mod label;
pub mod name;
pub mod opcode;
pub mod question;
pub mod rcode;
pub mod rrtype;

use opcode::DnsOpCode;
use question::{first_zero, has_zero, is_first_zero, DnsQuestion};
use rcode::DnsRCode;

use crate::field::{lemma_plain_fits, lemma_pow256_small, lemma_put_frame, lemma_put_len, lemma_put_same_carrier, lemma_set_then_get};

verus! {

/// Minimum length of a DNS header.
pub const MIN_HEADER_LENGTH: usize = 12;

/// Error type for the DNS layer.
#[derive(Debug, Clone, PartialEq, Eq)]
pub enum DnsError {
    /// The buffer is shorter than the 12 bytes of a header; holds its length.
    InvalidLength(usize),
}

/// Position of the transaction id field.
pub open spec fn ID() -> FieldSpec {
    FieldSpec { width: 2, mask: u64::MAX, shift: 0 }
}

/// Position of the QR bit (response) field.
pub open spec fn QR() -> FieldSpec {
    FieldSpec { width: 1, mask: 0x80, shift: 7 }
}

/// Position of the operation code (4 bits) field.
pub open spec fn OPCODE() -> FieldSpec {
    FieldSpec { width: 1, mask: 0x78, shift: 3 }
}

/// Position of the AA bit (authoritative answer) field.
pub open spec fn AA() -> FieldSpec {
    FieldSpec { width: 1, mask: 0x04, shift: 2 }
}

/// Position of the TC bit (truncated) field.
pub open spec fn TC() -> FieldSpec {
    FieldSpec { width: 1, mask: 0x02, shift: 1 }
}

/// Position of the RD bit (recursion desired) field.
pub open spec fn RD() -> FieldSpec {
    FieldSpec { width: 1, mask: 0x01, shift: 0 }
}

/// Position of the RA bit (recursion available) field.
pub open spec fn RA() -> FieldSpec {
    FieldSpec { width: 1, mask: 0x80, shift: 7 }
}

/// Position of the Z bits (3 bits) field.
pub open spec fn Z() -> FieldSpec {
    FieldSpec { width: 1, mask: 0x70, shift: 4 }
}

/// Position of the response code (4 bits) field.
pub open spec fn RCODE() -> FieldSpec {
    FieldSpec { width: 1, mask: 0x0F, shift: 0 }
}

/// Position of the question count field.
pub open spec fn QDCOUNT() -> FieldSpec {
    FieldSpec { width: 2, mask: u64::MAX, shift: 0 }
}

/// Position of the answer count field.
pub open spec fn ANCOUNT() -> FieldSpec {
    FieldSpec { width: 2, mask: u64::MAX, shift: 0 }
}

/// Position of the authority count field.
pub open spec fn NSCOUNT() -> FieldSpec {
    FieldSpec { width: 2, mask: u64::MAX, shift: 0 }
}

/// Position of the additional count field.
pub open spec fn ARCOUNT() -> FieldSpec {
    FieldSpec { width: 2, mask: u64::MAX, shift: 0 }
}

/// A DNS header and its payload, over an owned buffer.
pub struct Dns {
    data: Vec<u8>,
}

impl Dns {
    /// The bytes.
    pub closed spec fn bytes(&self) -> Seq<u8> {
        self.data@
    }

    /// The buffer holds the fixed part of a header.
    pub open spec fn wf(&self) -> bool {
        self.bytes().len() >= MIN_HEADER_LENGTH
    }

    /// Checks that the buffer holds the fixed part of a header.
    pub fn validate(&self) -> (r: Result<(), DnsError>)
        ensures
            r == if self.bytes().len() >= MIN_HEADER_LENGTH {
                Ok(())
            } else {
                Err(DnsError::InvalidLength(self.bytes().len() as usize))
            },
    {
        if self.data.len() < MIN_HEADER_LENGTH {
            return Err(DnsError::InvalidLength(self.data.len()));
        }
        Ok(())
    }

    /// A view over `data`, if it holds the fixed part of a header.
    pub fn new(data: Vec<u8>) -> (r: Result<Dns, DnsError>)
        ensures
            r is Ok <==> data@.len() >= MIN_HEADER_LENGTH,
            r matches Ok(p) ==> p.bytes() == data@,
            r matches Err(e) ==> e == DnsError::InvalidLength(data@.len() as usize),
    {
        let res = Dns { data };
        match res.validate() {
            Ok(()) => Ok(res),
            Err(e) => Err(e),
        }
    }

    /// The bytes.
    pub fn inner(&self) -> (r: &Vec<u8>)
        ensures
            r@ == self.bytes(),
    {
        &self.data
    }

    /// The transaction id.
    pub fn id(&self) -> (r: u16)
        requires
            self.wf(),
        ensures
            r == field_at(self.bytes(), 0, ID(), true) as u16,
    {
        let f = FieldSpec { width: 2, mask: u64::MAX, shift: 0 };
        read_field(self.data.as_slice(), 0, f, true) as u16
    }

    /// Writes the transaction id.
    pub fn id_mut(&mut self, v: u16)
        requires
            old(self).wf(),
        ensures
            final(self).bytes() == put_at(old(self).bytes(), 0, ID(), true, v as u64),
            final(self).wf(),
            final(self).bytes().len() == old(self).bytes().len(),
    {
        let f = FieldSpec { width: 2, mask: u64::MAX, shift: 0 };
        write_field(&mut self.data, 0, f, true, v as u64);
    }

    /// The QR bit (response).
    pub fn qr(&self) -> (r: bool)
        requires
            self.wf(),
        ensures
            r == (field_at(self.bytes(), 2, QR(), true) as u8 != 0),
    {
        let f = FieldSpec { width: 1, mask: 0x80, shift: 7 };
        read_field(self.data.as_slice(), 2, f, true) as u8 != 0
    }

    /// Writes the QR bit (response).
    pub fn qr_mut(&mut self, v: bool)
        requires
            old(self).wf(),
        ensures
            final(self).bytes() == put_at(old(self).bytes(), 2, QR(), true, if v { 1u64 } else { 0u64 }),
            final(self).wf(),
            final(self).bytes().len() == old(self).bytes().len(),
    {
        let f = FieldSpec { width: 1, mask: 0x80, shift: 7 };
        write_field(&mut self.data, 2, f, true, if v { 1u64 } else { 0u64 });
    }

    /// The operation code (4 bits).
    pub fn opcode(&self) -> (r: DnsOpCode)
        requires
            self.wf(),
        ensures
            r == DnsOpCode::spec_from_raw(field_at(self.bytes(), 2, OPCODE(), true) as u8),
    {
        let f = FieldSpec { width: 1, mask: 0x78, shift: 3 };
        DnsOpCode::from_raw(read_field(self.data.as_slice(), 2, f, true) as u8)
    }

    /// Writes the operation code (4 bits).
    pub fn opcode_mut(&mut self, v: DnsOpCode)
        requires
            old(self).wf(),
        ensures
            final(self).bytes() == put_at(old(self).bytes(), 2, OPCODE(), true, v.spec_raw() as u64),
            final(self).wf(),
            final(self).bytes().len() == old(self).bytes().len(),
    {
        let f = FieldSpec { width: 1, mask: 0x78, shift: 3 };
        write_field(&mut self.data, 2, f, true, v.raw() as u64);
    }

    /// The AA bit (authoritative answer).
    pub fn aa(&self) -> (r: bool)
        requires
            self.wf(),
        ensures
            r == (field_at(self.bytes(), 2, AA(), true) as u8 != 0),
    {
        let f = FieldSpec { width: 1, mask: 0x04, shift: 2 };
        read_field(self.data.as_slice(), 2, f, true) as u8 != 0
    }

    /// Writes the AA bit (authoritative answer).
    pub fn aa_mut(&mut self, v: bool)
        requires
            old(self).wf(),
        ensures
            final(self).bytes() == put_at(old(self).bytes(), 2, AA(), true, if v { 1u64 } else { 0u64 }),
            final(self).wf(),
            final(self).bytes().len() == old(self).bytes().len(),
    {
        let f = FieldSpec { width: 1, mask: 0x04, shift: 2 };
        write_field(&mut self.data, 2, f, true, if v { 1u64 } else { 0u64 });
    }

    /// The TC bit (truncated).
    pub fn tc(&self) -> (r: bool)
        requires
            self.wf(),
        ensures
            r == (field_at(self.bytes(), 2, TC(), true) as u8 != 0),
    {
        let f = FieldSpec { width: 1, mask: 0x02, shift: 1 };
        read_field(self.data.as_slice(), 2, f, true) as u8 != 0
    }

    /// Writes the TC bit (truncated).
    pub fn tc_mut(&mut self, v: bool)
        requires
            old(self).wf(),
        ensures
            final(self).bytes() == put_at(old(self).bytes(), 2, TC(), true, if v { 1u64 } else { 0u64 }),
            final(self).wf(),
            final(self).bytes().len() == old(self).bytes().len(),
    {
        let f = FieldSpec { width: 1, mask: 0x02, shift: 1 };
        write_field(&mut self.data, 2, f, true, if v { 1u64 } else { 0u64 });
    }

    /// The RD bit (recursion desired).
    pub fn rd(&self) -> (r: bool)
        requires
            self.wf(),
        ensures
            r == (field_at(self.bytes(), 2, RD(), true) as u8 != 0),
    {
        let f = FieldSpec { width: 1, mask: 0x01, shift: 0 };
        read_field(self.data.as_slice(), 2, f, true) as u8 != 0
    }

    /// Writes the RD bit (recursion desired).
    pub fn rd_mut(&mut self, v: bool)
        requires
            old(self).wf(),
        ensures
            final(self).bytes() == put_at(old(self).bytes(), 2, RD(), true, if v { 1u64 } else { 0u64 }),
            final(self).wf(),
            final(self).bytes().len() == old(self).bytes().len(),
    {
        let f = FieldSpec { width: 1, mask: 0x01, shift: 0 };
        write_field(&mut self.data, 2, f, true, if v { 1u64 } else { 0u64 });
    }

    /// The RA bit (recursion available).
    pub fn ra(&self) -> (r: bool)
        requires
            self.wf(),
        ensures
            r == (field_at(self.bytes(), 3, RA(), true) as u8 != 0),
    {
        let f = FieldSpec { width: 1, mask: 0x80, shift: 7 };
        read_field(self.data.as_slice(), 3, f, true) as u8 != 0
    }

    /// Writes the RA bit (recursion available).
    pub fn ra_mut(&mut self, v: bool)
        requires
            old(self).wf(),
        ensures
            final(self).bytes() == put_at(old(self).bytes(), 3, RA(), true, if v { 1u64 } else { 0u64 }),
            final(self).wf(),
            final(self).bytes().len() == old(self).bytes().len(),
    {
        let f = FieldSpec { width: 1, mask: 0x80, shift: 7 };
        write_field(&mut self.data, 3, f, true, if v { 1u64 } else { 0u64 });
    }

    /// The Z bits (3 bits).
    pub fn z(&self) -> (r: u8)
        requires
            self.wf(),
        ensures
            r == field_at(self.bytes(), 3, Z(), true) as u8,
    {
        let f = FieldSpec { width: 1, mask: 0x70, shift: 4 };
        read_field(self.data.as_slice(), 3, f, true) as u8
    }

    /// Writes the Z bits (3 bits).
    pub fn z_mut(&mut self, v: u8)
        requires
            old(self).wf(),
        ensures
            final(self).bytes() == put_at(old(self).bytes(), 3, Z(), true, v as u64),
            final(self).wf(),
            final(self).bytes().len() == old(self).bytes().len(),
    {
        let f = FieldSpec { width: 1, mask: 0x70, shift: 4 };
        write_field(&mut self.data, 3, f, true, v as u64);
    }

    /// The response code (4 bits).
    pub fn rcode(&self) -> (r: DnsRCode)
        requires
            self.wf(),
        ensures
            r == DnsRCode::spec_from_raw(field_at(self.bytes(), 3, RCODE(), true) as u8 as u16),
    {
        let f = FieldSpec { width: 1, mask: 0x0F, shift: 0 };
        DnsRCode::from_raw(read_field(self.data.as_slice(), 3, f, true) as u8 as u16)
    }

    /// Writes the response code (4 bits).
    pub fn rcode_mut(&mut self, v: DnsRCode)
        requires
            old(self).wf(),
        ensures
            final(self).bytes() == put_at(old(self).bytes(), 3, RCODE(), true, v.spec_raw() as u8 as u64),
            final(self).wf(),
            final(self).bytes().len() == old(self).bytes().len(),
    {
        let f = FieldSpec { width: 1, mask: 0x0F, shift: 0 };
        write_field(&mut self.data, 3, f, true, v.raw() as u8 as u64);
    }

    /// The question count.
    pub fn qdcount(&self) -> (r: u16)
        requires
            self.wf(),
        ensures
            r == field_at(self.bytes(), 4, QDCOUNT(), true) as u16,
    {
        let f = FieldSpec { width: 2, mask: u64::MAX, shift: 0 };
        read_field(self.data.as_slice(), 4, f, true) as u16
    }

    /// Writes the question count.
    pub fn qdcount_mut(&mut self, v: u16)
        requires
            old(self).wf(),
        ensures
            final(self).bytes() == put_at(old(self).bytes(), 4, QDCOUNT(), true, v as u64),
            final(self).wf(),
            final(self).bytes().len() == old(self).bytes().len(),
    {
        let f = FieldSpec { width: 2, mask: u64::MAX, shift: 0 };
        write_field(&mut self.data, 4, f, true, v as u64);
    }

    /// The answer count.
    pub fn ancount(&self) -> (r: u16)
        requires
            self.wf(),
        ensures
            r == field_at(self.bytes(), 6, ANCOUNT(), true) as u16,
    {
        let f = FieldSpec { width: 2, mask: u64::MAX, shift: 0 };
        read_field(self.data.as_slice(), 6, f, true) as u16
    }

    /// Writes the answer count.
    pub fn ancount_mut(&mut self, v: u16)
        requires
            old(self).wf(),
        ensures
            final(self).bytes() == put_at(old(self).bytes(), 6, ANCOUNT(), true, v as u64),
            final(self).wf(),
            final(self).bytes().len() == old(self).bytes().len(),
    {
        let f = FieldSpec { width: 2, mask: u64::MAX, shift: 0 };
        write_field(&mut self.data, 6, f, true, v as u64);
    }

    /// The authority count.
    pub fn nscount(&self) -> (r: u16)
        requires
            self.wf(),
        ensures
            r == field_at(self.bytes(), 8, NSCOUNT(), true) as u16,
    {
        let f = FieldSpec { width: 2, mask: u64::MAX, shift: 0 };
        read_field(self.data.as_slice(), 8, f, true) as u16
    }

    /// Writes the authority count.
    pub fn nscount_mut(&mut self, v: u16)
        requires
            old(self).wf(),
        ensures
            final(self).bytes() == put_at(old(self).bytes(), 8, NSCOUNT(), true, v as u64),
            final(self).wf(),
            final(self).bytes().len() == old(self).bytes().len(),
    {
        let f = FieldSpec { width: 2, mask: u64::MAX, shift: 0 };
        write_field(&mut self.data, 8, f, true, v as u64);
    }

    /// The additional count.
    pub fn arcount(&self) -> (r: u16)
        requires
            self.wf(),
        ensures
            r == field_at(self.bytes(), 10, ARCOUNT(), true) as u16,
    {
        let f = FieldSpec { width: 2, mask: u64::MAX, shift: 0 };
        read_field(self.data.as_slice(), 10, f, true) as u16
    }

    /// Writes the additional count.
    pub fn arcount_mut(&mut self, v: u16)
        requires
            old(self).wf(),
        ensures
            final(self).bytes() == put_at(old(self).bytes(), 10, ARCOUNT(), true, v as u64),
            final(self).wf(),
            final(self).bytes().len() == old(self).bytes().len(),
    {
        let f = FieldSpec { width: 2, mask: u64::MAX, shift: 0 };
        write_field(&mut self.data, 10, f, true, v as u64);
    }

    /// Where the questions of the message start.
    pub open spec fn spec_question_starts(&self) -> Seq<int> {
        question_starts(
            self.bytes(),
            MIN_HEADER_LENGTH as int,
            field_at(self.bytes(), 4, QDCOUNT(), true) as u16 as nat,
        )
    }

    /// The questions of the message: read one after another from the end of
    /// the header, each as long as its name with its zero byte and four bytes
    /// more, until the question count is reached, the buffer ends, or a name
    /// has no end.
    pub fn questions(&self) -> (r: Vec<DnsQuestion>)
        requires
            self.wf(),
        ensures
            r@.len() == self.spec_question_starts().len(),
            forall|k: int|
                0 <= k < r@.len() ==> #[trigger] r@[k].bytes() == self.bytes().subrange(
                    self.spec_question_starts()[k],
                    self.bytes().len() as int,
                ) && is_first_zero(r@[k].bytes(), r@[k].spec_name_len() as int),
    {
        let d = self.data.as_slice();
        let count = self.qdcount();
        let ghost total = question_starts(d@, MIN_HEADER_LENGTH as int, count as nat);
        assert(total == self.spec_question_starts());
        let ghost mut seen: Seq<int> = Seq::empty();
        let mut out: Vec<DnsQuestion> = Vec::new();
        let mut offset: usize = MIN_HEADER_LENGTH;
        let mut current: usize = 0;
        while offset < d.len() && current < count as usize
            invariant
                d@ == self.bytes(),
                total == self.spec_question_starts(),
                0 <= current <= count,
                seen.len() == current,
                out@.len() == current,
                seen + question_starts(d@, offset as int, (count - current) as nat) == total,
                forall|k: int|
                    0 <= k < current ==> #[trigger] out@[k].bytes() == d@.subrange(
                        seen[k],
                        d@.len() as int,
                    ) && is_first_zero(out@[k].bytes(), out@[k].spec_name_len() as int),
            decreases d@.len() - offset,
        {
            let rest = slice_to_vec(slice_subrange(d, offset, d.len()));
            let ghost qs = question_starts(d@, offset as int, (count - current) as nat);
            match DnsQuestion::new(rest) {
                Ok(q) => {
                    let name_len = q.name_len();
                    proof {
                        question::lemma_first_zero(q.bytes(), name_len as int);
                        assert(qs[0] == offset);
                        seen = seen.push(offset as int);
                    }
                    out.push(q);
                    if d.len() - offset - name_len <= 5 {
                        proof {
                            let nx = offset + name_len + 5;
                            assert(question_starts(d@, nx, (count - current - 1) as nat) =~= Seq::<int>::empty());
                            assert(seen =~= total);
                        }
                        return out;
                    }
                    proof {
                        assert(qs =~= seq![offset as int] + question_starts(
                            d@,
                            offset + name_len + 5,
                            (count - current - 1) as nat,
                        ));
                        assert(seen + question_starts(d@, offset + name_len + 5, (count - current - 1) as nat) =~= total);
                    }
                    offset = offset + name_len + 5;
                    current = current + 1;
                },
                Err(_) => {
                    proof {
                        assert(qs =~= Seq::<int>::empty());
                        assert(seen =~= total);
                    }
                    return out;
                },
            }
        }
        proof {
            assert(question_starts(d@, offset as int, (count - current) as nat) =~= Seq::<int>::empty());
            assert(seen =~= total);
        }
        out
    }
}

/// Where the questions of `d` start: the first at `off`, each next one after
/// the previous one's name, its zero byte and four bytes, `count` at most, as
/// long as the start lies within `d` and the rest of `d` holds a zero byte.
pub open spec fn question_starts(d: Seq<u8>, off: int, count: nat) -> Seq<int>
    decreases count,
{
    if count == 0 || off < 0 || off >= d.len() || !has_zero(d.subrange(off, d.len() as int)) {
        Seq::empty()
    } else {
        seq![off] + question_starts(
            d,
            off + first_zero(d.subrange(off, d.len() as int)) + 5,
            (count - 1) as nat,
        )
    }
}
/// Builder for [`Dns`].
pub struct DnsBuilder {
    id: Option<u16>,
    qr: Option<bool>,
    opcode: Option<DnsOpCode>,
    aa: Option<bool>,
    tc: Option<bool>,
    rd: Option<bool>,
    ra: Option<bool>,
    z: Option<u8>,
    rcode: Option<DnsRCode>,
    qdcount: Option<u16>,
    ancount: Option<u16>,
    nscount: Option<u16>,
    arcount: Option<u16>,
    questions: Vec<DnsQuestion>,
}

/// The bytes of the first `n` questions, one after another.
pub open spec fn concat_questions(qs: Seq<DnsQuestion>, n: int) -> Seq<u8>
    decreases n,
{
    if n <= 0 || qs.len() == 0 {
        Seq::empty()
    } else if n > qs.len() {
        concat_questions(qs, qs.len() as int)
    } else {
        concat_questions(qs, n - 1) + qs[n - 1].bytes()
    }
}

/// One more question appends its bytes.
proof fn lemma_concat_step(qs: Seq<DnsQuestion>, i: int)
    requires
        0 <= i < qs.len(),
    ensures
        concat_questions(qs, i + 1) == concat_questions(qs, i) + qs[i].bytes(),
{
}

/// Asking for more questions than there are gives them all.
proof fn lemma_concat_cap(qs: Seq<DnsQuestion>, n: int)
    requires
        n >= qs.len(),
    ensures
        concat_questions(qs, n) == concat_questions(qs, qs.len() as int),
{
}

impl DnsBuilder {
    pub closed spec fn spec_id(&self) -> Option<u16> {
        self.id
    }

    pub closed spec fn spec_qr(&self) -> Option<bool> {
        self.qr
    }

    pub closed spec fn spec_opcode(&self) -> Option<DnsOpCode> {
        self.opcode
    }

    pub closed spec fn spec_aa(&self) -> Option<bool> {
        self.aa
    }

    pub closed spec fn spec_tc(&self) -> Option<bool> {
        self.tc
    }

    pub closed spec fn spec_rd(&self) -> Option<bool> {
        self.rd
    }

    pub closed spec fn spec_ra(&self) -> Option<bool> {
        self.ra
    }

    pub closed spec fn spec_z(&self) -> Option<u8> {
        self.z
    }

    pub closed spec fn spec_rcode(&self) -> Option<DnsRCode> {
        self.rcode
    }

    pub closed spec fn spec_qdcount(&self) -> Option<u16> {
        self.qdcount
    }

    pub closed spec fn spec_ancount(&self) -> Option<u16> {
        self.ancount
    }

    pub closed spec fn spec_nscount(&self) -> Option<u16> {
        self.nscount
    }

    pub closed spec fn spec_arcount(&self) -> Option<u16> {
        self.arcount
    }

    pub closed spec fn spec_questions(&self) -> Seq<DnsQuestion> {
        self.questions@
    }

    /// The question count that `build` writes: the one set, or the number of
    /// questions (as 16 bits).
    pub open spec fn built_qdcount(&self) -> u16 {
        match self.spec_qdcount() { Some(v) => v, None => self.spec_questions().len() as u16 }
    }

    /// The header that `build` writes: a zeroed header with each field, set
    /// or defaulted, written in turn.
    #[verifier::opaque]
    pub open spec fn spec_header(&self) -> Seq<u8> {
        let d = zero_seq(MIN_HEADER_LENGTH as nat);
        let d = put_at(d, 0, ID(), true, match self.spec_id() { Some(v) => v, None => 0 } as u64);
        let d = put_at(d, 2, QR(), true, if match self.spec_qr() { Some(v) => v, None => false } { 1u64 } else { 0u64 });
        let d = put_at(d, 2, OPCODE(), true, match self.spec_opcode() { Some(v) => v, None => DnsOpCode::Query }.spec_raw() as u64);
        let d = put_at(d, 2, AA(), true, if match self.spec_aa() { Some(v) => v, None => false } { 1u64 } else { 0u64 });
        let d = put_at(d, 2, TC(), true, if match self.spec_tc() { Some(v) => v, None => false } { 1u64 } else { 0u64 });
        let d = put_at(d, 2, RD(), true, if match self.spec_rd() { Some(v) => v, None => false } { 1u64 } else { 0u64 });
        let d = put_at(d, 3, RA(), true, if match self.spec_ra() { Some(v) => v, None => false } { 1u64 } else { 0u64 });
        let d = put_at(d, 3, Z(), true, match self.spec_z() { Some(v) => v, None => 0 } as u64);
        let d = put_at(d, 3, RCODE(), true, match self.spec_rcode() { Some(v) => v, None => DnsRCode::NoError }.spec_raw() as u8 as u64);
        let d = put_at(d, 6, ANCOUNT(), true, match self.spec_ancount() { Some(v) => v, None => 0 } as u64);
        let d = put_at(d, 8, NSCOUNT(), true, match self.spec_nscount() { Some(v) => v, None => 0 } as u64);
        let d = put_at(d, 10, ARCOUNT(), true, match self.spec_arcount() { Some(v) => v, None => 0 } as u64);
        put_at(d, 4, QDCOUNT(), true, self.built_qdcount() as u64)
    }

    /// The bytes of the message that `build` makes: the header, then the
    /// first questions, as many as the question count says.
    pub open spec fn spec_build(&self) -> Seq<u8> {
        self.spec_header() + concat_questions(self.spec_questions(), self.built_qdcount() as int)
    }

    /// A builder with no field set and no questions.
    pub fn new() -> (r: DnsBuilder)
        ensures
            r.spec_id() is None,
            r.spec_qr() is None,
            r.spec_opcode() is None,
            r.spec_aa() is None,
            r.spec_tc() is None,
            r.spec_rd() is None,
            r.spec_ra() is None,
            r.spec_z() is None,
            r.spec_rcode() is None,
            r.spec_qdcount() is None,
            r.spec_ancount() is None,
            r.spec_nscount() is None,
            r.spec_arcount() is None,
            r.spec_questions() == Seq::<DnsQuestion>::empty(),
    {
        DnsBuilder {
            id: None,
            qr: None,
            opcode: None,
            aa: None,
            tc: None,
            rd: None,
            ra: None,
            z: None,
            rcode: None,
            qdcount: None,
            ancount: None,
            nscount: None,
            arcount: None,
            questions: Vec::new(),
        }
    }

    /// Sets the transaction id.
    pub fn id(self, v: u16) -> (r: DnsBuilder)
        ensures
            r.spec_id() == Some(v),
            r.spec_qr() == self.spec_qr(),
            r.spec_opcode() == self.spec_opcode(),
            r.spec_aa() == self.spec_aa(),
            r.spec_tc() == self.spec_tc(),
            r.spec_rd() == self.spec_rd(),
            r.spec_ra() == self.spec_ra(),
            r.spec_z() == self.spec_z(),
            r.spec_rcode() == self.spec_rcode(),
            r.spec_qdcount() == self.spec_qdcount(),
            r.spec_ancount() == self.spec_ancount(),
            r.spec_nscount() == self.spec_nscount(),
            r.spec_arcount() == self.spec_arcount(),
            r.spec_questions() == self.spec_questions(),
    {
        DnsBuilder { id: Some(v), ..self }
    }

    /// Sets the QR bit.
    pub fn qr(self, v: bool) -> (r: DnsBuilder)
        ensures
            r.spec_qr() == Some(v),
            r.spec_id() == self.spec_id(),
            r.spec_opcode() == self.spec_opcode(),
            r.spec_aa() == self.spec_aa(),
            r.spec_tc() == self.spec_tc(),
            r.spec_rd() == self.spec_rd(),
            r.spec_ra() == self.spec_ra(),
            r.spec_z() == self.spec_z(),
            r.spec_rcode() == self.spec_rcode(),
            r.spec_qdcount() == self.spec_qdcount(),
            r.spec_ancount() == self.spec_ancount(),
            r.spec_nscount() == self.spec_nscount(),
            r.spec_arcount() == self.spec_arcount(),
            r.spec_questions() == self.spec_questions(),
    {
        DnsBuilder { qr: Some(v), ..self }
    }

    /// Sets the operation code.
    pub fn opcode(self, v: DnsOpCode) -> (r: DnsBuilder)
        ensures
            r.spec_opcode() == Some(v),
            r.spec_id() == self.spec_id(),
            r.spec_qr() == self.spec_qr(),
            r.spec_aa() == self.spec_aa(),
            r.spec_tc() == self.spec_tc(),
            r.spec_rd() == self.spec_rd(),
            r.spec_ra() == self.spec_ra(),
            r.spec_z() == self.spec_z(),
            r.spec_rcode() == self.spec_rcode(),
            r.spec_qdcount() == self.spec_qdcount(),
            r.spec_ancount() == self.spec_ancount(),
            r.spec_nscount() == self.spec_nscount(),
            r.spec_arcount() == self.spec_arcount(),
            r.spec_questions() == self.spec_questions(),
    {
        DnsBuilder { opcode: Some(v), ..self }
    }

    /// Sets the AA bit.
    pub fn aa(self, v: bool) -> (r: DnsBuilder)
        ensures
            r.spec_aa() == Some(v),
            r.spec_id() == self.spec_id(),
            r.spec_qr() == self.spec_qr(),
            r.spec_opcode() == self.spec_opcode(),
            r.spec_tc() == self.spec_tc(),
            r.spec_rd() == self.spec_rd(),
            r.spec_ra() == self.spec_ra(),
            r.spec_z() == self.spec_z(),
            r.spec_rcode() == self.spec_rcode(),
            r.spec_qdcount() == self.spec_qdcount(),
            r.spec_ancount() == self.spec_ancount(),
            r.spec_nscount() == self.spec_nscount(),
            r.spec_arcount() == self.spec_arcount(),
            r.spec_questions() == self.spec_questions(),
    {
        DnsBuilder { aa: Some(v), ..self }
    }

    /// Sets the TC bit.
    pub fn tc(self, v: bool) -> (r: DnsBuilder)
        ensures
            r.spec_tc() == Some(v),
            r.spec_id() == self.spec_id(),
            r.spec_qr() == self.spec_qr(),
            r.spec_opcode() == self.spec_opcode(),
            r.spec_aa() == self.spec_aa(),
            r.spec_rd() == self.spec_rd(),
            r.spec_ra() == self.spec_ra(),
            r.spec_z() == self.spec_z(),
            r.spec_rcode() == self.spec_rcode(),
            r.spec_qdcount() == self.spec_qdcount(),
            r.spec_ancount() == self.spec_ancount(),
            r.spec_nscount() == self.spec_nscount(),
            r.spec_arcount() == self.spec_arcount(),
            r.spec_questions() == self.spec_questions(),
    {
        DnsBuilder { tc: Some(v), ..self }
    }

    /// Sets the RD bit.
    pub fn rd(self, v: bool) -> (r: DnsBuilder)
        ensures
            r.spec_rd() == Some(v),
            r.spec_id() == self.spec_id(),
            r.spec_qr() == self.spec_qr(),
            r.spec_opcode() == self.spec_opcode(),
            r.spec_aa() == self.spec_aa(),
            r.spec_tc() == self.spec_tc(),
            r.spec_ra() == self.spec_ra(),
            r.spec_z() == self.spec_z(),
            r.spec_rcode() == self.spec_rcode(),
            r.spec_qdcount() == self.spec_qdcount(),
            r.spec_ancount() == self.spec_ancount(),
            r.spec_nscount() == self.spec_nscount(),
            r.spec_arcount() == self.spec_arcount(),
            r.spec_questions() == self.spec_questions(),
    {
        DnsBuilder { rd: Some(v), ..self }
    }

    /// Sets the RA bit.
    pub fn ra(self, v: bool) -> (r: DnsBuilder)
        ensures
            r.spec_ra() == Some(v),
            r.spec_id() == self.spec_id(),
            r.spec_qr() == self.spec_qr(),
            r.spec_opcode() == self.spec_opcode(),
            r.spec_aa() == self.spec_aa(),
            r.spec_tc() == self.spec_tc(),
            r.spec_rd() == self.spec_rd(),
            r.spec_z() == self.spec_z(),
            r.spec_rcode() == self.spec_rcode(),
            r.spec_qdcount() == self.spec_qdcount(),
            r.spec_ancount() == self.spec_ancount(),
            r.spec_nscount() == self.spec_nscount(),
            r.spec_arcount() == self.spec_arcount(),
            r.spec_questions() == self.spec_questions(),
    {
        DnsBuilder { ra: Some(v), ..self }
    }

    /// Sets the Z bits.
    pub fn z(self, v: u8) -> (r: DnsBuilder)
        ensures
            r.spec_z() == Some(v),
            r.spec_id() == self.spec_id(),
            r.spec_qr() == self.spec_qr(),
            r.spec_opcode() == self.spec_opcode(),
            r.spec_aa() == self.spec_aa(),
            r.spec_tc() == self.spec_tc(),
            r.spec_rd() == self.spec_rd(),
            r.spec_ra() == self.spec_ra(),
            r.spec_rcode() == self.spec_rcode(),
            r.spec_qdcount() == self.spec_qdcount(),
            r.spec_ancount() == self.spec_ancount(),
            r.spec_nscount() == self.spec_nscount(),
            r.spec_arcount() == self.spec_arcount(),
            r.spec_questions() == self.spec_questions(),
    {
        DnsBuilder { z: Some(v), ..self }
    }

    /// Sets the response code.
    pub fn rcode(self, v: DnsRCode) -> (r: DnsBuilder)
        ensures
            r.spec_rcode() == Some(v),
            r.spec_id() == self.spec_id(),
            r.spec_qr() == self.spec_qr(),
            r.spec_opcode() == self.spec_opcode(),
            r.spec_aa() == self.spec_aa(),
            r.spec_tc() == self.spec_tc(),
            r.spec_rd() == self.spec_rd(),
            r.spec_ra() == self.spec_ra(),
            r.spec_z() == self.spec_z(),
            r.spec_qdcount() == self.spec_qdcount(),
            r.spec_ancount() == self.spec_ancount(),
            r.spec_nscount() == self.spec_nscount(),
            r.spec_arcount() == self.spec_arcount(),
            r.spec_questions() == self.spec_questions(),
    {
        DnsBuilder { rcode: Some(v), ..self }
    }

    /// Sets the question count.
    pub fn qdcount(self, v: u16) -> (r: DnsBuilder)
        ensures
            r.spec_qdcount() == Some(v),
            r.spec_id() == self.spec_id(),
            r.spec_qr() == self.spec_qr(),
            r.spec_opcode() == self.spec_opcode(),
            r.spec_aa() == self.spec_aa(),
            r.spec_tc() == self.spec_tc(),
            r.spec_rd() == self.spec_rd(),
            r.spec_ra() == self.spec_ra(),
            r.spec_z() == self.spec_z(),
            r.spec_rcode() == self.spec_rcode(),
            r.spec_ancount() == self.spec_ancount(),
            r.spec_nscount() == self.spec_nscount(),
            r.spec_arcount() == self.spec_arcount(),
            r.spec_questions() == self.spec_questions(),
    {
        DnsBuilder { qdcount: Some(v), ..self }
    }

    /// Sets the answer count.
    pub fn ancount(self, v: u16) -> (r: DnsBuilder)
        ensures
            r.spec_ancount() == Some(v),
            r.spec_id() == self.spec_id(),
            r.spec_qr() == self.spec_qr(),
            r.spec_opcode() == self.spec_opcode(),
            r.spec_aa() == self.spec_aa(),
            r.spec_tc() == self.spec_tc(),
            r.spec_rd() == self.spec_rd(),
            r.spec_ra() == self.spec_ra(),
            r.spec_z() == self.spec_z(),
            r.spec_rcode() == self.spec_rcode(),
            r.spec_qdcount() == self.spec_qdcount(),
            r.spec_nscount() == self.spec_nscount(),
            r.spec_arcount() == self.spec_arcount(),
            r.spec_questions() == self.spec_questions(),
    {
        DnsBuilder { ancount: Some(v), ..self }
    }

    /// Sets the authority count.
    pub fn nscount(self, v: u16) -> (r: DnsBuilder)
        ensures
            r.spec_nscount() == Some(v),
            r.spec_id() == self.spec_id(),
            r.spec_qr() == self.spec_qr(),
            r.spec_opcode() == self.spec_opcode(),
            r.spec_aa() == self.spec_aa(),
            r.spec_tc() == self.spec_tc(),
            r.spec_rd() == self.spec_rd(),
            r.spec_ra() == self.spec_ra(),
            r.spec_z() == self.spec_z(),
            r.spec_rcode() == self.spec_rcode(),
            r.spec_qdcount() == self.spec_qdcount(),
            r.spec_ancount() == self.spec_ancount(),
            r.spec_arcount() == self.spec_arcount(),
            r.spec_questions() == self.spec_questions(),
    {
        DnsBuilder { nscount: Some(v), ..self }
    }

    /// Sets the additional count.
    pub fn arcount(self, v: u16) -> (r: DnsBuilder)
        ensures
            r.spec_arcount() == Some(v),
            r.spec_id() == self.spec_id(),
            r.spec_qr() == self.spec_qr(),
            r.spec_opcode() == self.spec_opcode(),
            r.spec_aa() == self.spec_aa(),
            r.spec_tc() == self.spec_tc(),
            r.spec_rd() == self.spec_rd(),
            r.spec_ra() == self.spec_ra(),
            r.spec_z() == self.spec_z(),
            r.spec_rcode() == self.spec_rcode(),
            r.spec_qdcount() == self.spec_qdcount(),
            r.spec_ancount() == self.spec_ancount(),
            r.spec_nscount() == self.spec_nscount(),
            r.spec_questions() == self.spec_questions(),
    {
        DnsBuilder { arcount: Some(v), ..self }
    }

    /// Adds a question.
    pub fn questions(self, q: DnsQuestion) -> (r: DnsBuilder)
        ensures
            r.spec_questions() == self.spec_questions().push(q),
            r.spec_id() == self.spec_id(),
            r.spec_qr() == self.spec_qr(),
            r.spec_opcode() == self.spec_opcode(),
            r.spec_aa() == self.spec_aa(),
            r.spec_tc() == self.spec_tc(),
            r.spec_rd() == self.spec_rd(),
            r.spec_ra() == self.spec_ra(),
            r.spec_z() == self.spec_z(),
            r.spec_rcode() == self.spec_rcode(),
            r.spec_qdcount() == self.spec_qdcount(),
            r.spec_ancount() == self.spec_ancount(),
            r.spec_nscount() == self.spec_nscount(),
            r.spec_arcount() == self.spec_arcount(),
    {
        let mut b = self;
        b.questions.push(q);
        b
    }

    #[verifier::rlimit(50)]
    /// Writes the header.
    fn build_header(&self) -> (r: Dns)
        ensures
            r.wf(),
            r.bytes().len() == MIN_HEADER_LENGTH,
            r.bytes() == self.spec_header(),
    {
        reveal(DnsBuilder::spec_header);
        let mut dns = Dns { data: zeros(MIN_HEADER_LENGTH) };
        proof {
            assert(dns.bytes() =~= zero_seq(MIN_HEADER_LENGTH as nat));
        }
        dns.id_mut(match self.id { Some(v) => v, None => 0 });
        dns.qr_mut(match self.qr { Some(v) => v, None => false });
        dns.opcode_mut(match self.opcode { Some(v) => v, None => DnsOpCode::Query });
        dns.aa_mut(match self.aa { Some(v) => v, None => false });
        dns.tc_mut(match self.tc { Some(v) => v, None => false });
        dns.rd_mut(match self.rd { Some(v) => v, None => false });
        dns.ra_mut(match self.ra { Some(v) => v, None => false });
        dns.z_mut(match self.z { Some(v) => v, None => 0 });
        dns.rcode_mut(match self.rcode { Some(v) => v, None => DnsRCode::NoError });
        dns.ancount_mut(match self.ancount { Some(v) => v, None => 0 });
        dns.nscount_mut(match self.nscount { Some(v) => v, None => 0 });
        dns.arcount_mut(match self.arcount { Some(v) => v, None => 0 });
        let qdcount: u16 = match self.qdcount {
            Some(v) => v,
            None => #[verifier::truncate] (self.questions.len() as u16),
        };
        dns.qdcount_mut(qdcount);
        dns
    }

    /// Builds the message.
    pub fn build(&self) -> (r: Dns)
        ensures
            r.wf(),
            r.bytes() == self.spec_build(),
    {
        let mut dns = self.build_header();
        let qdcount: u16 = match self.qdcount {
            Some(v) => v,
            None => #[verifier::truncate] (self.questions.len() as u16),
        };
        let ghost header = dns.bytes();
        let mut i: usize = 0;
        while i < self.questions.len() && i < qdcount as usize
            invariant
                0 <= i <= self.questions@.len(),
                i <= qdcount,
                qdcount == self.built_qdcount(),
                dns.bytes() == header + concat_questions(self.questions@, i as int),
                header.len() == MIN_HEADER_LENGTH,
            decreases self.questions@.len() - i,
        {
            append_bytes(&mut dns.data, self.questions[i].inner().as_slice());
            proof {
                lemma_concat_step(self.questions@, i as int);
            }
            i = i + 1;
        }
        proof {
            if i == self.questions@.len() {
                lemma_concat_cap(self.questions@, qdcount as int);
            }
        }
        dns
    }
}

/// A built message's header reads back each field that was set, its
/// default where it was not, and the number of questions where no count
/// was set, as long as each value fits its bits.
#[verifier::rlimit(100)]
pub proof fn lemma_build_reads_back(b: &DnsBuilder)
    requires
        (match b.spec_opcode() { Some(v) => v, None => DnsOpCode::Query }).spec_raw() <= 15,
        (match b.spec_z() { Some(v) => v, None => 0 }) <= 7,
        (match b.spec_rcode() { Some(v) => v, None => DnsRCode::NoError }).spec_raw() as u8 <= 15,
    ensures
        b.spec_header().len() == (zero_seq(MIN_HEADER_LENGTH as nat)).len(),
        field_at(b.spec_header(), 0, ID(), true) == (match b.spec_id() { Some(v) => v, None => 0 }) as u64,
        field_at(b.spec_header(), 2, QR(), true) == (if match b.spec_qr() { Some(v) => v, None => false } { 1u64 } else { 0u64 }) as u64,
        field_at(b.spec_header(), 2, OPCODE(), true) == (match b.spec_opcode() { Some(v) => v, None => DnsOpCode::Query }.spec_raw()) as u64,
        field_at(b.spec_header(), 2, AA(), true) == (if match b.spec_aa() { Some(v) => v, None => false } { 1u64 } else { 0u64 }) as u64,
        field_at(b.spec_header(), 2, TC(), true) == (if match b.spec_tc() { Some(v) => v, None => false } { 1u64 } else { 0u64 }) as u64,
        field_at(b.spec_header(), 2, RD(), true) == (if match b.spec_rd() { Some(v) => v, None => false } { 1u64 } else { 0u64 }) as u64,
        field_at(b.spec_header(), 3, RA(), true) == (if match b.spec_ra() { Some(v) => v, None => false } { 1u64 } else { 0u64 }) as u64,
        field_at(b.spec_header(), 3, Z(), true) == (match b.spec_z() { Some(v) => v, None => 0 }) as u64,
        field_at(b.spec_header(), 3, RCODE(), true) == (match b.spec_rcode() { Some(v) => v, None => DnsRCode::NoError }.spec_raw() as u8) as u64,
        field_at(b.spec_header(), 6, ANCOUNT(), true) == (match b.spec_ancount() { Some(v) => v, None => 0 }) as u64,
        field_at(b.spec_header(), 8, NSCOUNT(), true) == (match b.spec_nscount() { Some(v) => v, None => 0 }) as u64,
        field_at(b.spec_header(), 10, ARCOUNT(), true) == (match b.spec_arcount() { Some(v) => v, None => 0 }) as u64,
        field_at(b.spec_header(), 4, QDCOUNT(), true) == (b.built_qdcount()) as u64,
{
    reveal(DnsBuilder::spec_header);
    let d0 = zero_seq(MIN_HEADER_LENGTH as nat);
    let x1 = (match b.spec_id() { Some(v) => v, None => 0 }) as u64;
    let d1 = put_at(d0, 0, ID(), true, x1);
    let x2 = (if match b.spec_qr() { Some(v) => v, None => false } { 1u64 } else { 0u64 }) as u64;
    let d2 = put_at(d1, 2, QR(), true, x2);
    let x3 = (match b.spec_opcode() { Some(v) => v, None => DnsOpCode::Query }.spec_raw()) as u64;
    let d3 = put_at(d2, 2, OPCODE(), true, x3);
    let x4 = (if match b.spec_aa() { Some(v) => v, None => false } { 1u64 } else { 0u64 }) as u64;
    let d4 = put_at(d3, 2, AA(), true, x4);
    let x5 = (if match b.spec_tc() { Some(v) => v, None => false } { 1u64 } else { 0u64 }) as u64;
    let d5 = put_at(d4, 2, TC(), true, x5);
    let x6 = (if match b.spec_rd() { Some(v) => v, None => false } { 1u64 } else { 0u64 }) as u64;
    let d6 = put_at(d5, 2, RD(), true, x6);
    let x7 = (if match b.spec_ra() { Some(v) => v, None => false } { 1u64 } else { 0u64 }) as u64;
    let d7 = put_at(d6, 3, RA(), true, x7);
    let x8 = (match b.spec_z() { Some(v) => v, None => 0 }) as u64;
    let d8 = put_at(d7, 3, Z(), true, x8);
    let x9 = (match b.spec_rcode() { Some(v) => v, None => DnsRCode::NoError }.spec_raw() as u8) as u64;
    let d9 = put_at(d8, 3, RCODE(), true, x9);
    let x10 = (match b.spec_ancount() { Some(v) => v, None => 0 }) as u64;
    let d10 = put_at(d9, 6, ANCOUNT(), true, x10);
    let x11 = (match b.spec_nscount() { Some(v) => v, None => 0 }) as u64;
    let d11 = put_at(d10, 8, NSCOUNT(), true, x11);
    let x12 = (match b.spec_arcount() { Some(v) => v, None => 0 }) as u64;
    let d12 = put_at(d11, 10, ARCOUNT(), true, x12);
    let x13 = (b.built_qdcount()) as u64;
    let d13 = put_at(d12, 4, QDCOUNT(), true, x13);
    assert(d13 == b.spec_header());
    lemma_pow256_small();
    lemma_put_len(d0, 0, ID(), true, x1);
    lemma_put_len(d1, 2, QR(), true, x2);
    lemma_put_len(d2, 2, OPCODE(), true, x3);
    lemma_put_len(d3, 2, AA(), true, x4);
    lemma_put_len(d4, 2, TC(), true, x5);
    lemma_put_len(d5, 2, RD(), true, x6);
    lemma_put_len(d6, 3, RA(), true, x7);
    lemma_put_len(d7, 3, Z(), true, x8);
    lemma_put_len(d8, 3, RCODE(), true, x9);
    lemma_put_len(d9, 6, ANCOUNT(), true, x10);
    lemma_put_len(d10, 8, NSCOUNT(), true, x11);
    lemma_put_len(d11, 10, ARCOUNT(), true, x12);
    lemma_put_len(d12, 4, QDCOUNT(), true, x13);
    lemma_plain_fits(x1, 2);
    lemma_plain_fits(x10, 2);
    lemma_plain_fits(x11, 2);
    lemma_plain_fits(x12, 2);
    lemma_plain_fits(x13, 2);
    assert((x2 << 7u64) >> 7u64 == x2 && (x2 << 7u64) & !0x80u64 == 0 && (x2 << 7u64) < 256 && (x3 << 3u64) >> 3u64 == x3 && (x3 << 3u64) & !0x78u64 == 0 && (x3 << 3u64) < 256 && (x4 << 2u64) >> 2u64 == x4 && (x4 << 2u64) & !0x04u64 == 0 && (x4 << 2u64) < 256 && (x5 << 1u64) >> 1u64 == x5 && (x5 << 1u64) & !0x02u64 == 0 && (x5 << 1u64) < 256 && (x6 << 0u64) >> 0u64 == x6 && (x6 << 0u64) & !0x01u64 == 0 && (x6 << 0u64) < 256 && (x7 << 7u64) >> 7u64 == x7 && (x7 << 7u64) & !0x80u64 == 0 && (x7 << 7u64) < 256 && (x8 << 4u64) >> 4u64 == x8 && (x8 << 4u64) & !0x70u64 == 0 && (x8 << 4u64) < 256 && (x9 << 0u64) >> 0u64 == x9 && (x9 << 0u64) & !0x0Fu64 == 0 && (x9 << 0u64) < 256 && 0x80u64 & 0x78u64 == 0 && 0x80u64 & 0x04u64 == 0 && 0x80u64 & 0x02u64 == 0 && 0x80u64 & 0x01u64 == 0 && 0x78u64 & 0x04u64 == 0 && 0x78u64 & 0x02u64 == 0 && 0x78u64 & 0x01u64 == 0 && 0x04u64 & 0x02u64 == 0 && 0x04u64 & 0x01u64 == 0 && 0x02u64 & 0x01u64 == 0 && 0x80u64 & 0x70u64 == 0 && 0x80u64 & 0x0Fu64 == 0 && 0x70u64 & 0x0Fu64 == 0) by (bit_vector)
        requires
            x2 <= 1,
            x3 <= 15,
            x4 <= 1,
            x5 <= 1,
            x6 <= 1,
            x7 <= 1,
            x8 <= 7,
            x9 <= 15,
    ;
    lemma_set_then_get(d0, 0, ID(), true, x1);
    lemma_put_frame(d1, 0, ID(), 2, QR(), true, x2);
    lemma_put_frame(d2, 0, ID(), 2, OPCODE(), true, x3);
    lemma_put_frame(d3, 0, ID(), 2, AA(), true, x4);
    lemma_put_frame(d4, 0, ID(), 2, TC(), true, x5);
    lemma_put_frame(d5, 0, ID(), 2, RD(), true, x6);
    lemma_put_frame(d6, 0, ID(), 3, RA(), true, x7);
    lemma_put_frame(d7, 0, ID(), 3, Z(), true, x8);
    lemma_put_frame(d8, 0, ID(), 3, RCODE(), true, x9);
    lemma_put_frame(d9, 0, ID(), 6, ANCOUNT(), true, x10);
    lemma_put_frame(d10, 0, ID(), 8, NSCOUNT(), true, x11);
    lemma_put_frame(d11, 0, ID(), 10, ARCOUNT(), true, x12);
    lemma_put_frame(d12, 0, ID(), 4, QDCOUNT(), true, x13);
    lemma_set_then_get(d1, 2, QR(), true, x2);
    lemma_put_same_carrier(d2, 2, QR(), OPCODE(), true, x3);
    lemma_put_same_carrier(d3, 2, QR(), AA(), true, x4);
    lemma_put_same_carrier(d4, 2, QR(), TC(), true, x5);
    lemma_put_same_carrier(d5, 2, QR(), RD(), true, x6);
    lemma_put_frame(d6, 2, QR(), 3, RA(), true, x7);
    lemma_put_frame(d7, 2, QR(), 3, Z(), true, x8);
    lemma_put_frame(d8, 2, QR(), 3, RCODE(), true, x9);
    lemma_put_frame(d9, 2, QR(), 6, ANCOUNT(), true, x10);
    lemma_put_frame(d10, 2, QR(), 8, NSCOUNT(), true, x11);
    lemma_put_frame(d11, 2, QR(), 10, ARCOUNT(), true, x12);
    lemma_put_frame(d12, 2, QR(), 4, QDCOUNT(), true, x13);
    lemma_set_then_get(d2, 2, OPCODE(), true, x3);
    lemma_put_same_carrier(d3, 2, OPCODE(), AA(), true, x4);
    lemma_put_same_carrier(d4, 2, OPCODE(), TC(), true, x5);
    lemma_put_same_carrier(d5, 2, OPCODE(), RD(), true, x6);
    lemma_put_frame(d6, 2, OPCODE(), 3, RA(), true, x7);
    lemma_put_frame(d7, 2, OPCODE(), 3, Z(), true, x8);
    lemma_put_frame(d8, 2, OPCODE(), 3, RCODE(), true, x9);
    lemma_put_frame(d9, 2, OPCODE(), 6, ANCOUNT(), true, x10);
    lemma_put_frame(d10, 2, OPCODE(), 8, NSCOUNT(), true, x11);
    lemma_put_frame(d11, 2, OPCODE(), 10, ARCOUNT(), true, x12);
    lemma_put_frame(d12, 2, OPCODE(), 4, QDCOUNT(), true, x13);
    lemma_set_then_get(d3, 2, AA(), true, x4);
    lemma_put_same_carrier(d4, 2, AA(), TC(), true, x5);
    lemma_put_same_carrier(d5, 2, AA(), RD(), true, x6);
    lemma_put_frame(d6, 2, AA(), 3, RA(), true, x7);
    lemma_put_frame(d7, 2, AA(), 3, Z(), true, x8);
    lemma_put_frame(d8, 2, AA(), 3, RCODE(), true, x9);
    lemma_put_frame(d9, 2, AA(), 6, ANCOUNT(), true, x10);
    lemma_put_frame(d10, 2, AA(), 8, NSCOUNT(), true, x11);
    lemma_put_frame(d11, 2, AA(), 10, ARCOUNT(), true, x12);
    lemma_put_frame(d12, 2, AA(), 4, QDCOUNT(), true, x13);
    lemma_set_then_get(d4, 2, TC(), true, x5);
    lemma_put_same_carrier(d5, 2, TC(), RD(), true, x6);
    lemma_put_frame(d6, 2, TC(), 3, RA(), true, x7);
    lemma_put_frame(d7, 2, TC(), 3, Z(), true, x8);
    lemma_put_frame(d8, 2, TC(), 3, RCODE(), true, x9);
    lemma_put_frame(d9, 2, TC(), 6, ANCOUNT(), true, x10);
    lemma_put_frame(d10, 2, TC(), 8, NSCOUNT(), true, x11);
    lemma_put_frame(d11, 2, TC(), 10, ARCOUNT(), true, x12);
    lemma_put_frame(d12, 2, TC(), 4, QDCOUNT(), true, x13);
    lemma_set_then_get(d5, 2, RD(), true, x6);
    lemma_put_frame(d6, 2, RD(), 3, RA(), true, x7);
    lemma_put_frame(d7, 2, RD(), 3, Z(), true, x8);
    lemma_put_frame(d8, 2, RD(), 3, RCODE(), true, x9);
    lemma_put_frame(d9, 2, RD(), 6, ANCOUNT(), true, x10);
    lemma_put_frame(d10, 2, RD(), 8, NSCOUNT(), true, x11);
    lemma_put_frame(d11, 2, RD(), 10, ARCOUNT(), true, x12);
    lemma_put_frame(d12, 2, RD(), 4, QDCOUNT(), true, x13);
    lemma_set_then_get(d6, 3, RA(), true, x7);
    lemma_put_same_carrier(d7, 3, RA(), Z(), true, x8);
    lemma_put_same_carrier(d8, 3, RA(), RCODE(), true, x9);
    lemma_put_frame(d9, 3, RA(), 6, ANCOUNT(), true, x10);
    lemma_put_frame(d10, 3, RA(), 8, NSCOUNT(), true, x11);
    lemma_put_frame(d11, 3, RA(), 10, ARCOUNT(), true, x12);
    lemma_put_frame(d12, 3, RA(), 4, QDCOUNT(), true, x13);
    lemma_set_then_get(d7, 3, Z(), true, x8);
    lemma_put_same_carrier(d8, 3, Z(), RCODE(), true, x9);
    lemma_put_frame(d9, 3, Z(), 6, ANCOUNT(), true, x10);
    lemma_put_frame(d10, 3, Z(), 8, NSCOUNT(), true, x11);
    lemma_put_frame(d11, 3, Z(), 10, ARCOUNT(), true, x12);
    lemma_put_frame(d12, 3, Z(), 4, QDCOUNT(), true, x13);
    lemma_set_then_get(d8, 3, RCODE(), true, x9);
    lemma_put_frame(d9, 3, RCODE(), 6, ANCOUNT(), true, x10);
    lemma_put_frame(d10, 3, RCODE(), 8, NSCOUNT(), true, x11);
    lemma_put_frame(d11, 3, RCODE(), 10, ARCOUNT(), true, x12);
    lemma_put_frame(d12, 3, RCODE(), 4, QDCOUNT(), true, x13);
    lemma_set_then_get(d9, 6, ANCOUNT(), true, x10);
    lemma_put_frame(d10, 6, ANCOUNT(), 8, NSCOUNT(), true, x11);
    lemma_put_frame(d11, 6, ANCOUNT(), 10, ARCOUNT(), true, x12);
    lemma_put_frame(d12, 6, ANCOUNT(), 4, QDCOUNT(), true, x13);
    lemma_set_then_get(d10, 8, NSCOUNT(), true, x11);
    lemma_put_frame(d11, 8, NSCOUNT(), 10, ARCOUNT(), true, x12);
    lemma_put_frame(d12, 8, NSCOUNT(), 4, QDCOUNT(), true, x13);
    lemma_set_then_get(d11, 10, ARCOUNT(), true, x12);
    lemma_put_frame(d12, 10, ARCOUNT(), 4, QDCOUNT(), true, x13);
    lemma_set_then_get(d12, 4, QDCOUNT(), true, x13);
}

} // verus!
