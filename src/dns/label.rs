//! DNS labels.
//!
//! A label is normal (top two bits clear, the low six bits give the length
//! of the content that follows) or compressed (top two bits set, the low 14
//! bits of the first two bytes give an offset into the message).
use vstd::prelude::*;
use vstd::slice::slice_subrange;

use crate::field::{field_at, read_field, FieldSpec};
use crate::text::bytes_eq;
use vstd::string::StringSliceAdditionalSpecFns;

verus! {

/// Position of the label type (top two bits).
pub open spec fn TYPE() -> FieldSpec {
    FieldSpec { width: 1, mask: 0xC0, shift: 6 }
}

/// Position of a normal label's length (low six bits).
pub open spec fn LEN() -> FieldSpec {
    FieldSpec { width: 1, mask: 0x3F, shift: 0 }
}

/// Position of a compressed label's offset (low 14 bits of two bytes).
pub open spec fn OFFSET() -> FieldSpec {
    FieldSpec { width: 2, mask: 0x3FFF, shift: 0 }
}

/// How many bytes a label takes, by its first byte: two for a compressed
/// label (top two bits set), else the first byte and as many as it counts.
pub open spec fn label_size(b: u8) -> int {
    if b >= 0xC0 {
        2
    } else {
        b + 1
    }
}

/// A label that takes the bytes its first byte announces holds, when it is
/// compressed, the two bytes of its offset, and when it is normal, as many
/// bytes as its first byte counts.
pub proof fn lemma_label_kind(l: Seq<u8>)
    requires
        l.len() >= 1,
        l.len() == label_size(l[0]),
    ensures
        field_at(l, 0, TYPE(), true) as u8 == 3 ==> l.len() == 2,
        field_at(l, 0, TYPE(), true) as u8 == 0 ==> l.len() == l[0] + 1,
{
    let h = l.subrange(0, 1);
    assert(h.drop_last() =~= Seq::<u8>::empty());
    reveal_with_fuel(crate::field::be_nat, 2);
    assert(crate::field::be_nat(h) == l[0] as nat);
    let x = l[0] as u64;
    assert((((x & 0xC0u64) >> 6u64) as u8 == 3 ==> x >= 192) && (((x & 0xC0u64) >> 6u64) as u8
        == 0 ==> x < 192)) by (bit_vector)
        requires
            x < 256,
    ;
}

/// A DNS label: its first byte and what follows it.
#[derive(Clone, Debug)]
pub struct DnsLabel {
    data: Vec<u8>,
}

impl DnsLabel {
    /// The label's bytes.
    pub closed spec fn bytes(&self) -> Seq<u8> {
        self.data@
    }

    /// The label holds at least its first byte.
    pub open spec fn wf(&self) -> bool {
        self.bytes().len() >= 1
    }

    /// The label type: 0 for normal, 3 for compressed.
    pub open spec fn spec_type(&self) -> u8 {
        field_at(self.bytes(), 0, TYPE(), true) as u8
    }

    /// A label over `data`, which holds at least one byte.
    pub fn new(data: Vec<u8>) -> (r: DnsLabel)
        requires
            data@.len() >= 1,
        ensures
            r.bytes() == data@,
    {
        DnsLabel { data }
    }

    /// The label's bytes.
    pub fn inner(&self) -> (r: &Vec<u8>)
        ensures
            r@ == self.bytes(),
    {
        &self.data
    }

    /// The label type (top two bits of the first byte).
    pub fn type_(&self) -> (r: u8)
        requires
            self.wf(),
        ensures
            r == self.spec_type(),
    {
        let f = FieldSpec { width: 1, mask: 0xC0, shift: 6 };
        read_field(self.data.as_slice(), 0, f, true) as u8
    }

    /// Whether the label is normal.
    pub fn is_normal(&self) -> (r: bool)
        requires
            self.wf(),
        ensures
            r == (self.spec_type() == 0),
    {
        self.type_() == 0
    }

    /// Whether the label is compressed.
    pub fn is_compressed(&self) -> (r: bool)
        requires
            self.wf(),
        ensures
            r == (self.spec_type() == 3),
    {
        self.type_() == 3
    }

    /// The length of a normal label's content.
    pub fn len(&self) -> (r: Option<u8>)
        requires
            self.wf(),
        ensures
            r == if self.spec_type() == 0 {
                Some(field_at(self.bytes(), 0, LEN(), true) as u8)
            } else {
                None::<u8>
            },
    {
        if self.is_normal() {
            let f = FieldSpec { width: 1, mask: 0x3F, shift: 0 };
            Some(read_field(self.data.as_slice(), 0, f, true) as u8)
        } else {
            None
        }
    }

    /// The offset that a compressed label points to.
    pub fn offset(&self) -> (r: Option<u16>)
        requires
            self.wf(),
            self.spec_type() == 3 ==> self.bytes().len() >= 2,
        ensures
            r == if self.spec_type() == 3 {
                Some(field_at(self.bytes(), 0, OFFSET(), true) as u16)
            } else {
                None::<u16>
            },
    {
        if self.is_compressed() {
            let f = FieldSpec { width: 2, mask: 0x3FFF, shift: 0 };
            Some(read_field(self.data.as_slice(), 0, f, true) as u16)
        } else {
            None
        }
    }

    /// The content of a normal label: the bytes after the first, as many as
    /// the first byte says.
    pub fn label(&self) -> (r: Option<&[u8]>)
        requires
            self.wf(),
            self.spec_type() == 0 ==> 1 + self.bytes()[0] <= self.bytes().len(),
        ensures
            r is Some <==> self.spec_type() == 0,
            r matches Some(l) ==> l@ == self.bytes().subrange(1, 1 + self.bytes()[0]),
    {
        if self.is_normal() {
            let len = self.data[0] as usize;
            Some(slice_subrange(self.data.as_slice(), 1, 1 + len))
        } else {
            None
        }
    }

    /// Whether the label is normal and its content is the bytes of `s`.
    pub fn eq_str(&self, s: &str) -> (r: bool)
        requires
            self.wf(),
            self.spec_type() == 0 ==> 1 + self.bytes()[0] <= self.bytes().len(),
        ensures
            r == (self.spec_type() == 0 && self.bytes().subrange(1, 1 + self.bytes()[0])
                == s.spec_bytes()),
    {
        match self.label() {
            Some(l) => bytes_eq(l, s.as_bytes()),
            None => false,
        }
    }
}

} // verus!
