//! DNS questions.
//!
//! A question is a name in wire form, ended by a zero byte, followed by two
//! 16-bit fields: the query type and the query class.
use vstd::prelude::*;
use vstd::slice::{slice_subrange, slice_to_vec};
use vstd::string::StringSliceAdditionalSpecFns;

use super::class::DnsClass;
use super::name::{encode_name, DnsName};
use super::rrtype::DnsRrType;
use crate::field::{append_bytes, be_bytes, be_nat, read_be_at, splice, write_be_at, zeros};

verus! {

/// Error type for DNS questions.
#[derive(Debug, Clone, PartialEq, Eq)]
pub enum DnsQuestionError {
    /// No zero byte ends the name.
    NoRootLabelFound,
}

/// `i` is the index of the first zero byte of `s`.
pub open spec fn is_first_zero(s: Seq<u8>, i: int) -> bool {
    0 <= i < s.len() && s[i] == 0 && forall|j: int| 0 <= j < i ==> s[j] != 0
}

/// `s` holds a zero byte.
pub open spec fn has_zero(s: Seq<u8>) -> bool {
    exists|i: int| 0 <= i < s.len() && s[i] == 0
}

/// The index of the first zero byte of `s`.
pub open spec fn first_zero(s: Seq<u8>) -> int {
    choose|i: int| is_first_zero(s, i)
}

/// The first zero byte is the only one that is first.
pub proof fn lemma_first_zero(s: Seq<u8>, i: int)
    requires
        is_first_zero(s, i),
    ensures
        first_zero(s) == i,
{
    let k = first_zero(s);
    assert(is_first_zero(s, k));
    if k < i {
        assert(s[k] != 0);
    }
    if i < k {
        assert(s[i] != 0);
    }
}

/// A DNS question over an owned buffer: the name ends at `name_len`, the
/// first zero byte.
#[derive(Clone, Debug)]
pub struct DnsQuestion {
    data: Vec<u8>,
    name_len: usize,
}

impl DnsQuestion {
    /// The question's bytes (and any that follow it in the buffer).
    pub closed spec fn bytes(&self) -> Seq<u8> {
        self.data@
    }

    /// The index of the byte that ends the name.
    pub closed spec fn spec_name_len(&self) -> usize {
        self.name_len
    }

    /// The name's end lies within the buffer.
    pub open spec fn wf(&self) -> bool {
        self.spec_name_len() < self.bytes().len()
    }

    /// The buffer holds the query type and class after the name.
    pub open spec fn complete(&self) -> bool {
        self.spec_name_len() + 5 <= self.bytes().len()
    }

    /// The query type code held after the name.
    pub open spec fn spec_qtype(&self) -> DnsRrType {
        let n = self.spec_name_len() as int;
        DnsRrType::spec_from_raw(be_nat(self.bytes().subrange(n + 1, n + 3)) as u16)
    }

    /// The query class code held after the query type.
    pub open spec fn spec_qclass(&self) -> DnsClass {
        let n = self.spec_name_len() as int;
        DnsClass::spec_from_raw(be_nat(self.bytes().subrange(n + 3, n + 5)) as u16)
    }

    /// A question over `data`, whose name ends at its first zero byte.
    pub fn new(data: Vec<u8>) -> (r: Result<DnsQuestion, DnsQuestionError>)
        ensures
            r is Ok <==> has_zero(data@),
            r matches Ok(q) ==> q.bytes() == data@ && is_first_zero(data@, q.spec_name_len() as int),
            r matches Err(e) ==> e == DnsQuestionError::NoRootLabelFound,
    {
        let mut i: usize = 0;
        while i < data.len()
            invariant
                0 <= i <= data@.len(),
                forall|j: int| 0 <= j < i ==> data@[j] != 0,
            decreases data@.len() - i,
        {
            if data[i] == 0 {
                return Ok(DnsQuestion { data, name_len: i });
            }
            i = i + 1;
        }
        Err(DnsQuestionError::NoRootLabelFound)
    }

    /// The question's bytes.
    pub fn inner(&self) -> (r: &Vec<u8>)
        ensures
            r@ == self.bytes(),
    {
        &self.data
    }

    /// The length of the question: the name with its zero byte, and four.
    pub fn len(&self) -> (r: usize)
        requires
            self.spec_name_len() + 5 <= usize::MAX,
        ensures
            r == self.spec_name_len() + 5,
    {
        self.name_len + 5
    }

    /// The index of the byte that ends the name.
    pub fn name_len(&self) -> (r: usize)
        ensures
            r == self.spec_name_len(),
    {
        self.name_len
    }

    /// Whether the question is empty: never, it holds at least its zero byte
    /// and its two fields.
    pub fn is_empty(&self) -> (r: bool)
        ensures
            !r,
    {
        false
    }

    /// The name, with its zero byte.
    pub fn qname(&self) -> (r: DnsName)
        requires
            self.wf(),
        ensures
            r.bytes() == self.bytes().subrange(0, self.spec_name_len() + 1),
    {
        let _len = self.data.len();
        DnsName::new(slice_to_vec(slice_subrange(self.data.as_slice(), 0, self.name_len + 1)))
    }

    /// The query type.
    pub fn qtype(&self) -> (r: DnsRrType)
        requires
            self.complete(),
        ensures
            r == self.spec_qtype(),
    {
        let _len = self.data.len();
        DnsRrType::from_raw(read_be_at(self.data.as_slice(), self.name_len + 1, 2) as u16)
    }

    /// The query class.
    pub fn qclass(&self) -> (r: DnsClass)
        requires
            self.complete(),
        ensures
            r == self.spec_qclass(),
    {
        let _len = self.data.len();
        DnsClass::from_raw(read_be_at(self.data.as_slice(), self.name_len + 3, 2) as u16)
    }

    /// Writes the query type.
    pub fn qtype_mut(&mut self, v: DnsRrType)
        requires
            old(self).complete(),
        ensures
            final(self).bytes() == splice(
                old(self).bytes(),
                old(self).spec_name_len() + 1,
                be_bytes(v.spec_raw() as nat, 2),
            ),
            final(self).spec_name_len() == old(self).spec_name_len(),
            final(self).bytes().len() == old(self).bytes().len(),
    {
        let _len = self.data.len();
        write_be_at(&mut self.data, self.name_len + 1, 2, v.raw() as u64);
    }

    /// Writes the query class.
    pub fn qclass_mut(&mut self, v: DnsClass)
        requires
            old(self).complete(),
        ensures
            final(self).bytes() == splice(
                old(self).bytes(),
                old(self).spec_name_len() + 3,
                be_bytes(v.spec_raw() as nat, 2),
            ),
            final(self).spec_name_len() == old(self).spec_name_len(),
            final(self).bytes().len() == old(self).bytes().len(),
    {
        let _len = self.data.len();
        write_be_at(&mut self.data, self.name_len + 3, 2, v.raw() as u64);
    }
}

/// Builder for [`DnsQuestion`].
pub struct DnsQuestionBuilder {
    qname: Option<String>,
    qtype: Option<DnsRrType>,
    qclass: Option<DnsClass>,
}

impl DnsQuestionBuilder {
    pub closed spec fn spec_qname(&self) -> Option<Seq<char>> {
        match self.qname {
            Some(s) => Some(s@),
            None => None,
        }
    }

    pub closed spec fn spec_qtype(&self) -> Option<DnsRrType> {
        self.qtype
    }

    pub closed spec fn spec_qclass(&self) -> Option<DnsClass> {
        self.qclass
    }

    /// The wire form of the name that `build` writes: the one set, or the
    /// empty name.
    pub open spec fn built_name(&self) -> Seq<u8> {
        encode_name(
            match self.spec_qname() {
                Some(s) => vstd::utf8::encode_utf8(s),
                None => Seq::empty(),
            },
        )
    }

    /// The bytes of the question that `build` makes: the name, then the query
    /// type (A unless set) and the query class (Internet unless set).
    pub open spec fn spec_build(&self) -> Seq<u8> {
        self.built_name() + be_bytes(
            match self.spec_qtype() {
                Some(t) => t.spec_raw() as nat,
                None => 1,
            },
            2,
        ) + be_bytes(
            match self.spec_qclass() {
                Some(c) => c.spec_raw() as nat,
                None => 1,
            },
            2,
        )
    }

    /// A builder with no field set.
    pub fn new() -> (r: DnsQuestionBuilder)
        ensures
            r.spec_qname() is None,
            r.spec_qtype() is None,
            r.spec_qclass() is None,
    {
        DnsQuestionBuilder { qname: None, qtype: None, qclass: None }
    }

    /// Sets the name, in dotted form.
    pub fn qname(self, name: &str) -> (r: DnsQuestionBuilder)
        ensures
            r.spec_qname() == Some(name@),
            r.spec_qtype() == self.spec_qtype(),
            r.spec_qclass() == self.spec_qclass(),
    {
        DnsQuestionBuilder { qname: Some(name.to_owned()), ..self }
    }

    /// Sets the query type.
    pub fn qtype(self, qtype: DnsRrType) -> (r: DnsQuestionBuilder)
        ensures
            r.spec_qtype() == Some(qtype),
            r.spec_qname() == self.spec_qname(),
            r.spec_qclass() == self.spec_qclass(),
    {
        DnsQuestionBuilder { qtype: Some(qtype), ..self }
    }

    /// Sets the query class.
    pub fn qclass(self, qclass: DnsClass) -> (r: DnsQuestionBuilder)
        ensures
            r.spec_qclass() == Some(qclass),
            r.spec_qname() == self.spec_qname(),
            r.spec_qtype() == self.spec_qtype(),
    {
        DnsQuestionBuilder { qclass: Some(qclass), ..self }
    }

    /// Builds the question; its name ends at the name's last byte.
    pub fn build(&self) -> (r: DnsQuestion)
        requires
            self.built_name().len() + 4 <= usize::MAX,
        ensures
            r.bytes() == self.spec_build(),
            r.spec_name_len() == self.built_name().len() - 1,
            r.complete(),
            r.spec_qtype() == DnsRrType::spec_from_raw(
                match self.spec_qtype() {
                    Some(t) => t.spec_raw(),
                    None => 1,
                },
            ),
            r.spec_qclass() == DnsClass::spec_from_raw(
                match self.spec_qclass() {
                    Some(c) => c.spec_raw(),
                    None => 1,
                },
            ),
    {
        let qname = match &self.qname {
            Some(s) => DnsName::from(s.as_str()),
            None => DnsName::from(""),
        };
        proof {
            reveal_strlit("");
        }
        let qtype = match self.qtype {
            Some(t) => t,
            None => DnsRrType::A,
        };
        let qclass = match self.qclass {
            Some(c) => c,
            None => DnsClass::Internet,
        };
        let mut data = qname.into_inner();
        let len = data.len();
        let z = zeros(4);
        append_bytes(&mut data, z.as_slice());
        let mut question = DnsQuestion { data, name_len: len - 1 };
        question.qtype_mut(qtype);
        question.qclass_mut(qclass);
        proof {
            crate::field::lemma_carrier_round_trip(qtype.spec_raw() as nat, 2, true);
            crate::field::lemma_carrier_round_trip(qclass.spec_raw() as nat, 2, true);
        }
        assert(question.bytes() =~= self.spec_build());
        proof {
            let n = question.name_len as int;
            crate::field::lemma_pow256_small();
            vstd::arithmetic::div_mod::lemma_small_mod(qtype.spec_raw() as nat, 0x1_0000);
            vstd::arithmetic::div_mod::lemma_small_mod(qclass.spec_raw() as nat, 0x1_0000);
            assert(question.bytes().subrange(n + 1, n + 3) =~= be_bytes(qtype.spec_raw() as nat, 2));
            assert(question.bytes().subrange(n + 3, n + 5) =~= be_bytes(qclass.spec_raw() as nat, 2));
        }
        question
    }
}

} // verus!
