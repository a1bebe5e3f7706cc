//! DNS names.
use vstd::prelude::*;
use vstd::slice::{slice_subrange, slice_to_vec};
use vstd::string::StringSliceAdditionalSpecFns;

use super::label::{label_size, DnsLabel, LEN, OFFSET, TYPE};
use crate::field::{append_bytes, field_at};
use crate::text::{bytes_eq, decimal, push_decimal, text_from_bytes, utf8_text};

verus! {

/// The byte `.`.
pub const DOT: u8 = 46;

/// A label of content `seg`: its length as a byte, then the content.
pub open spec fn seg_bytes(seg: Seq<u8>) -> Seq<u8> {
    seq![seg.len() as u8] + seg
}

/// The labels of dotted text `s`, where `cur` is the part of the current
/// segment that comes before `s`.
pub open spec fn encode_from(s: Seq<u8>, cur: Seq<u8>) -> Seq<u8>
    decreases s.len(),
{
    if s.len() == 0 {
        seg_bytes(cur)
    } else if s[0] == DOT {
        seg_bytes(cur) + encode_from(s.drop_first(), Seq::empty())
    } else {
        encode_from(s.drop_first(), cur.push(s[0]))
    }
}

/// The wire form of dotted text `s`: each segment between dots as a label,
/// then a zero byte.
pub open spec fn encode_name(s: Seq<u8>) -> Seq<u8> {
    encode_from(s, Seq::empty()).push(0)
}

/// Each label of `d`, of the size its first byte announces, lies within
/// `d`, up to the first zero length or the end.
pub open spec fn labels_fit(d: Seq<u8>) -> bool
    decreases d.len(),
{
    d.len() == 0 || (label_size(d[0]) <= d.len() && (d[0] == 0 || labels_fit(
        d.subrange(label_size(d[0]), d.len() as int),
    )))
}

/// The labels of `d`, one after another, each of the size its first byte
/// announces (two bytes for a compression pointer), up to and including the
/// first zero-length label.
pub open spec fn labels_of(d: Seq<u8>) -> Seq<Seq<u8>>
    decreases d.len(),
{
    if d.len() == 0 || label_size(d[0]) > d.len() {
        Seq::empty()
    } else if d[0] == 0 {
        seq![d.subrange(0, 1)]
    } else {
        seq![d.subrange(0, label_size(d[0]))] + labels_of(
            d.subrange(label_size(d[0]), d.len() as int),
        )
    }
}

/// How a label is displayed: a normal label's content and a dot (nothing for
/// the root), a compressed label as `PTR(offset)`, a label of a reserved
/// type as nothing.
pub open spec fn render(l: Seq<u8>) -> Seq<u8> {
    let t = field_at(l, 0, TYPE(), true) as u8;
    if t == 0 {
        if field_at(l, 0, LEN(), true) as u8 > 0 {
            l.subrange(1, 1 + l[0]).push(DOT)
        } else {
            Seq::empty()
        }
    } else if t == 3 {
        "PTR("@.map_values(|c: char| c as u8) + decimal(field_at(l, 0, OFFSET(), true) as u16 as nat)
            + seq![41u8]
    } else {
        Seq::empty()
    }
}

/// The display of a sequence of labels: each one rendered, in order.
pub open spec fn render_all(ls: Seq<Seq<u8>>) -> Seq<u8>
    decreases ls.len(),
{
    if ls.len() == 0 {
        Seq::empty()
    } else {
        render_all(ls.drop_last()) + render(ls.last())
    }
}

/// A DNS name in wire form.
#[derive(Clone, Debug)]
pub struct DnsName {
    data: Vec<u8>,
}

impl DnsName {
    /// The name's bytes.
    pub closed spec fn bytes(&self) -> Seq<u8> {
        self.data@
    }

    /// The display of the name: its labels rendered in order.
    pub open spec fn spec_display(&self) -> Seq<u8> {
        render_all(labels_of(self.bytes()))
    }

    /// A name over wire-form bytes.
    pub fn new(data: Vec<u8>) -> (r: DnsName)
        ensures
            r.bytes() == data@,
    {
        DnsName { data }
    }

    /// The name of dotted text: each segment between dots becomes a label of
    /// its length (as a byte) and its bytes, and a zero byte ends the name.
    pub fn from(name: &str) -> (r: DnsName)
        ensures
            r.bytes() == encode_name(name.spec_bytes()),
    {
        let b = name.as_bytes();
        let mut data: Vec<u8> = Vec::new();
        let mut start: usize = 0;
        let mut i: usize = 0;
        assert(b@.subrange(0, b@.len() as int) =~= b@);
        assert(b@.subrange(0, 0) =~= Seq::<u8>::empty());
        assert(data@ + encode_from(b@, Seq::empty()) =~= encode_from(b@, Seq::empty()));
        while i < b.len()
            invariant
                0 <= start <= i <= b@.len(),
                data@ + encode_from(b@.subrange(i as int, b@.len() as int), b@.subrange(start as int, i as int))
                    == encode_from(b@, Seq::empty()),
            decreases b@.len() - i,
        {
            let ghost rest = b@.subrange(i as int, b@.len() as int);
            assert(rest.drop_first() =~= b@.subrange(i + 1, b@.len() as int));
            if b[i] == DOT {
                let ghost before = data@;
                data.push(#[verifier::truncate] ((i - start) as u8));
                append_bytes(&mut data, slice_subrange(b, start, i));
                assert(b@.subrange(i + 1, i + 1) =~= Seq::<u8>::empty());
                assert(data@ =~= before + seg_bytes(b@.subrange(start as int, i as int)));
                start = i + 1;
            } else {
                assert(b@.subrange(start as int, i as int).push(b@[i as int]) =~= b@.subrange(
                    start as int,
                    i + 1,
                ));
            }
            i = i + 1;
        }
        let ghost before = data@;
        data.push(#[verifier::truncate] ((b.len() - start) as u8));
        append_bytes(&mut data, slice_subrange(b, start, b.len()));
        assert(data@ =~= before + seg_bytes(b@.subrange(start as int, b@.len() as int)));
        assert(b@.subrange(b@.len() as int, b@.len() as int) =~= Seq::<u8>::empty());
        data.push(0);
        DnsName { data }
    }

    /// The name's bytes.
    pub fn inner(&self) -> (r: &Vec<u8>)
        ensures
            r@ == self.bytes(),
    {
        &self.data
    }

    /// Takes the name's bytes.
    pub fn into_inner(self) -> (r: Vec<u8>)
        ensures
            r@ == self.bytes(),
    {
        self.data
    }

    /// The labels of the name, up to and including the root label.
    pub fn labels(&self) -> (r: Vec<DnsLabel>)
        requires
            labels_fit(self.bytes()),
        ensures
            r@.map_values(|l: DnsLabel| l.bytes()) == labels_of(self.bytes()),
            forall|i: int| 0 <= i < r@.len() ==> #[trigger] r@[i].wf(),
    {
        let d = self.data.as_slice();
        let mut out: Vec<DnsLabel> = Vec::new();
        let mut offset: usize = 0;
        assert(d@.subrange(0, d@.len() as int) =~= d@);
        assert(out@.map_values(|l: DnsLabel| l.bytes()) + labels_of(d@) =~= labels_of(d@));
        while offset < d.len()
            invariant
                0 <= offset <= d@.len(),
                d@ == self.bytes(),
                labels_fit(d@.subrange(offset as int, d@.len() as int)),
                out@.map_values(|l: DnsLabel| l.bytes()) + labels_of(
                    d@.subrange(offset as int, d@.len() as int),
                ) == labels_of(d@),
                forall|i: int| 0 <= i < out@.len() ==> #[trigger] out@[i].wf(),
            decreases d@.len() - offset,
        {
            let ghost rest = d@.subrange(offset as int, d@.len() as int);
            let first = d[offset];
            let len: usize = if first >= 0xC0 {
                1
            } else {
                first as usize
            };
            let label = DnsLabel::new(slice_to_vec(slice_subrange(d, offset, offset + len + 1)));
            let ghost before = out@;
            out.push(label);
            assert(rest.subrange(0, len + 1) =~= d@.subrange(offset as int, offset + len + 1));
            if first == 0 {
                assert(out@.map_values(|l: DnsLabel| l.bytes()) =~= before.map_values(
                    |l: DnsLabel| l.bytes(),
                ) + labels_of(rest));
                assert(labels_of(d@) =~= out@.map_values(|l: DnsLabel| l.bytes()));
                return out;
            }
            assert(rest.subrange(len + 1, rest.len() as int) =~= d@.subrange(
                offset + len + 1,
                d@.len() as int,
            ));
            assert(out@.map_values(|l: DnsLabel| l.bytes()) =~= before.map_values(
                |l: DnsLabel| l.bytes(),
            ).push(rest.subrange(0, len + 1)));
            offset = offset + len + 1;
        }
        assert(d@.subrange(offset as int, d@.len() as int) =~= Seq::<u8>::empty());
        assert(out@.map_values(|l: DnsLabel| l.bytes()) =~= labels_of(d@));
        out
    }

    /// The name as displayed, in bytes: each label rendered in order.
    pub fn display_bytes(&self) -> (r: Vec<u8>)
        requires
            labels_fit(self.bytes()),
        ensures
            r@ == self.spec_display(),
    {
        let labels = self.labels();
        let mut out: Vec<u8> = Vec::new();
        let mut i: usize = 0;
        while i < labels.len()
            invariant
                0 <= i <= labels@.len(),
                labels_fit(self.bytes()),
                labels@.map_values(|l: DnsLabel| l.bytes()) == labels_of(self.bytes()),
                forall|j: int| 0 <= j < labels@.len() ==> #[trigger] labels@[j].wf(),
                out@ == render_all(labels@.map_values(|l: DnsLabel| l.bytes()).subrange(0, i as int)),
            decreases labels@.len() - i,
        {
            let label = &labels[i];
            let ghost lb = label.bytes();
            let ghost before = out@;
            assert(labels@.map_values(|l: DnsLabel| l.bytes())[i as int] == lb);
            proof {
                lemma_label_shape(self.bytes(), i as int);
                super::label::lemma_label_kind(lb);
            }
            if label.is_normal() {
                match label.len() {
                    Some(n) => {
                        if n > 0 {
                            match label.label() {
                                Some(content) => {
                                    append_bytes(&mut out, content);
                                },
                                None => {},
                            }
                            out.push(DOT);
                        }
                    },
                    None => {},
                }
            } else if label.is_compressed() {
                match label.offset() {
                    Some(off) => {
                        out.push(80);
                        out.push(84);
                        out.push(82);
                        out.push(40);
                        push_decimal(&mut out, off as u64);
                        out.push(41);
                    },
                    None => {},
                }
            }
            proof {
                reveal_strlit("PTR(");
                let ls = labels@.map_values(|l: DnsLabel| l.bytes());
                assert(ls.subrange(0, i + 1).drop_last() =~= ls.subrange(0, i as int));
                assert(out@ =~= before + render(lb));
            }
            i = i + 1;
        }
        assert(labels@.map_values(|l: DnsLabel| l.bytes()).subrange(0, labels@.len() as int)
            =~= labels@.map_values(|l: DnsLabel| l.bytes()));
        out
    }

    /// The name as displayed: each normal label followed by a dot, each
    /// compressed label as `PTR(offset)`.
    pub fn to_string(&self) -> (r: String)
        requires
            labels_fit(self.bytes()),
        ensures
            r@ == utf8_text(self.spec_display()),
    {
        let b = self.display_bytes();
        text_from_bytes(b.as_slice())
    }

    /// Whether the display of the name is `s`, or `s` followed by one more
    /// byte (the final dot).
    pub fn eq_str(&self, s: &str) -> (r: bool)
        requires
            labels_fit(self.bytes()),
        ensures
            r == (self.spec_display() == s.spec_bytes() || (self.spec_display().len() > 0
                && self.spec_display().drop_last() == s.spec_bytes())),
    {
        let b = self.display_bytes();
        if bytes_eq(b.as_slice(), s.as_bytes()) {
            return true;
        }
        if b.len() == 0 {
            return false;
        }
        let head = slice_subrange(b.as_slice(), 0, b.len() - 1);
        assert(head@ =~= b@.drop_last());
        bytes_eq(head, s.as_bytes())
    }
}

/// Each label of a name holds its first byte and is of the size that byte
/// announces.
proof fn lemma_label_shape(d: Seq<u8>, i: int)
    requires
        labels_fit(d),
        0 <= i < labels_of(d).len(),
    ensures
        labels_of(d)[i].len() >= 1,
        labels_of(d)[i].len() == label_size(labels_of(d)[i][0]),
    decreases d.len(),
{
    if d.len() > 0 && label_size(d[0]) <= d.len() && d[0] != 0 && i > 0 {
        lemma_label_shape(d.subrange(label_size(d[0]), d.len() as int), i - 1);
    }
}

} // verus!
