//! Bit-field accessors over byte buffers.
//!
//! A field lives in a carrier of `width` bytes (1 to 8) at a fixed offset of a
//! buffer. The carrier is read as an unsigned integer in big-endian (MSB) or
//! little-endian order; the field's value is the carrier masked by `mask` and
//! shifted right by `shift`. Writing a field clears the masked bits of the
//! carrier, ORs in the shifted value and encodes the carrier back in the same
//! byte order, so that bits outside the mask keep their value.
use vstd::arithmetic::div_mod::{lemma_breakdown, lemma_small_mod};
use vstd::prelude::*;

verus! {

/// `256` to the power `n`: one more than the largest carrier of `n` bytes.
pub open spec fn pow256(n: nat) -> nat
    decreases n,
{
    if n == 0 {
        1
    } else {
        256 * pow256((n - 1) as nat)
    }
}

/// The value of bytes read most significant first.
pub open spec fn be_nat(s: Seq<u8>) -> nat
    decreases s.len(),
{
    if s.len() == 0 {
        0
    } else {
        be_nat(s.drop_last()) * 256 + s.last() as nat
    }
}

/// The value of bytes read least significant first.
pub open spec fn le_nat(s: Seq<u8>) -> nat
    decreases s.len(),
{
    if s.len() == 0 {
        0
    } else {
        le_nat(s.drop_first()) * 256 + s[0] as nat
    }
}

/// The low `n` bytes of `v`, most significant first.
pub open spec fn be_bytes(v: nat, n: nat) -> Seq<u8>
    decreases n,
{
    if n == 0 {
        Seq::empty()
    } else {
        be_bytes(v / 256, (n - 1) as nat).push((v % 256) as u8)
    }
}

/// The low `n` bytes of `v`, least significant first.
pub open spec fn le_bytes(v: nat, n: nat) -> Seq<u8>
    decreases n,
{
    if n == 0 {
        Seq::empty()
    } else {
        seq![(v % 256) as u8] + le_bytes(v / 256, (n - 1) as nat)
    }
}

/// The carrier held by `s`, in the given byte order.
pub open spec fn carrier_of(s: Seq<u8>, msb: bool) -> nat {
    if msb {
        be_nat(s)
    } else {
        le_nat(s)
    }
}

/// The `n` bytes that encode the carrier `v`, in the given byte order.
pub open spec fn carrier_bytes(v: nat, n: nat, msb: bool) -> Seq<u8> {
    if msb {
        be_bytes(v, n)
    } else {
        le_bytes(v, n)
    }
}

/// `d` with the bytes from `off` on replaced by `s`.
pub open spec fn splice(d: Seq<u8>, off: int, s: Seq<u8>) -> Seq<u8> {
    d.subrange(0, off) + s + d.subrange(off + s.len(), d.len() as int)
}

/// Where a field sits: the width of its carrier in bytes, the mask of its bits
/// in the carrier, and the shift that brings them down to bit zero.
#[derive(Clone, Copy, Debug)]
pub struct FieldSpec {
    pub width: usize,
    pub mask: u64,
    pub shift: u64,
}

impl FieldSpec {
    /// A carrier of 1 to 8 bytes and a shift below 64.
    pub open spec fn wf(self) -> bool {
        1 <= self.width <= 8 && self.shift < 64
    }

    /// The field's value in the carrier `c`.
    pub open spec fn get_spec(self, c: nat) -> u64 {
        ((c as u64) & self.mask) >> self.shift
    }

    /// The carrier `c` after writing `x` into the field.
    pub open spec fn put_spec(self, c: nat, x: u64) -> u64 {
        ((c as u64) & !self.mask) | (x << self.shift)
    }

    /// `x`, shifted into place, lies within the mask and the carrier.
    pub open spec fn fits(self, x: u64) -> bool {
        &&& (x << self.shift) >> self.shift == x
        &&& (x << self.shift) & !self.mask == 0
        &&& ((x << self.shift) as nat) < pow256(self.width as nat)
    }
}

/// The carrier of field `f` at `off` in `d`.
pub open spec fn carrier_at(d: Seq<u8>, off: int, f: FieldSpec, msb: bool) -> nat {
    carrier_of(d.subrange(off, off + f.width), msb)
}

/// The value of field `f` at `off` in `d`.
pub open spec fn field_at(d: Seq<u8>, off: int, f: FieldSpec, msb: bool) -> u64 {
    f.get_spec(carrier_at(d, off, f, msb))
}

/// `d` after writing `x` into field `f` at `off`.
pub open spec fn put_at(d: Seq<u8>, off: int, f: FieldSpec, msb: bool, x: u64) -> Seq<u8> {
    splice(
        d,
        off,
        carrier_bytes(f.put_spec(carrier_at(d, off, f, msb), x) as nat, f.width as nat, msb),
    )
}

pub proof fn lemma_pow256_pos(n: nat)
    ensures
        pow256(n) > 0,
    decreases n,
{
    if n > 0 {
        lemma_pow256_pos((n - 1) as nat);
    }
}

pub proof fn lemma_pow256_mono(a: nat, b: nat)
    requires
        a <= b,
    ensures
        pow256(a) <= pow256(b),
    decreases b,
{
    if a < b {
        lemma_pow256_mono(a, (b - 1) as nat);
        lemma_pow256_pos((b - 1) as nat);
    }
}

pub proof fn lemma_pow256_8()
    ensures
        pow256(8) == 0x1_0000_0000_0000_0000,
{
    reveal_with_fuel(pow256, 9);
}

pub proof fn lemma_be_nat_bound(s: Seq<u8>)
    ensures
        be_nat(s) < pow256(s.len()),
    decreases s.len(),
{
    if s.len() > 0 {
        lemma_be_nat_bound(s.drop_last());
        assert(be_nat(s.drop_last()) * 256 + s.last() < pow256(s.len())) by (nonlinear_arith)
            requires
                be_nat(s.drop_last()) < pow256((s.len() - 1) as nat),
                pow256(s.len()) == 256 * pow256((s.len() - 1) as nat),
                s.last() < 256,
        ;
    }
}

pub proof fn lemma_le_nat_bound(s: Seq<u8>)
    ensures
        le_nat(s) < pow256(s.len()),
    decreases s.len(),
{
    if s.len() > 0 {
        lemma_le_nat_bound(s.drop_first());
        assert(le_nat(s.drop_first()) * 256 + s[0] < pow256(s.len())) by (nonlinear_arith)
            requires
                le_nat(s.drop_first()) < pow256((s.len() - 1) as nat),
                pow256(s.len()) == 256 * pow256((s.len() - 1) as nat),
                s[0] < 256,
        ;
    }
}

pub proof fn lemma_carrier_bound(s: Seq<u8>, msb: bool)
    ensures
        carrier_of(s, msb) < pow256(s.len()),
{
    lemma_be_nat_bound(s);
    lemma_le_nat_bound(s);
}

/// Decoding the bytes that encode `v` gives `v` reduced to `n` bytes.
pub proof fn lemma_carrier_round_trip(v: nat, n: nat, msb: bool)
    ensures
        carrier_bytes(v, n, msb).len() == n,
        carrier_of(carrier_bytes(v, n, msb), msb) == v % pow256(n),
    decreases n,
{
    if n == 0 {
        assert(v % 1 == 0);
    } else {
        lemma_carrier_round_trip(v / 256, (n - 1) as nat, msb);
        lemma_pow256_pos((n - 1) as nat);
        lemma_breakdown(v as int, 256, pow256((n - 1) as nat) as int);
        if msb {
            assert(be_bytes(v, n).drop_last() =~= be_bytes(v / 256, (n - 1) as nat));
        } else {
            assert(le_bytes(v, n).drop_first() =~= le_bytes(v / 256, (n - 1) as nat));
        }
    }
}

proof fn lemma_bits_put_get(c: u64, m: u64, s: u64, x: u64)
    requires
        s < 64,
        (x << s) >> s == x,
        (x << s) & !m == 0,
    ensures
        ((((c & !m) | (x << s)) & m) >> s) == x,
        ((c & !m) | (x << s)) & !m == c & !m,
        ((c & !m) | (x << s)) & m == x << s,
{
    assert(((((c & !m) | (x << s)) & m) >> s) == x && ((c & !m) | (x << s)) & !m == c & !m && ((c
        & !m) | (x << s)) & m == x << s)
        by (bit_vector)
        requires
            s < 64,
            (x << s) >> s == x,
            (x << s) & !m == 0,
    ;
}

proof fn lemma_or_below_shift(a: u64, b: u64, k: u64)
    requires
        k < 64,
        a < (1u64 << k),
        b < (1u64 << k),
    ensures
        (a | b) < (1u64 << k),
        (a & !b) <= a,
{
    assert((a | b) < (1u64 << k) && (a & !b) <= a) by (bit_vector)
        requires
            k < 64,
            a < (1u64 << k),
            b < (1u64 << k),
    ;
}

proof fn lemma_and_le(a: u64, b: u64)
    ensures
        (a & b) <= a,
{
    assert((a & b) <= a) by (bit_vector);
}

proof fn lemma_pow256_shift(n: nat)
    requires
        1 <= n < 8,
    ensures
        pow256(n) == (1u64 << ((8 * n) as u64)) as nat,
{
    reveal_with_fuel(pow256, 8);
    if n == 1 {
        assert((1u64 << 8u64) == 0x100u64) by (bit_vector);
    } else if n == 2 {
        assert((1u64 << 16u64) == 0x1_0000u64) by (bit_vector);
    } else if n == 3 {
        assert((1u64 << 24u64) == 0x100_0000u64) by (bit_vector);
    } else if n == 4 {
        assert((1u64 << 32u64) == 0x1_0000_0000u64) by (bit_vector);
    } else if n == 5 {
        assert((1u64 << 40u64) == 0x100_0000_0000u64) by (bit_vector);
    } else if n == 6 {
        assert((1u64 << 48u64) == 0x1_0000_0000_0000u64) by (bit_vector);
    } else {
        assert((1u64 << 56u64) == 0x100_0000_0000_0000u64) by (bit_vector);
    }
}

/// Writing `x` into a carrier that holds `n` bytes keeps it within `n` bytes.
proof fn lemma_put_bound(f: FieldSpec, c: nat, x: u64)
    requires
        f.wf(),
        f.fits(x),
        c < pow256(f.width as nat),
    ensures
        (f.put_spec(c, x) as nat) < pow256(f.width as nat),
{
    let n = f.width as nat;
    lemma_pow256_mono(n, 8);
    lemma_pow256_8();
    if n < 8 {
        lemma_pow256_shift(n);
        let k = (8 * n) as u64;
        lemma_and_le(c as u64, !f.mask);
        lemma_or_below_shift((c as u64) & !f.mask, x << f.shift, k);
    }
}

/// Setting a field and reading it back gives the value that was set: the
/// carrier's bits under the mask hold the value shifted into place, its bits
/// outside the mask keep their value, and no byte outside the carrier
/// changes.
pub proof fn lemma_set_then_get(d: Seq<u8>, off: int, f: FieldSpec, msb: bool, x: u64)
    requires
        f.wf(),
        f.fits(x),
        0 <= off,
        off + f.width <= d.len(),
    ensures
        put_at(d, off, f, msb, x).len() == d.len(),
        field_at(put_at(d, off, f, msb, x), off, f, msb) == x,
        (carrier_at(put_at(d, off, f, msb, x), off, f, msb) as u64) & !f.mask == (carrier_at(
            d,
            off,
            f,
            msb,
        ) as u64) & !f.mask,
        (carrier_at(put_at(d, off, f, msb, x), off, f, msb) as u64) & f.mask == x << f.shift,
        forall|i: int|
            0 <= i < d.len() && !(off <= i < off + f.width) ==> #[trigger] put_at(
                d,
                off,
                f,
                msb,
                x,
            )[i] == d[i],
{
    let n = f.width as nat;
    let c = carrier_at(d, off, f, msb);
    lemma_carrier_bound(d.subrange(off, off + f.width), msb);
    lemma_put_bound(f, c, x);
    let v = f.put_spec(c, x) as nat;
    lemma_carrier_round_trip(v, n, msb);
    lemma_small_mod(v, pow256(n));
    let d2 = put_at(d, off, f, msb, x);
    assert(d2.subrange(off, off + f.width) =~= carrier_bytes(v, n, msb));
    lemma_pow256_mono(n, 8);
    lemma_pow256_8();
    lemma_bits_put_get(c as u64, f.mask, f.shift, x);
}

/// A plain field of `width` bytes: all bits, no shift.
pub open spec fn plain(width: usize) -> FieldSpec {
    FieldSpec { width: width, mask: u64::MAX, shift: 0 }
}

/// `n` zero bytes.
pub open spec fn zero_seq(n: nat) -> Seq<u8> {
    Seq::new(n, |i: int| 0u8)
}

/// Writing a field leaves a field elsewhere in the buffer as it was.
pub proof fn lemma_put_frame(
    d: Seq<u8>,
    off1: int,
    f1: FieldSpec,
    off2: int,
    f2: FieldSpec,
    msb: bool,
    x: u64,
)
    requires
        f1.wf(),
        f2.wf(),
        0 <= off1,
        0 <= off2,
        off1 + f1.width <= d.len(),
        off2 + f2.width <= d.len(),
        off1 + f1.width <= off2 || off2 + f2.width <= off1,
    ensures
        put_at(d, off2, f2, msb, x).len() == d.len(),
        field_at(put_at(d, off2, f2, msb, x), off1, f1, msb) == field_at(d, off1, f1, msb),
        carrier_at(put_at(d, off2, f2, msb, x), off1, f1, msb) == carrier_at(d, off1, f1, msb),
{
    let c = carrier_at(d, off2, f2, msb);
    let v = f2.put_spec(c, x) as nat;
    lemma_carrier_round_trip(v, f2.width as nat, msb);
    let d2 = put_at(d, off2, f2, msb, x);
    assert(d2.subrange(off1, off1 + f1.width) =~= d.subrange(off1, off1 + f1.width));
}

/// Writing a field leaves a field in the same carrier, under a disjoint
/// mask, as it was.
pub proof fn lemma_put_same_carrier(d: Seq<u8>, off: int, f1: FieldSpec, f2: FieldSpec, msb: bool, x: u64)
    requires
        f1.wf(),
        f2.wf(),
        f1.width == f2.width,
        f1.mask & f2.mask == 0,
        f2.fits(x),
        0 <= off,
        off + f1.width <= d.len(),
    ensures
        put_at(d, off, f2, msb, x).len() == d.len(),
        field_at(put_at(d, off, f2, msb, x), off, f1, msb) == field_at(d, off, f1, msb),
{
    lemma_set_then_get(d, off, f2, msb, x);
    let c = carrier_at(d, off, f2, msb) as u64;
    let c2 = carrier_at(put_at(d, off, f2, msb, x), off, f2, msb) as u64;
    let m1 = f1.mask;
    let m2 = f2.mask;
    assert((c2 & m1) == (c & m1)) by (bit_vector)
        requires
            c2 & !m2 == c & !m2,
            m1 & m2 == 0,
    ;
}

/// Writing a field leaves every byte outside its carrier as it was.
pub proof fn lemma_put_outside(d: Seq<u8>, off: int, f: FieldSpec, msb: bool, x: u64)
    requires
        f.wf(),
        0 <= off,
        off + f.width <= d.len(),
    ensures
        put_at(d, off, f, msb, x).len() == d.len(),
        forall|i: int|
            0 <= i < d.len() && !(off <= i < off + f.width) ==> #[trigger] put_at(
                d,
                off,
                f,
                msb,
                x,
            )[i] == d[i],
{
    lemma_carrier_round_trip(f.put_spec(carrier_at(d, off, f, msb), x) as nat, f.width as nat, msb);
}

/// Writing a field keeps the buffer's length.
pub proof fn lemma_put_len(d: Seq<u8>, off: int, f: FieldSpec, msb: bool, x: u64)
    requires
        f.wf(),
        0 <= off,
        off + f.width <= d.len(),
    ensures
        put_at(d, off, f, msb, x).len() == d.len(),
{
    lemma_carrier_round_trip(f.put_spec(carrier_at(d, off, f, msb), x) as nat, f.width as nat, msb);
}

/// Replacing bytes elsewhere in the buffer leaves a field as it was.
pub proof fn lemma_splice_frame(d: Seq<u8>, off1: int, f1: FieldSpec, off2: int, s: Seq<u8>, msb: bool)
    requires
        f1.wf(),
        0 <= off1,
        off1 + f1.width <= off2,
        off2 + s.len() <= d.len(),
    ensures
        splice(d, off2, s).len() == d.len(),
        field_at(splice(d, off2, s), off1, f1, msb) == field_at(d, off1, f1, msb),
{
    assert(splice(d, off2, s).subrange(off1, off1 + f1.width) =~= d.subrange(off1, off1 + f1.width));
}

/// `256` to the powers 1, 2 and 4.
pub proof fn lemma_pow256_small()
    ensures
        pow256(1) == 0x100,
        pow256(2) == 0x1_0000,
        pow256(4) == 0x1_0000_0000,
{
    reveal_with_fuel(pow256, 5);
}

/// A value below `256` to the power `w` fits a plain field of `w` bytes.
pub proof fn lemma_plain_fits(x: u64, w: usize)
    requires
        1 <= w <= 8,
        (x as nat) < pow256(w as nat),
    ensures
        plain(w).fits(x),
{
    assert((x << 0u64) >> 0u64 == x && (x << 0u64) & !u64::MAX == 0 && (x << 0u64) == x) by (bit_vector);
}

/// Reads `n` bytes of `d` at `off` most significant first.
fn read_be(d: &[u8], off: usize, n: usize) -> (r: u64)
    requires
        n <= 8,
        off + n <= d@.len(),
    ensures
        r as nat == be_nat(d@.subrange(off as int, off + n)),
    decreases n,
{
    let _len = d.len();
    if n == 0 {
        0
    } else {
        let hi = read_be(d, off, n - 1);
        let ghost s = d@.subrange(off as int, off + n);
        assert(s.drop_last() =~= d@.subrange(off as int, off + n - 1));
        proof {
            lemma_be_nat_bound(s);
            lemma_pow256_mono(n as nat, 8);
            lemma_pow256_8();
        }
        hi * 256 + d[off + n - 1] as u64
    }
}

/// Reads `n` bytes of `d` at `off` least significant first.
fn read_le(d: &[u8], off: usize, n: usize) -> (r: u64)
    requires
        n <= 8,
        off + n <= d@.len(),
    ensures
        r as nat == le_nat(d@.subrange(off as int, off + n)),
    decreases n,
{
    let _len = d.len();
    if n == 0 {
        0
    } else {
        let hi = read_le(d, off + 1, n - 1);
        let ghost s = d@.subrange(off as int, off + n);
        assert(s.drop_first() =~= d@.subrange(off + 1, off + n));
        proof {
            lemma_le_nat_bound(s);
            lemma_pow256_mono(n as nat, 8);
            lemma_pow256_8();
        }
        hi * 256 + d[off] as u64
    }
}

/// Reads the carrier of `n` bytes at `off` in the given byte order.
pub fn read_carrier(d: &[u8], off: usize, n: usize, msb: bool) -> (r: u64)
    requires
        n <= 8,
        off + n <= d@.len(),
    ensures
        r as nat == carrier_of(d@.subrange(off as int, off + n), msb),
{
    if msb {
        read_be(d, off, n)
    } else {
        read_le(d, off, n)
    }
}

fn encode_be(v: u64, n: usize) -> (r: Vec<u8>)
    ensures
        r@ == be_bytes(v as nat, n as nat),
    decreases n,
{
    if n == 0 {
        Vec::new()
    } else {
        let mut r = encode_be(v / 256, n - 1);
        r.push((v % 256) as u8);
        r
    }
}

fn encode_le(v: u64, n: usize) -> (r: Vec<u8>)
    ensures
        r@ == le_bytes(v as nat, n as nat),
    decreases n,
{
    if n == 0 {
        Vec::new()
    } else {
        let mut r = encode_le(v / 256, n - 1);
        r.insert(0, (v % 256) as u8);
        assert(r@ =~= seq![(v % 256) as u8] + le_bytes((v / 256) as nat, (n - 1) as nat));
        r
    }
}

/// Encodes the low `n` bytes of `v` in the given byte order.
pub fn encode_carrier(v: u64, n: usize, msb: bool) -> (r: Vec<u8>)
    ensures
        r@ == carrier_bytes(v as nat, n as nat, msb),
{
    if msb {
        encode_be(v, n)
    } else {
        encode_le(v, n)
    }
}

/// Copies `s` into `d` at `off`.
pub fn copy_into(d: &mut Vec<u8>, off: usize, s: &[u8])
    requires
        off + s@.len() <= old(d)@.len(),
    ensures
        final(d)@ == splice(old(d)@, off as int, s@),
        final(d)@.len() == old(d)@.len(),
{
    let _len = d.len();
    let mut i: usize = 0;
    while i < s.len()
        invariant
            0 <= i <= s@.len(),
            off + s@.len() <= d@.len(),
            d@.len() == old(d)@.len(),
            d@.len() == _len,
            forall|j: int|
                0 <= j < d@.len() ==> #[trigger] d@[j] == if off <= j < off + i {
                    s@[j - off]
                } else {
                    old(d)@[j]
                },
        decreases s@.len() - i,
    {
        d.set(off + i, s[i]);
        i = i + 1;
    }
    assert(d@ =~= splice(old(d)@, off as int, s@));
}

/// Reads field `f` at `off` of `d`.
pub fn read_field(d: &[u8], off: usize, f: FieldSpec, msb: bool) -> (r: u64)
    requires
        f.wf(),
        off + f.width <= d@.len(),
    ensures
        r == field_at(d@, off as int, f, msb),
{
    let c = read_carrier(d, off, f.width, msb);
    if f.mask == u64::MAX && f.shift == 0 {
        assert(c & u64::MAX == c) by (bit_vector);
        assert(c >> 0u64 == c) by (bit_vector);
        c
    } else {
        (c & f.mask) >> f.shift
    }
}

/// Writes `x` into field `f` at `off` of `d`, keeping the carrier's other bits.
pub fn write_field(d: &mut Vec<u8>, off: usize, f: FieldSpec, msb: bool, x: u64)
    requires
        f.wf(),
        off + f.width <= old(d)@.len(),
    ensures
        final(d)@ == put_at(old(d)@, off as int, f, msb, x),
        final(d)@.len() == old(d)@.len(),
{
    let c = read_carrier(d.as_slice(), off, f.width, msb);
    let v = (c & !f.mask) | (x << f.shift);
    let bytes = encode_carrier(v, f.width, msb);
    proof {
        lemma_carrier_round_trip(v as nat, f.width as nat, msb);
    }
    copy_into(d, off, bytes.as_slice());
}

/// Reads `n` bytes at `off` of `d` as a big-endian integer.
pub fn read_be_at(d: &[u8], off: usize, n: usize) -> (r: u64)
    requires
        n <= 8,
        off + n <= d@.len(),
    ensures
        r as nat == be_nat(d@.subrange(off as int, off + n)),
{
    read_be(d, off, n)
}

/// Writes the low `n` bytes of `x` at `off` of `d`, most significant first.
pub fn write_be_at(d: &mut Vec<u8>, off: usize, n: usize, x: u64)
    requires
        off + n <= old(d)@.len(),
    ensures
        final(d)@ == splice(old(d)@, off as int, be_bytes(x as nat, n as nat)),
        final(d)@.len() == old(d)@.len(),
{
    let bytes = encode_be(x, n);
    proof {
        lemma_carrier_round_trip(x as nat, n as nat, true);
    }
    copy_into(d, off, bytes.as_slice());
}

/// Appends the bytes of `s` to `d`.
pub fn append_bytes(d: &mut Vec<u8>, s: &[u8])
    ensures
        final(d)@ == old(d)@ + s@,
{
    let mut i: usize = 0;
    while i < s.len()
        invariant
            0 <= i <= s@.len(),
            d@ == old(d)@ + s@.subrange(0, i as int),
        decreases s@.len() - i,
    {
        d.push(s[i]);
        i = i + 1;
        assert(d@ =~= old(d)@ + s@.subrange(0, i as int));
    }
    assert(s@.subrange(0, s@.len() as int) =~= s@);
}

/// `n` zero bytes.
pub fn zeros(n: usize) -> (r: Vec<u8>)
    ensures
        r@ == Seq::new(n as nat, |i: int| 0u8),
{
    let mut r: Vec<u8> = Vec::new();
    let mut i: usize = 0;
    while i < n
        invariant
            0 <= i <= n,
            r@ =~= Seq::new(i as nat, |j: int| 0u8),
        decreases n - i,
    {
        r.push(0);
        i = i + 1;
    }
    r
}

/// A field read out of a buffer: its carrier's bytes, in memory order, with
/// the field's position and byte order.
#[derive(Clone, Debug)]
pub struct Field {
    spec: FieldSpec,
    msb: bool,
    value: Vec<u8>,
}

impl Field {
    pub closed spec fn spec(&self) -> FieldSpec {
        self.spec
    }

    pub closed spec fn msb(&self) -> bool {
        self.msb
    }

    /// The carrier's bytes in memory order.
    pub closed spec fn bytes(&self) -> Seq<u8> {
        self.value@
    }

    pub open spec fn wf(&self) -> bool {
        self.spec().wf() && self.bytes().len() == self.spec().width
    }

    /// The field's value.
    pub open spec fn value(&self) -> u64 {
        field_at(self.bytes(), 0, self.spec(), self.msb())
    }

    /// A field over the carrier bytes `value`.
    pub fn new(spec: FieldSpec, msb: bool, value: Vec<u8>) -> (r: Field)
        requires
            spec.wf(),
            value@.len() == spec.width,
        ensures
            r.wf(),
            r.spec() == spec,
            r.msb() == msb,
            r.bytes() == value@,
    {
        Field { spec, msb, value }
    }

    /// The carrier's bytes, without any conversion.
    pub fn into_inner(self) -> (r: Vec<u8>)
        ensures
            r@ == self.bytes(),
    {
        self.value
    }

    /// The field's bits, masked and shifted down.
    pub fn raw(&self) -> (r: u64)
        requires
            self.wf(),
        ensures
            r == self.value(),
    {
        read_field(self.value.as_slice(), 0, self.spec, self.msb)
    }

    /// The field's value.
    pub fn get(&self) -> (r: u64)
        requires
            self.wf(),
        ensures
            r == self.value(),
    {
        self.raw()
    }

    /// Writes `x` into the field, keeping the carrier's bits outside the mask.
    pub fn set(&mut self, x: u64)
        requires
            old(self).wf(),
        ensures
            final(self).wf(),
            final(self).spec() == old(self).spec(),
            final(self).msb() == old(self).msb(),
            final(self).bytes() == put_at(
                old(self).bytes(),
                0,
                old(self).spec(),
                old(self).msb(),
                x,
            ),
    {
        write_field(&mut self.value, 0, self.spec, self.msb, x);
        proof {
            let c = carrier_at(old(self).bytes(), 0, self.spec, self.msb);
            lemma_carrier_round_trip(self.spec.put_spec(c, x) as nat, self.spec.width as nat, self.msb);
        }
    }

    /// Whether the field holds `x`.
    pub fn eq_value(&self, x: u64) -> (r: bool)
        requires
            self.wf(),
        ensures
            r == (self.value() == x),
    {
        self.get() == x
    }
}

/// A field set to `x` reads back `x`: the carrier's bits under its mask hold
/// `x` shifted into place, and its bits outside the mask are those it had
/// before.
pub proof fn lemma_field_set_get(before: Field, after: Field, x: u64)
    requires
        before.wf(),
        before.spec().fits(x),
        after.spec() == before.spec(),
        after.msb() == before.msb(),
        after.bytes() == put_at(before.bytes(), 0, before.spec(), before.msb(), x),
    ensures
        after.wf(),
        after.value() == x,
        (carrier_of(after.bytes(), after.msb()) as u64) & !after.spec().mask == (carrier_of(
            before.bytes(),
            before.msb(),
        ) as u64) & !before.spec().mask,
        (carrier_of(after.bytes(), after.msb()) as u64) & after.spec().mask == x
            << after.spec().shift,
{
    lemma_set_then_get(before.bytes(), 0, before.spec(), before.msb(), x);
    assert(after.bytes().subrange(0, after.spec().width as int) =~= after.bytes());
    assert(before.bytes().subrange(0, before.spec().width as int) =~= before.bytes());
}

} // verus!
