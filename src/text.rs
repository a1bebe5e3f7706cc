//! Byte and text helpers.
use vstd::prelude::*;
use vstd::string::StringSliceAdditionalSpecFns;

verus! {

/// Every byte is ASCII.
pub open spec fn is_ascii_bytes(b: Seq<u8>) -> bool {
    forall|i: int| 0 <= i < b.len() ==> b[i] < 128
}

/// The characters of ASCII bytes.
pub open spec fn ascii_chars(b: Seq<u8>) -> Seq<char> {
    b.map_values(|c: u8| c as char)
}

/// The text that bytes decode to as UTF-8, invalid sequences replaced.
pub uninterp spec fn utf8_text(b: Seq<u8>) -> Seq<char>;

/// Relies on `String::from_utf8_lossy`: the text decoded from the bytes,
/// which for ASCII bytes has one character per byte.
#[verifier::external_body]
pub fn text_from_bytes(b: &[u8]) -> (r: String)
    ensures
        r@ == utf8_text(b@),
        is_ascii_bytes(b@) ==> r@ == ascii_chars(b@),
{
    String::from_utf8_lossy(b).into_owned()
}

/// The decimal digits of `n`, most significant first, without leading zeros.
pub open spec fn decimal(n: nat) -> Seq<u8>
    decreases n,
{
    if n < 10 {
        seq![(48 + n) as u8]
    } else {
        decimal(n / 10).push((48 + n % 10) as u8)
    }
}

/// Appends the decimal digits of `n` to `out`.
pub fn push_decimal(out: &mut Vec<u8>, n: u64)
    ensures
        final(out)@ == old(out)@ + decimal(n as nat),
    decreases n,
{
    if n >= 10 {
        push_decimal(out, n / 10);
    }
    out.push((48 + n % 10) as u8);
    assert(out@ =~= old(out)@ + decimal(n as nat));
}

/// Whether two byte slices hold the same bytes.
pub fn bytes_eq(a: &[u8], b: &[u8]) -> (r: bool)
    ensures
        r == (a@ == b@),
{
    if a.len() != b.len() {
        return false;
    }
    let mut i: usize = 0;
    while i < a.len()
        invariant
            a@.len() == b@.len(),
            0 <= i <= a@.len(),
            forall|j: int| 0 <= j < i ==> a@[j] == b@[j],
        decreases a@.len() - i,
    {
        if a[i] != b[i] {
            return false;
        }
        i = i + 1;
    }
    assert(a@ =~= b@);
    true
}

/// The byte `:`.
pub const COLON: u8 = 58;

/// The value of a hexadecimal digit, if `c` is one.
pub open spec fn hex_digit(c: u8) -> Option<nat> {
    if 48 <= c <= 57 {
        Some((c - 48) as nat)
    } else if 97 <= c <= 102 {
        Some((c - 87) as nat)
    } else if 65 <= c <= 70 {
        Some((c - 55) as nat)
    } else {
        None
    }
}

/// Every byte of `s` is a hexadecimal digit.
pub open spec fn all_hex(s: Seq<u8>) -> bool {
    forall|i: int| 0 <= i < s.len() ==> (#[trigger] hex_digit(s[i])) is Some
}

/// The value of hexadecimal digits, most significant first.
pub open spec fn hex_value(s: Seq<u8>) -> nat
    decreases s.len(),
{
    if s.len() == 0 {
        0
    } else {
        hex_value(s.drop_last()) * 16 + hex_digit(s.last()).unwrap_or(0)
    }
}

/// A byte written in hexadecimal: an optional `+`, then one or more digits
/// whose value is below 256.
pub open spec fn parse_hex_byte(s: Seq<u8>) -> Option<u8> {
    let digits = if s.len() > 1 && s[0] == 43 {
        s.drop_first()
    } else {
        s
    };
    if digits.len() == 0 || !all_hex(digits) || hex_value(digits) > 255 {
        None
    } else {
        Some(hex_value(digits) as u8)
    }
}

/// The parts of `s` between colons, where `cur` is the part of the current
/// one that comes before `s`.
pub open spec fn split_colon_from(s: Seq<u8>, cur: Seq<u8>) -> Seq<Seq<u8>>
    decreases s.len(),
{
    if s.len() == 0 {
        seq![cur]
    } else if s[0] == COLON {
        seq![cur] + split_colon_from(s.drop_first(), Seq::empty())
    } else {
        split_colon_from(s.drop_first(), cur.push(s[0]))
    }
}

/// The parts of `s` between colons.
pub open spec fn split_colon(s: Seq<u8>) -> Seq<Seq<u8>> {
    split_colon_from(s, Seq::empty())
}

/// Every part is a hexadecimal byte.
pub open spec fn all_hex_bytes(parts: Seq<Seq<u8>>) -> bool {
    forall|i: int| 0 <= i < parts.len() ==> (#[trigger] parse_hex_byte(parts[i])) is Some
}

/// The bytes that the parts hold, where each is a hexadecimal byte.
pub open spec fn hex_bytes(parts: Seq<Seq<u8>>) -> Seq<u8> {
    parts.map_values(|p: Seq<u8>| parse_hex_byte(p).unwrap_or(0))
}

fn hex_digit_exec(c: u8) -> (r: Option<u64>)
    ensures
        r matches Some(v) ==> hex_digit(c) == Some(v as nat),
        r is None ==> hex_digit(c) is None,
{
    if 48 <= c && c <= 57 {
        Some((c - 48) as u64)
    } else if 97 <= c && c <= 102 {
        Some((c - 87) as u64)
    } else if 65 <= c && c <= 70 {
        Some((c - 55) as u64)
    } else {
        None
    }
}

/// Parses a byte written in hexadecimal: an optional `+`, then one or more
/// digits whose value is below 256.
pub fn parse_hex_u8(s: &[u8]) -> (r: Option<u8>)
    ensures
        r == parse_hex_byte(s@),
{
    let start: usize = if s.len() > 1 && s[0] == 43 { 1 } else { 0 };
    let ghost digits = s@.subrange(start as int, s@.len() as int);
    proof {
        if start == 1 {
            assert(digits =~= s@.drop_first());
        } else {
            assert(digits =~= s@);
        }
    }
    if start == s.len() {
        return None;
    }
    let mut acc: u64 = 0;
    let mut i: usize = start;
    while i < s.len()
        invariant
            start <= i <= s@.len(),
            digits == s@.subrange(start as int, s@.len() as int),
            digits == (if s@.len() > 1 && s@[0] == 43 {
                s@.drop_first()
            } else {
                s@
            }),
            all_hex(s@.subrange(start as int, i as int)),
            acc as nat == if hex_value(s@.subrange(start as int, i as int)) > 255 {
                256
            } else {
                hex_value(s@.subrange(start as int, i as int))
            },
        decreases s@.len() - i,
    {
        let ghost pre = s@.subrange(start as int, i as int);
        let ghost next = s@.subrange(start as int, i + 1);
        assert(next.drop_last() =~= pre);
        match hex_digit_exec(s[i]) {
            Some(d) => {
                proof {
                    let v = hex_value(pre);
                    assert(hex_value(next) == v * 16 + d);
                    if v > 255 {
                        assert(v * 16 + d > 255) by (nonlinear_arith)
                            requires
                                v > 255,
                        ;
                    }
                    assert forall|j: int| 0 <= j < next.len() implies (#[trigger] hex_digit(
                        next[j],
                    )) is Some by {
                        if j < pre.len() {
                            assert(next[j] == pre[j]);
                        }
                    }
                }
                let n = acc * 16 + d;
                acc = if n > 255 { 256 } else { n };
            },
            None => {
                proof {
                    assert(digits[i - start] == s@[i as int]);
                    assert(hex_digit(digits[i - start]) is None);
                    assert(!all_hex(digits));
                }
                return None;
            },
        }
        i = i + 1;
    }
    assert(s@.subrange(start as int, s@.len() as int) =~= digits);
    if acc > 255 {
        None
    } else {
        Some(acc as u8)
    }
}

/// Splits `s` at each colon.
pub fn split_colons(s: &[u8]) -> (r: Vec<Vec<u8>>)
    ensures
        r@.map_values(|p: Vec<u8>| p@) == split_colon(s@),
{
    let mut out: Vec<Vec<u8>> = Vec::new();
    let mut cur: Vec<u8> = Vec::new();
    let mut i: usize = 0;
    assert(s@.subrange(0, s@.len() as int) =~= s@);
    assert(out@.map_values(|p: Vec<u8>| p@) + split_colon_from(s@, cur@) =~= split_colon(s@));
    while i < s.len()
        invariant
            0 <= i <= s@.len(),
            out@.map_values(|p: Vec<u8>| p@) + split_colon_from(
                s@.subrange(i as int, s@.len() as int),
                cur@,
            ) == split_colon(s@),
        decreases s@.len() - i,
    {
        let ghost rest = s@.subrange(i as int, s@.len() as int);
        assert(rest.drop_first() =~= s@.subrange(i + 1, s@.len() as int));
        if s[i] == COLON {
            let ghost before = out@;
            let part = cur;
            out.push(part);
            cur = Vec::new();
            assert(out@.map_values(|p: Vec<u8>| p@) =~= before.map_values(|p: Vec<u8>| p@).push(
                part@,
            ));
        } else {
            cur.push(s[i]);
        }
        i = i + 1;
    }
    assert(s@.subrange(s@.len() as int, s@.len() as int) =~= Seq::<u8>::empty());
    let ghost before = out@;
    let last = cur;
    out.push(last);
    assert(out@.map_values(|p: Vec<u8>| p@) =~= before.map_values(|p: Vec<u8>| p@).push(last@));
    out
}

/// Parses each part as a hexadecimal byte, if every one is.
pub fn parse_hex_parts(parts: &Vec<Vec<u8>>) -> (r: Option<Vec<u8>>)
    ensures
        r is Some <==> all_hex_bytes(parts@.map_values(|p: Vec<u8>| p@)),
        r matches Some(b) ==> b@ == hex_bytes(parts@.map_values(|p: Vec<u8>| p@)),
{
    let ghost ps = parts@.map_values(|p: Vec<u8>| p@);
    let mut out: Vec<u8> = Vec::new();
    let mut i: usize = 0;
    while i < parts.len()
        invariant
            0 <= i <= parts@.len(),
            ps == parts@.map_values(|p: Vec<u8>| p@),
            out@.len() == i,
            forall|j: int| 0 <= j < i ==> (#[trigger] parse_hex_byte(ps[j])) is Some,
            forall|j: int| 0 <= j < i ==> #[trigger] out@[j] == parse_hex_byte(ps[j]).unwrap_or(0),
        decreases parts@.len() - i,
    {
        match parse_hex_u8(parts[i].as_slice()) {
            Some(b) => {
                out.push(b);
            },
            None => {
                assert(parse_hex_byte(ps[i as int]) is None);
                return None;
            },
        }
        i = i + 1;
    }
    assert(out@ =~= hex_bytes(ps));
    Some(out)
}

/// The hexadecimal digit of `n` (below 16), in upper or lower case.
pub open spec fn hex_char(n: nat, upper: bool) -> u8 {
    if n < 10 {
        (48 + n) as u8
    } else if upper {
        (55 + n) as u8
    } else {
        (87 + n) as u8
    }
}

/// The octets written as two hexadecimal digits each, joined by colons.
pub open spec fn colon_hex(o: Seq<u8>, upper: bool) -> Seq<u8>
    decreases o.len(),
{
    if o.len() == 0 {
        Seq::empty()
    } else if o.len() == 1 {
        seq![hex_char(o[0] as nat / 16, upper), hex_char(o[0] as nat % 16, upper)]
    } else {
        colon_hex(o.drop_last(), upper) + seq![
            COLON,
            hex_char(o.last() as nat / 16, upper),
            hex_char(o.last() as nat % 16, upper),
        ]
    }
}

fn hex_char_exec(n: u8, upper: bool) -> (r: u8)
    requires
        n < 16,
    ensures
        r == hex_char(n as nat, upper),
{
    if n < 10 {
        48 + n
    } else if upper {
        55 + n
    } else {
        87 + n
    }
}

/// Writes the octets as two hexadecimal digits each, joined by colons.
pub fn write_colon_hex(o: &[u8], upper: bool) -> (r: Vec<u8>)
    ensures
        r@ == colon_hex(o@, upper),
{
    let mut out: Vec<u8> = Vec::new();
    let mut i: usize = 0;
    assert(o@.subrange(0, 0) =~= Seq::<u8>::empty());
    while i < o.len()
        invariant
            0 <= i <= o@.len(),
            out@ == colon_hex(o@.subrange(0, i as int), upper),
        decreases o@.len() - i,
    {
        let ghost pre = o@.subrange(0, i as int);
        let ghost next = o@.subrange(0, i + 1);
        assert(next.drop_last() =~= pre);
        if i > 0 {
            out.push(COLON);
        }
        out.push(hex_char_exec(o[i] / 16, upper));
        out.push(hex_char_exec(o[i] % 16, upper));
        assert(out@ =~= colon_hex(next, upper));
        i = i + 1;
    }
    assert(o@.subrange(0, o@.len() as int) =~= o@);
    out
}

/// Appends the UTF-8 bytes of `s` to `out`.
pub fn push_str(out: &mut Vec<u8>, s: &str)
    ensures
        final(out)@ == old(out)@ + s.spec_bytes(),
{
    crate::field::append_bytes(out, s.as_bytes());
}

} // verus!
