//! UTF-16 encoding and decoding of character sequences, used for the
//! fixed-capacity wide-character face-name buffer of the native record.
//!
//! [`encode_utf16`] gives the unit sequence of a character sequence; a
//! character below `0x10000` is one unit, any other is a surrogate pair.
//! [`decode_utf16`] is total on unit sequences: a well-formed pair combines
//! back into its character, an unpaired surrogate decodes to the replacement
//! character.  [`lemma_utf16_round_trip`] states that decoding inverts
//! encoding.

use vstd::prelude::*;

use vstd::arithmetic::div_mod::lemma_fundamental_div_mod;
use vstd::utf8::{char_is_scalar, char_u32_cast};

verus! {

/// The Unicode replacement character, standing in for an unpaired surrogate
/// unit on decode.
pub const REPLACEMENT: char = '\u{FFFD}';

/// Whether `w` is a high (leading) surrogate unit.
pub open spec fn is_high_surrogate(w: u16) -> bool {
    0xD800 <= w <= 0xDBFF
}

/// Whether `w` is a low (trailing) surrogate unit.
pub open spec fn is_low_surrogate(w: u16) -> bool {
    0xDC00 <= w <= 0xDFFF
}

/// The UTF-16 unit sequence of one character.
pub open spec fn char_utf16(c: char) -> Seq<u16> {
    let v = c as u32;
    if v < 0x10000 {
        seq![v as u16]
    } else {
        seq![
            (0xD800 + (v - 0x10000) / 0x400) as u16,
            (0xDC00 + (v - 0x10000) % 0x400) as u16,
        ]
    }
}

/// The UTF-16 unit sequence of a character sequence.
pub open spec fn encode_utf16(s: Seq<char>) -> Seq<u16>
    decreases s.len(),
{
    if s.len() == 0 {
        Seq::empty()
    } else {
        char_utf16(s[0]) + encode_utf16(s.drop_first())
    }
}

/// The character a well-formed surrogate pair combines into.
pub open spec fn surrogate_pair_char(hi: u16, lo: u16) -> char {
    ((0x10000 + (hi - 0xD800) * 0x400 + (lo - 0xDC00)) as u32) as char
}

/// The character sequence read from a UTF-16 unit sequence.  A well-formed
/// surrogate pair combines into one character; an unpaired surrogate unit
/// decodes to [`REPLACEMENT`]; any other unit is a character of its own.
pub open spec fn decode_utf16(u: Seq<u16>) -> Seq<char>
    decreases u.len(),
{
    if u.len() == 0 {
        Seq::empty()
    } else if is_high_surrogate(u[0]) && u.len() >= 2 && is_low_surrogate(u[1]) {
        seq![surrogate_pair_char(u[0], u[1])] + decode_utf16(u.skip(2))
    } else if is_high_surrogate(u[0]) || is_low_surrogate(u[0]) {
        seq![REPLACEMENT] + decode_utf16(u.skip(1))
    } else {
        seq![(u[0] as u32) as char] + decode_utf16(u.skip(1))
    }
}

/// Decoding steps over the units of one character: the units of `c` followed
/// by any remainder decode to `c` followed by the decoding of the remainder.
pub proof fn lemma_decode_one(c: char, rest: Seq<u16>)
    ensures
        decode_utf16(char_utf16(c) + rest) == seq![c] + decode_utf16(rest),
{
    char_is_scalar(c);
    let v = c as u32;
    let u = char_utf16(c) + rest;
    if v < 0x10000 {
        let w = (v as u16);
        assert(u[0] == w);
        assert(w as u32 == v);
        assert(!is_high_surrogate(w) && !is_low_surrogate(w));
        char_u32_cast(c, v);
        assert(u.skip(1) =~= rest);
        assert(decode_utf16(u) =~= seq![c] + decode_utf16(rest));
    } else {
        let d = (v - 0x10000) as int;
        assert(0 <= d <= 0xFFFFF);
        let q = d / 0x400;
        let r = d % 0x400;
        lemma_fundamental_div_mod(d, 0x400);
        assert(0 <= r < 0x400);
        assert(0 <= q <= 0x3FF) by (nonlinear_arith)
            requires
                0 <= d <= 0xFFFFF,
                q == d / 0x400,
        ;
        let hi = (0xD800 + q) as u16;
        let lo = (0xDC00 + r) as u16;
        assert(u[0] == hi && u[1] == lo);
        assert(is_high_surrogate(hi) && is_low_surrogate(lo));
        assert((hi - 0xD800) * 0x400 + (lo - 0xDC00) == 0x400 * q + r);
        assert(0x10000 + (hi - 0xD800) * 0x400 + (lo - 0xDC00) == v);
        assert((0x10000 + (hi - 0xD800) * 0x400 + (lo - 0xDC00)) as u32 == v);
        char_u32_cast(c, v);
        assert(surrogate_pair_char(hi, lo) == c);
        assert(u.skip(2) =~= rest);
        assert(decode_utf16(u) =~= seq![c] + decode_utf16(rest));
    }
}

/// Decoding inverts encoding: the unit sequence of any character sequence
/// reads back as that same sequence.
pub proof fn lemma_utf16_round_trip(s: Seq<char>)
    ensures
        decode_utf16(encode_utf16(s)) == s,
    decreases s.len(),
{
    if s.len() == 0 {
        assert(decode_utf16(encode_utf16(s)) =~= s);
    } else {
        lemma_decode_one(s[0], encode_utf16(s.drop_first()));
        lemma_utf16_round_trip(s.drop_first());
        assert(seq![s[0]] + s.drop_first() =~= s);
    }
}

/// No NUL character occurs in the sequence.
pub open spec fn nul_free(s: Seq<char>) -> bool {
    forall|i: int| 0 <= i < s.len() ==> s[i] as u32 != 0
}

/// A character sequence without NUL characters encodes to units that are all
/// nonzero, and to at least as many units as there are characters.
pub proof fn lemma_encode_utf16_no_nul(s: Seq<char>)
    requires
        nul_free(s),
    ensures
        forall|j: int| 0 <= j < encode_utf16(s).len() ==> encode_utf16(s)[j] != 0,
        encode_utf16(s).len() >= s.len(),
    decreases s.len(),
{
    if s.len() > 0 {
        let c = s[0];
        char_is_scalar(c);
        let v = c as u32;
        if v >= 0x10000 {
            let d = (v - 0x10000) as int;
            assert(0 <= d / 0x400 <= 0x3FF) by (nonlinear_arith)
                requires
                    0 <= d <= 0xFFFFF,
            ;
            lemma_fundamental_div_mod(d, 0x400);
        }
        assert(forall|j: int| 0 <= j < char_utf16(c).len() ==> char_utf16(c)[j] != 0);
        assert(nul_free(s.drop_first()));
        lemma_encode_utf16_no_nul(s.drop_first());
    }
}

/// Appending one character appends its units.
pub proof fn lemma_encode_utf16_snoc(t: Seq<char>, c: char)
    ensures
        encode_utf16(t.push(c)) == encode_utf16(t) + char_utf16(c),
    decreases t.len(),
{
    if t.len() == 0 {
        assert(t.push(c)[0] == c);
        assert(t.push(c).drop_first() =~= Seq::<char>::empty());
        assert(encode_utf16(t.push(c)) == char_utf16(c) + encode_utf16(Seq::<char>::empty()));
        assert(char_utf16(c) + Seq::<u16>::empty() =~= char_utf16(c));
        assert(Seq::<u16>::empty() + char_utf16(c) =~= char_utf16(c));
    } else {
        assert(t.push(c)[0] == t[0]);
        assert(t.push(c).drop_first() =~= t.drop_first().push(c));
        lemma_encode_utf16_snoc(t.drop_first(), c);
        assert(encode_utf16(t.push(c)) =~= encode_utf16(t) + char_utf16(c));
    }
}

/// The position of the first NUL unit; the whole length when there is none.
pub open spec fn first_nul(u: Seq<u16>) -> int
    decreases u.len(),
{
    if u.len() == 0 {
        0
    } else if u[0] == 0 {
        0
    } else {
        1 + first_nul(u.drop_first())
    }
}

/// The units before the first NUL.
pub open spec fn trim_nul(u: Seq<u16>) -> Seq<u16> {
    u.take(first_nul(u))
}

/// A position with only nonzero units before it and a zero unit (or the end)
/// at it is the first NUL position.
pub proof fn lemma_first_nul_at(u: Seq<u16>, k: int)
    requires
        0 <= k <= u.len(),
        forall|j: int| 0 <= j < k ==> u[j] != 0,
        k < u.len() ==> u[k] == 0,
    ensures
        first_nul(u) == k,
    decreases u.len(),
{
    if u.len() > 0 && u[0] != 0 {
        assert(k != 0);
        assert(forall|j: int| 0 <= j < k - 1 ==> u.drop_first()[j] == u[j + 1]);
        lemma_first_nul_at(u.drop_first(), k - 1);
    }
}

/// Relies on `char::from_u32`: it returns the character with the given code
/// point exactly when the value is a Unicode scalar, that is, not a
/// surrogate and at most `0x10FFFF`.
pub assume_specification[ char::from_u32 ](v: u32) -> (r: Option<char>)
    ensures
        (r is Some) <==> (v < 0xD800 || (0xE000 <= v && v <= 0x10FFFF)),
        r matches Some(c) ==> c as u32 == v,
;

/// Relies on `String::push`: it appends the given character at the end of
/// the string.
pub assume_specification[ String::push ](s: &mut String, c: char)
    ensures
        final(s)@ == old(s)@.push(c),
;

/// The UTF-16 unit sequence of `s`, computed unit by unit.
pub fn to_utf16(s: &str) -> (r: Vec<u16>)
    ensures
        r@ == encode_utf16(s@),
{
    let n = s.unicode_len();
    let mut r: Vec<u16> = Vec::new();
    let mut i: usize = 0;
    while i < n
        invariant
            i <= n,
            n == s@.len(),
            r@ == encode_utf16(s@.take(i as int)),
        decreases n - i,
    {
        let c = s.get_char(i);
        proof {
            char_is_scalar(c);
        }
        let v = c as u32;
        if v < 0x10000 {
            r.push(v as u16);
        } else {
            let d = v - 0x10000;
            proof {
                assert(0 <= d / 0x400 <= 0x3FF) by (nonlinear_arith)
                    requires
                        0 <= d <= 0xFFFFF,
                ;
            }
            r.push(0xD800u16 + (d / 0x400) as u16);
            r.push(0xDC00u16 + (d % 0x400) as u16);
        }
        proof {
            lemma_encode_utf16_snoc(s@.take(i as int), c);
            assert(s@.take(i + 1) =~= s@.take(i as int).push(s@[i as int]));
            assert(r@ =~= encode_utf16(s@.take(i as int)) + char_utf16(c));
        }
        i += 1;
    }
    proof {
        assert(s@.take(n as int) =~= s@);
    }
    r
}

/// Reads the characters out of a NUL-terminated (or full-length) unit
/// buffer: the units before the first NUL, decoded.
pub fn from_utf16_nul_terminated(buf: &Vec<u16>) -> (r: String)
    ensures
        r@ == decode_utf16(trim_nul(buf@)),
{
    let mut n: usize = 0;
    while n < buf.len() && buf[n] != 0
        invariant
            n <= buf@.len(),
            forall|j: int| 0 <= j < n ==> buf@[j] != 0,
        decreases buf@.len() - n,
    {
        n += 1;
    }
    proof {
        lemma_first_nul_at(buf@, n as int);
    }
    let ghost t = trim_nul(buf@);
    proof {
        assert(t.len() == n);
        assert(forall|j: int| 0 <= j < n ==> t[j] == buf@[j]);
    }
    let mut out = String::new();
    proof {
        assert(t.skip(0) =~= t);
        assert(out@ + decode_utf16(t) =~= decode_utf16(t));
    }
    let mut i: usize = 0;
    while i < n
        invariant
            i <= n,
            n <= buf@.len(),
            t == trim_nul(buf@),
            t.len() == n,
            forall|j: int| 0 <= j < n ==> t[j] == buf@[j],
            out@ + decode_utf16(t.skip(i as int)) == decode_utf16(t),
        decreases n - i,
    {
        let w = buf[i];
        proof {
            assert(t.skip(i as int)[0] == t[i as int]);
        }
        if 0xD800 <= w && w <= 0xDBFF && i + 1 < n && 0xDC00 <= buf[i + 1] && buf[i + 1]
            <= 0xDFFF {
            let lo = buf[i + 1];
            let cv = 0x10000u32 + ((w - 0xD800) as u32) * 0x400 + ((lo - 0xDC00) as u32);
            proof {
                assert(t.skip(i as int)[1] == t[i + 1]);
                assert(cv == 0x10000 + (w - 0xD800) * 0x400 + (lo - 0xDC00)) by (nonlinear_arith)
                    requires
                        0xD800 <= w <= 0xDBFF,
                        0xDC00 <= lo <= 0xDFFF,
                        cv == 0x10000u32 + ((w - 0xD800) as u32) * 0x400 + ((lo - 0xDC00) as u32),
                ;
                assert(cv <= 0x10FFFF) by (nonlinear_arith)
                    requires
                        0xD800 <= w <= 0xDBFF,
                        0xDC00 <= lo <= 0xDFFF,
                        cv == 0x10000 + (w - 0xD800) * 0x400 + (lo - 0xDC00),
                ;
            }
            let c = char::from_u32(cv).unwrap();
            proof {
                char_u32_cast(c, cv);
                assert(c == surrogate_pair_char(w, lo));
                assert(decode_utf16(t.skip(i as int)) == seq![c] + decode_utf16(
                    t.skip(i as int).skip(2),
                ));
                assert(t.skip(i as int).skip(2) =~= t.skip(i + 2));
                assert(out@.push(c) + decode_utf16(t.skip(i + 2)) =~= out@ + decode_utf16(
                    t.skip(i as int),
                ));
            }
            out.push(c);
            i += 2;
        } else if (0xD800 <= w && w <= 0xDBFF) || (0xDC00 <= w && w <= 0xDFFF) {
            proof {
                assert(decode_utf16(t.skip(i as int)) == seq![REPLACEMENT] + decode_utf16(
                    t.skip(i as int).skip(1),
                ));
                assert(t.skip(i as int).skip(1) =~= t.skip(i + 1));
                assert(out@.push(REPLACEMENT) + decode_utf16(t.skip(i + 1)) =~= out@
                    + decode_utf16(t.skip(i as int)));
            }
            out.push(REPLACEMENT);
            i += 1;
        } else {
            let c = char::from_u32(w as u32).unwrap();
            proof {
                char_u32_cast(c, w as u32);
                assert(c == (t.skip(i as int)[0] as u32) as char);
                assert(decode_utf16(t.skip(i as int)) == seq![(t.skip(i as int)[0] as u32) as char]
                    + decode_utf16(t.skip(i as int).skip(1)));
                assert(t.skip(i as int).skip(1) =~= t.skip(i + 1));
                assert(out@.push(c) + decode_utf16(t.skip(i + 1)) =~= out@ + decode_utf16(
                    t.skip(i as int),
                ));
            }
            out.push(c);
            i += 1;
        }
    }
    proof {
        assert(t.skip(n as int) =~= Seq::<u16>::empty());
        assert(out@ =~= decode_utf16(t));
    }
    out
}

} // verus!
