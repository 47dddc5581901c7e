//! UTF-16 ("wide") strings as the Windows APIs take and return them.

use vstd::prelude::*;
use crate::text::{chars_of, push_char};

verus! {

/// The UTF-16 code units of one character: one unit below U+10000, else
/// a high surrogate followed by a low surrogate.
pub open spec fn utf16_of_char(c: char) -> Seq<u16> {
    let u = c as u32;
    if u < 0x10000 {
        seq![u as u16]
    } else {
        let v = (u - 0x10000) as u32;
        seq![(0xD800 + v / 0x400) as u16, (0xDC00 + v % 0x400) as u16]
    }
}

/// The UTF-16 encoding of a character sequence.
pub open spec fn utf16_seq(s: Seq<char>) -> Seq<u16>
    decreases s.len(),
{
    if s.len() == 0 {
        Seq::empty()
    } else {
        utf16_of_char(s[0]) + utf16_seq(s.drop_first())
    }
}

/// A leading (high) surrogate unit.
pub open spec fn is_high_surrogate(u: u16) -> bool {
    0xD800 <= u <= 0xDBFF
}

/// A trailing (low) surrogate unit.
pub open spec fn is_low_surrogate(u: u16) -> bool {
    0xDC00 <= u <= 0xDFFF
}

/// The character a surrogate pair encodes.
pub open spec fn surrogate_pair_value(hi: u16, lo: u16) -> u32 {
    (0x10000 + (hi - 0xD800) * 0x400 + (lo - 0xDC00)) as u32
}

/// The replacement character U+FFFD.
pub open spec fn replacement_char() -> char {
    '\u{FFFD}'
}

/// Lossy UTF-16 decoding, as `String::from_utf16_lossy` does: a high
/// surrogate followed by a low one is one character; any other surrogate
/// becomes U+FFFD; every other unit is the character with that value.
pub open spec fn decode_utf16_lossy_seq(units: Seq<u16>) -> Seq<char>
    decreases units.len(),
{
    if units.len() == 0 {
        Seq::empty()
    } else if units.len() >= 2 && is_high_surrogate(units[0]) && is_low_surrogate(units[1]) {
        seq![surrogate_pair_value(units[0], units[1]) as char] + decode_utf16_lossy_seq(
            units.skip(2),
        )
    } else if 0xD800 <= units[0] <= 0xDFFF {
        seq![replacement_char()] + decode_utf16_lossy_seq(units.drop_first())
    } else {
        seq![units[0] as char] + decode_utf16_lossy_seq(units.drop_first())
    }
}

/// The number of units before the first NUL unit (all of them when there
/// is none).
pub open spec fn nul_position(units: Seq<u16>) -> int
    decreases units.len(),
{
    if units.len() == 0 {
        0
    } else if units[0] == 0 {
        0
    } else {
        1 + nul_position(units.drop_first())
    }
}

/// Calls `char::from_u32`, which gives the character with code point `v`,
/// or `None` when `v` is a surrogate code point or above U+10FFFF.
#[verifier::external_body]
fn char_from_u32(v: u32) -> (r: Option<char>)
    ensures
        (v <= 0xD7FF || (0xE000 <= v && v <= 0x10FFFF)) ==> r == Some(v as char),
        !(v <= 0xD7FF || (0xE000 <= v && v <= 0x10FFFF)) ==> r is None,
{
    char::from_u32(v)
}

proof fn lemma_utf16_append(s: Seq<char>, c: char)
    ensures
        utf16_seq(s.push(c)) == utf16_seq(s) + utf16_of_char(c),
    decreases s.len(),
{
    if s.len() == 0 {
        assert(s.push(c).drop_first() =~= Seq::<char>::empty());
        assert(utf16_seq(Seq::<char>::empty()) =~= Seq::<u16>::empty());
        assert(utf16_seq(s.push(c)) =~= utf16_of_char(c));
    } else {
        assert(s.push(c).drop_first() =~= s.drop_first().push(c));
        lemma_utf16_append(s.drop_first(), c);
        assert(utf16_seq(s.push(c)) =~= utf16_seq(s) + utf16_of_char(c));
    }
}

/// `s` encoded as UTF-16 and terminated by a NUL unit, as the Windows
/// APIs take strings.
pub fn to_wide(s: &str) -> (r: Vec<u16>)
    ensures
        r@ == utf16_seq(s@).push(0),
{
    let cs = chars_of(s);
    let mut out: Vec<u16> = Vec::new();
    let mut i: usize = 0;
    assert(s@.subrange(0, 0) =~= Seq::<char>::empty());
    assert(utf16_seq(Seq::<char>::empty()) =~= Seq::<u16>::empty());
    while i < cs.len()
        invariant
            cs@ == s@,
            i <= cs@.len(),
            out@ == utf16_seq(s@.subrange(0, i as int)),
        decreases cs@.len() - i,
    {
        let c = cs[i];
        let u = c as u32;
        if u < 0x10000 {
            out.push(u as u16);
        } else {
            let v = u - 0x10000;
            out.push((0xD800 + v / 0x400) as u16);
            out.push((0xDC00 + v % 0x400) as u16);
        }
        proof {
            lemma_utf16_append(s@.subrange(0, i as int), c);
            assert(s@.subrange(0, i as int).push(c) =~= s@.subrange(0, i + 1));
        }
        i = i + 1;
        assert(out@ =~= utf16_seq(s@.subrange(0, i as int)));
    }
    assert(s@.subrange(0, i as int) =~= s@);
    out.push(0);
    out
}

proof fn lemma_decode_step_pair(units: Seq<u16>, i: int)
    requires
        0 <= i,
        i + 2 <= units.len(),
        is_high_surrogate(units[i]),
        is_low_surrogate(units[i + 1]),
    ensures
        decode_utf16_lossy_seq(units.skip(i)) == seq![surrogate_pair_value(units[i], units[i + 1]) as char]
            + decode_utf16_lossy_seq(units.skip(i + 2)),
{
    assert(units.skip(i).skip(2) =~= units.skip(i + 2));
}

proof fn lemma_decode_step_one(units: Seq<u16>, i: int)
    requires
        0 <= i < units.len(),
        !(i + 2 <= units.len() && is_high_surrogate(units[i]) && is_low_surrogate(units[i + 1])),
    ensures
        decode_utf16_lossy_seq(units.skip(i)) == seq![
            if 0xD800 <= units[i] <= 0xDFFF {
                replacement_char()
            } else {
                units[i] as char
            },
        ] + decode_utf16_lossy_seq(units.skip(i + 1)),
{
    assert(units.skip(i).drop_first() =~= units.skip(i + 1));
}

/// Decodes UTF-16 units, replacing unpaired surrogates with U+FFFD, as
/// `String::from_utf16_lossy` does.
pub fn decode_utf16_lossy(units: &[u16]) -> (r: String)
    ensures
        r@ == decode_utf16_lossy_seq(units@),
{
    let n = units.len();
    let mut out = String::new();
    let mut i: usize = 0;
    assert(units@.skip(0) =~= units@);
    while i < n
        invariant
            n == units@.len(),
            i <= n,
            out@ + decode_utf16_lossy_seq(units@.skip(i as int)) == decode_utf16_lossy_seq(units@),
        decreases n - i,
    {
        let u = units[i];
        if i + 1 < n && 0xD800 <= u && u <= 0xDBFF && 0xDC00 <= units[i + 1] && units[i + 1]
            <= 0xDFFF {
            let lo = units[i + 1];
            let v: u32 = 0x10000 + ((u - 0xD800) as u32) * 0x400 + ((lo - 0xDC00) as u32);
            proof {
                lemma_decode_step_pair(units@, i as int);
            }
            match char_from_u32(v) {
                Some(c) => push_char(&mut out, c),
                None => {},
            }
            assert(out@ + decode_utf16_lossy_seq(units@.skip(i + 2)) =~= decode_utf16_lossy_seq(
                units@,
            ));
            i = i + 2;
        } else {
            proof {
                lemma_decode_step_one(units@, i as int);
            }
            if 0xD800 <= u && u <= 0xDFFF {
                push_char(&mut out, '\u{FFFD}');
            } else {
                match char_from_u32(u as u32) {
                    Some(c) => push_char(&mut out, c),
                    None => {},
                }
            }
            assert(out@ + decode_utf16_lossy_seq(units@.skip(i + 1)) =~= decode_utf16_lossy_seq(
                units@,
            ));
            i = i + 1;
        }
    }
    assert(units@.skip(i as int) =~= Seq::<u16>::empty());
    assert(out@ =~= decode_utf16_lossy_seq(units@));
    out
}

/// Decodes a NUL-terminated UTF-16 buffer: the units before the first NUL
/// unit (all of them when there is none), decoded lossily.
pub fn from_wide(buffer: &[u16]) -> (r: String)
    ensures
        r@ == decode_utf16_lossy_seq(buffer@.take(nul_position(buffer@))),
{
    let n = buffer.len();
    let mut units: Vec<u16> = Vec::new();
    let mut i: usize = 0;
    assert(buffer@.skip(0) =~= buffer@);
    assert(units@ =~= buffer@.take(0));
    while i < n && buffer[i] != 0
        invariant
            n == buffer@.len(),
            i <= n,
            units@ == buffer@.take(i as int),
            nul_position(buffer@) == i + nul_position(buffer@.skip(i as int)),
        decreases n - i,
    {
        units.push(buffer[i]);
        proof {
            assert(buffer@.skip(i as int).drop_first() =~= buffer@.skip(i + 1));
        }
        i = i + 1;
        assert(units@ =~= buffer@.take(i as int));
    }
    proof {
        if i < n {
            assert(buffer@.skip(i as int)[0] == 0);
        }
        assert(nul_position(buffer@) == i);
    }
    decode_utf16_lossy(units.as_slice())
}

/// No character of `s` is NUL (code point 0).
pub open spec fn has_no_nul(s: Seq<char>) -> bool {
    forall|i: int| 0 <= i < s.len() ==> (s[i] as u32) != 0
}

proof fn lemma_char_range(c: char)
    ensures
        (c as u32) <= 0x10FFFF,
        !(0xD800 <= (c as u32) <= 0xDFFF),
{
}

proof fn lemma_decode_encoded_char(c: char, rest: Seq<u16>)
    ensures
        decode_utf16_lossy_seq(utf16_of_char(c) + rest) == seq![c] + decode_utf16_lossy_seq(rest),
{
    let u = c as u32;
    let e = utf16_of_char(c) + rest;
    if u < 0x10000 {
        assert(e[0] == u as u16);
        assert(!(0xD800 <= e[0] <= 0xDFFF));
        assert(e.drop_first() =~= rest);
        assert((e[0] as char) == c);
    } else {
        let v = (u - 0x10000) as u32;
        assert(v < 0x100000);
        assert(v == 0x400 * (v / 0x400) + v % 0x400) by {
            vstd::arithmetic::div_mod::lemma_fundamental_div_mod(v as int, 0x400);
        }
        assert(v / 0x400 < 0x400) by {
            vstd::arithmetic::div_mod::lemma_div_by_multiple_is_strongly_ordered(v as int, 0x100000, 0x400, 0x400);
        }
        let hi = (0xD800 + v / 0x400) as u16;
        let lo = (0xDC00 + v % 0x400) as u16;
        assert(e[0] == hi && e[1] == lo);
        assert(is_high_surrogate(hi) && is_low_surrogate(lo));
        assert(surrogate_pair_value(hi, lo) == u);
        assert(e.skip(2) =~= rest);
    }
}

proof fn lemma_decode_encoded(s: Seq<char>)
    ensures
        decode_utf16_lossy_seq(utf16_seq(s)) == s,
    decreases s.len(),
{
    if s.len() == 0 {
        assert(utf16_seq(s) =~= Seq::<u16>::empty());
    } else {
        lemma_decode_encoded(s.drop_first());
        lemma_decode_encoded_char(s[0], utf16_seq(s.drop_first()));
        assert(s =~= seq![s[0]] + s.drop_first());
    }
}

proof fn lemma_nul_position_encoded(s: Seq<char>)
    requires
        has_no_nul(s),
    ensures
        nul_position(utf16_seq(s).push(0)) == utf16_seq(s).len(),
    decreases s.len(),
{
    if s.len() == 0 {
        assert(utf16_seq(s) =~= Seq::<u16>::empty());
        assert(utf16_seq(s).push(0) =~= seq![0u16]);
        assert(nul_position(seq![0u16]) == 0);
    } else {
        let c = s[0];
        let head = utf16_of_char(c);
        let tail = utf16_seq(s.drop_first());
        assert(has_no_nul(s.drop_first())) by {
            assert forall|i: int| 0 <= i < s.drop_first().len() implies (s.drop_first()[i]
                as u32) != 0 by {
                assert(s.drop_first()[i] == s[i + 1]);
            }
        }
        lemma_nul_position_encoded(s.drop_first());
        let all = utf16_seq(s).push(0);
        assert(all =~= head + tail.push(0));
        assert((c as u32) != 0);
        assert(all[0] == head[0]);
        if (c as u32) < 0x10000 {
            assert(head[0] == (c as u32) as u16);
            assert(all[0] != 0);
            assert(all.drop_first() =~= tail.push(0));
            assert(nul_position(all) == 1 + nul_position(tail.push(0)));
            assert(head.len() == 1);
        } else {
            let u = c as u32;
            lemma_char_range(c);
            let v = (u - 0x10000) as u32;
            assert(v < 0x100000);
            assert(v / 0x400 < 0x400) by {
                vstd::arithmetic::div_mod::lemma_div_by_multiple_is_strongly_ordered(v as int, 0x100000, 0x400, 0x400);
            }
            assert(v % 0x400 < 0x400);
            assert(all[1] == head[1]);
            assert(all[0] != 0);
            assert(all.drop_first()[0] != 0);
            assert(all.drop_first().drop_first() =~= tail.push(0));
            assert(nul_position(all.drop_first()) == 1 + nul_position(tail.push(0)));
            assert(nul_position(all) == 2 + nul_position(tail.push(0)));
            assert(head.len() == 2);
        }
        assert(utf16_seq(s).len() == head.len() + tail.len());
    }
}

/// Decoding what `to_wide` encodes gives the text back, for text without
/// NUL characters (a NUL would end the decoded string early).
pub proof fn lemma_from_wide_to_wide(s: Seq<char>)
    requires
        has_no_nul(s),
    ensures
        decode_utf16_lossy_seq(utf16_seq(s).push(0).take(nul_position(utf16_seq(s).push(0))))
            == s,
{
    lemma_nul_position_encoded(s);
    assert(utf16_seq(s).push(0).take(utf16_seq(s).len() as int) =~= utf16_seq(s));
    lemma_decode_encoded(s);
}

} // verus!
