use vstd::prelude::*;
use vstd::string::StrSliceExecFns;
use vstd::utf8::{encode_utf8, valid_utf8};

verus! {

/// The UTF-16 code units of one character: the character itself below
/// 0x10000, otherwise a high and a low surrogate.
pub open spec fn char_utf16(c: char) -> Seq<u16> {
    let v = c as u32;
    if v < 0x10000 {
        seq![v as u16]
    } else {
        let u = (v - 0x10000) as u32;
        seq![(0xD800u32 + (u >> 10u32)) as u16, (0xDC00u32 + (u & 0x3FFu32)) as u16]
    }
}

/// The UTF-16 code units of a string.
pub open spec fn utf16_of(s: Seq<char>) -> Seq<u16>
    decreases s.len(),
{
    if s.len() == 0 {
        Seq::empty()
    } else {
        char_utf16(s[0]) + utf16_of(s.drop_first())
    }
}

/// The character of a surrogate pair.
pub open spec fn surrogate_pair_value(high: u16, low: u16) -> u32 {
    (0x10000u32 + ((((high as u32) - 0xD800u32) as u32) << 10u32 | (((low as u32) - 0xDC00u32)
        as u32))) as u32
}

/// The string that UTF-16 code units encode, or `None` where a surrogate
/// stands unpaired.
pub open spec fn utf16_decoded(units: Seq<u16>) -> Option<Seq<char>>
    decreases units.len(),
{
    if units.len() == 0 {
        Some(Seq::empty())
    } else if units[0] < 0xD800 || units[0] >= 0xE000 {
        match utf16_decoded(units.drop_first()) {
            Some(rest) => Some(seq![(units[0] as u32) as char] + rest),
            None => None,
        }
    } else if units[0] < 0xDC00 && units.len() >= 2 && 0xDC00 <= units[1] < 0xE000 {
        match utf16_decoded(units.subrange(2, units.len() as int)) {
            Some(rest) => Some(seq![surrogate_pair_value(units[0], units[1]) as char] + rest),
            None => None,
        }
    } else {
        None
    }
}

/// The code units of one character decode back to it.
proof fn lemma_char_utf16(c: char)
    ensures
        ({
            let us = char_utf16(c);
            ||| (us.len() == 1 && (us[0] < 0xD800 || us[0] >= 0xE000) && (us[0] as u32) as char == c)
            ||| (us.len() == 2 && 0xD800 <= us[0] < 0xDC00 && 0xDC00 <= us[1] < 0xE000
                && surrogate_pair_value(us[0], us[1]) as char == c)
        }),
{
    let v = c as u32;
    vstd::utf8::char_is_scalar(c);
    vstd::utf8::char_u32_cast(c, v);
    if v < 0x10000 {
        assert(((v as u16) as u32) == v && ((v as u16) < 0xD800 || (v as u16) >= 0xE000)) by (bit_vector)
            requires
                v < 0x10000,
                v <= 0xD7FF || (0xE000 <= v && v <= 0x10FFFF),
        ;
    } else {
        let u = (v - 0x10000) as u32;
        let hi = (0xD800u32 + (u >> 10u32)) as u16;
        let lo = (0xDC00u32 + (u & 0x3FFu32)) as u16;
        assert(0xD800 <= hi && hi < 0xDC00 && 0xDC00 <= lo && lo < 0xE000 && (0x10000u32 + ((((
        hi as u32) - 0xD800u32) as u32) << 10u32 | (((lo as u32) - 0xDC00u32) as u32))) as u32 == v)
            by (bit_vector)
            requires
                0x10000 <= v && v <= 0x10FFFF,
                u == (v - 0x10000) as u32,
                hi == (0xD800u32 + (u >> 10u32)) as u16,
                lo == (0xDC00u32 + (u & 0x3FFu32)) as u16,
        ;
    }
}

/// Decoding the UTF-16 code units of a string gives the string back.
pub proof fn lemma_utf16_round_trip(s: Seq<char>)
    ensures
        utf16_decoded(utf16_of(s)) == Some(s),
    decreases s.len(),
{
    if s.len() > 0 {
        let us = char_utf16(s[0]);
        let rest = utf16_of(s.drop_first());
        let all = utf16_of(s);
        lemma_char_utf16(s[0]);
        lemma_utf16_round_trip(s.drop_first());
        assert(all == us + rest);
        if us.len() == 1 {
            assert(all.drop_first() =~= rest);
        } else {
            assert(all.subrange(2, all.len() as int) =~= rest);
        }
        assert(seq![s[0]] + s.drop_first() =~= s);
    }
}

/// A string's UTF-8 encoding takes at most four bytes per character.
pub proof fn lemma_utf8_len_bound(chars: Seq<char>)
    ensures
        encode_utf8(chars).len() <= 4 * chars.len(),
    decreases chars.len(),
{
    if chars.len() > 0 {
        lemma_utf8_len_bound(chars.drop_first());
    }
}

/// Appending a character appends its code units.
proof fn lemma_utf16_of_push(s: Seq<char>, c: char)
    ensures
        utf16_of(s.push(c)) == utf16_of(s) + char_utf16(c),
    decreases s.len(),
{
    if s.len() == 0 {
        assert(s.push(c).drop_first() =~= Seq::<char>::empty());
        assert(s.push(c)[0] == c);
        assert(utf16_of(Seq::<char>::empty()) == Seq::<u16>::empty());
        assert(utf16_of(s.push(c)) =~= char_utf16(c) + Seq::<u16>::empty());
        assert(utf16_of(s) =~= Seq::<u16>::empty());
    } else {
        lemma_utf16_of_push(s.drop_first(), c);
        assert(s.push(c).drop_first() =~= s.drop_first().push(c));
        assert(utf16_of(s.push(c)) =~= utf16_of(s) + char_utf16(c));
    }
}

/// The code units of one character.
fn char_units(c: char, out: &mut Vec<u16>)
    ensures
        final(out)@ == old(out)@ + char_utf16(c),
{
    let v = c as u32;
    proof {
        vstd::utf8::char_is_scalar(c);
    }
    if v < 0x10000 {
        out.push(v as u16);
        proof {
            assert(out@ =~= old(out)@ + char_utf16(c));
        }
    } else {
        let u = v - 0x10000;
        assert((u >> 10u32) <= 0x3FF && (u & 0x3FFu32) <= 0x3FF) by (bit_vector)
            requires
                u <= 0xFFFFF,
        ;
        out.push((0xD800u32 + (u >> 10u32)) as u16);
        out.push((0xDC00u32 + (u & 0x3FFu32)) as u16);
        proof {
            assert(out@ =~= old(out)@ + char_utf16(c));
        }
    }
}

/// The UTF-16 code units of a string.
pub(crate) fn encode_utf16(s: &str) -> (r: Vec<u16>)
    ensures
        r@ == utf16_of(s@),
{
    let n = s.unicode_len();
    let mut out: Vec<u16> = Vec::new();
    let mut k: usize = 0;
    while k < n
        invariant
            n == s@.len(),
            k <= n,
            out@ == utf16_of(s@.subrange(0, k as int)),
        decreases n - k,
    {
        let c = s.get_char(k);
        char_units(c, &mut out);
        proof {
            lemma_utf16_of_push(s@.subrange(0, k as int), c);
            assert(s@.subrange(0, k as int).push(c) =~= s@.subrange(0, k + 1));
        }
        k = k + 1;
    }
    proof {
        assert(s@.subrange(0, k as int) =~= s@);
    }
    out
}

/// Relies on `String::from_utf16`: it fails exactly on an unpaired
/// surrogate and otherwise returns the decoded string.
#[verifier::external_body]
pub(crate) fn string_from_utf16(units: &[u16]) -> (r: Option<String>)
    ensures
        r matches Some(s) ==> utf16_decoded(units@) == Some(s@),
        r is None ==> utf16_decoded(units@) is None,
{
    String::from_utf16(units).ok()
}

/// Relies on `String::from_utf8`: it fails exactly on bytes that are not
/// UTF-8 and otherwise holds the characters they encode.
#[verifier::external_body]
pub(crate) fn string_from_utf8(bytes: Vec<u8>) -> (r: Option<String>)
    ensures
        r is Some <==> valid_utf8(bytes@),
        r matches Some(s) ==> s@ == vstd::utf8::decode_utf8(bytes@),
{
    String::from_utf8(bytes).ok()
}

} // verus!
