//! Conversions between strings and the wide strings of the platform.
//!
//! A wide string is a sequence of 16-bit units in UTF-16. One unit stands
//! for a character below U+10000; a pair of surrogates, a high one followed
//! by a low one, stands for a character above.

use vstd::prelude::*;
use vstd::string::StrSliceExecFns;

verus! {

/// The character that takes the place of what cannot be decoded.
pub const REPLACEMENT_CHARACTER: char = '\u{FFFD}';

/// Whether a unit is the first half of a surrogate pair.
pub open spec fn is_high_surrogate(unit: u16) -> bool {
    0xD800 <= unit <= 0xDBFF
}

/// Whether a unit is the second half of a surrogate pair.
pub open spec fn is_low_surrogate(unit: u16) -> bool {
    0xDC00 <= unit <= 0xDFFF
}

/// Whether a number is a Unicode scalar value, that is, a character.
pub open spec fn is_scalar_value(code: u32) -> bool {
    code <= 0xD7FF || 0xE000 <= code <= 0x10FFFF
}

/// The number of the character that a surrogate pair stands for.
pub open spec fn surrogate_pair_value(high: u16, low: u16) -> u32 {
    (0x10000 + (high - 0xD800) * 0x400 + (low - 0xDC00)) as u32
}

/// The characters that a wide string decodes to. A surrogate that is not
/// part of a pair decodes to the replacement character.
pub open spec fn utf16_decode_lossy(units: Seq<u16>) -> Seq<char>
    decreases units.len(),
{
    if units.len() == 0 {
        Seq::empty()
    } else if is_high_surrogate(units[0]) && units.len() >= 2 && is_low_surrogate(units[1]) {
        seq![surrogate_pair_value(units[0], units[1]) as char] + utf16_decode_lossy(units.skip(2))
    } else if is_high_surrogate(units[0]) || is_low_surrogate(units[0]) {
        seq![REPLACEMENT_CHARACTER] + utf16_decode_lossy(units.skip(1))
    } else {
        seq![units[0] as char] + utf16_decode_lossy(units.skip(1))
    }
}

/// The units that encode one character.
pub open spec fn utf16_units_of(c: char) -> Seq<u16> {
    let code = c as u32;
    if code < 0x10000 {
        seq![code as u16]
    } else {
        seq![
            (0xD800 + (code - 0x10000) / 0x400) as u16,
            (0xDC00 + (code - 0x10000) % 0x400) as u16,
        ]
    }
}

/// The units that encode a sequence of characters.
pub open spec fn utf16_encode(chars: Seq<char>) -> Seq<u16>
    decreases chars.len(),
{
    if chars.len() == 0 {
        Seq::empty()
    } else {
        utf16_encode(chars.drop_last()) + utf16_units_of(chars.last())
    }
}

/// Whether a character is not the terminator of a wide string.
pub open spec fn is_not_nul(c: char) -> bool {
    c != '\0'
}

/// `char::from_u32` of the standard library, on a number that is a Unicode
/// scalar value: the character with that number.
#[verifier::external_body]
fn char_from_scalar(code: u32) -> (res: char)
    requires
        is_scalar_value(code),
    ensures
        res as u32 == code,
{
    char::from_u32(code).unwrap()
}

/// `String::push` of the standard library: appends one character.
#[verifier::external_body]
pub(crate) fn push_char(s: &mut String, c: char)
    ensures
        final(s)@ == old(s)@.push(c),
{
    s.push(c)
}

/// Decodes the character that starts at `units[at]`. Gives the character and
/// the number of units it took, which is two for a surrogate pair and one
/// otherwise.
fn decode_at(units: &[u16], at: usize) -> (res: (char, usize))
    requires
        at < units@.len(),
    ensures
        res.1 == 1 || res.1 == 2,
        at + res.1 <= units@.len(),
        utf16_decode_lossy(units@.skip(at as int)) == seq![res.0] + utf16_decode_lossy(
            units@.skip(at + res.1),
        ),
{
    let ghost rest = units@.skip(at as int);
    let unit = units[at];
    assert(rest[0] == unit);
    if 0xD800 <= unit && unit <= 0xDBFF && at + 1 < units.len() && 0xDC00 <= units[at + 1]
        && units[at + 1] <= 0xDFFF {
        let low = units[at + 1];
        assert(rest[1] == low);
        assert(rest.skip(2) == units@.skip(at + 2));
        let code: u32 = 0x10000 + (unit as u32 - 0xD800) * 0x400 + (low as u32 - 0xDC00);
        (char_from_scalar(code), 2)
    } else if 0xD800 <= unit && unit <= 0xDFFF {
        assert(rest.skip(1) == units@.skip(at + 1));
        (REPLACEMENT_CHARACTER, 1)
    } else {
        assert(rest.skip(1) == units@.skip(at + 1));
        (char_from_scalar(unit as u32), 1)
    }
}

/// Converts a wide string into a string. Surrogates without a partner turn
/// into the replacement character, and zero characters, with which wide
/// strings end and are padded, are left out.
pub fn wstr_to_string(wstr: &[u16]) -> (res: String)
    ensures
        res@ == utf16_decode_lossy(wstr@).filter(|c: char| is_not_nul(c)),
{
    let ghost keep = |c: char| is_not_nul(c);
    let mut out = String::new();
    let mut i: usize = 0;
    assert(wstr@.skip(0) == wstr@);
    while i < wstr.len()
        invariant
            i <= wstr@.len(),
            keep == (|c: char| is_not_nul(c)),
            out@ + utf16_decode_lossy(wstr@.skip(i as int)).filter(keep) == utf16_decode_lossy(
                wstr@,
            ).filter(keep),
        decreases wstr@.len() - i,
    {
        let (c, used) = decode_at(wstr, i);
        proof {
            let rest = utf16_decode_lossy(wstr@.skip(i + used));
            Seq::filter_distributes_over_add(seq![c], rest, keep);
            reveal_with_fuel(Seq::filter, 2);
            assert(seq![c].drop_last() == Seq::<char>::empty());
            assert(seq![c].filter(keep) == if is_not_nul(c) {
                seq![c]
            } else {
                Seq::<char>::empty()
            });
        }
        let ghost before = out@;
        if c != '\0' {
            push_char(&mut out, c);
            assert(out@ == before + seq![c]);
        }
        i = i + used;
    }
    assert(wstr@.skip(i as int) == Seq::<u16>::empty());
    out
}

/// Converts a string into a wide string that ends in one zero unit.
pub fn str_to_wstring(s: &str) -> (res: Vec<u16>)
    ensures
        res@ == utf16_encode(s@).push(0u16),
{
    let mut out: Vec<u16> = Vec::new();
    let n = s.unicode_len();
    let mut i: usize = 0;
    assert(s@.take(0) == Seq::<char>::empty());
    while i < n
        invariant
            n == s@.len(),
            i <= n,
            out@ == utf16_encode(s@.take(i as int)),
        decreases n - i,
    {
        let c = s.get_char(i);
        let code = c as u32;
        proof {
            let next = s@.take(i + 1);
            assert(next.drop_last() == s@.take(i as int));
            assert(next.last() == c);
        }
        if code < 0x10000 {
            out.push(code as u16);
        } else {
            let high: u32 = 0xD800 + (code - 0x10000) / 0x400;
            let low: u32 = 0xDC00 + (code - 0x10000) % 0x400;
            out.push(high as u16);
            out.push(low as u16);
        }
        assert(out@ == utf16_encode(s@.take(i as int)) + utf16_units_of(c));
        i = i + 1;
    }
    assert(s@.take(n as int) == s@);
    out.push(0u16);
    out
}

/// The units of one character decode to that character, whatever follows
/// them.
pub proof fn decode_one_character(c: char, rest: Seq<u16>)
    ensures
        utf16_decode_lossy(utf16_units_of(c) + rest) == seq![c] + utf16_decode_lossy(rest),
{
    let units = utf16_units_of(c) + rest;
    let code = c as u32;
    if code < 0x10000 {
        assert(units[0] == code as u16);
        assert(units.skip(1) =~= rest);
        assert(units[0] as char == c);
    } else {
        let high = (0xD800 + (code - 0x10000) / 0x400) as u16;
        let low = (0xDC00 + (code - 0x10000) % 0x400) as u16;
        assert(units[0] == high);
        assert(units[1] == low);
        assert(units.skip(2) =~= rest);
        assert(surrogate_pair_value(high, low) == code);
    }
}

/// What is encoded decodes to what it was, whatever follows it.
pub proof fn decode_encoded(chars: Seq<char>, rest: Seq<u16>)
    ensures
        utf16_decode_lossy(utf16_encode(chars) + rest) == chars + utf16_decode_lossy(rest),
    decreases chars.len(),
{
    if chars.len() == 0 {
        assert(utf16_encode(chars) + rest =~= rest);
        assert(chars + utf16_decode_lossy(rest) =~= utf16_decode_lossy(rest));
    } else {
        let init = chars.drop_last();
        let last = chars.last();
        assert(utf16_encode(chars) + rest =~= utf16_encode(init) + (utf16_units_of(last) + rest));
        decode_encoded(init, utf16_units_of(last) + rest);
        decode_one_character(last, rest);
        assert(init + (seq![last] + utf16_decode_lossy(rest)) =~= chars + utf16_decode_lossy(
            rest,
        ));
    }
}

/// A string that is converted to a wide string and back is the same string
/// without its zero characters: the terminator, and whatever zero
/// characters the string held, are left out.
pub proof fn wide_string_round_trip(chars: Seq<char>)
    ensures
        utf16_decode_lossy(utf16_encode(chars).push(0u16)).filter(|c: char| is_not_nul(c))
            == chars.filter(|c: char| is_not_nul(c)),
{
    let keep = |c: char| is_not_nul(c);
    let terminator = seq![0u16];
    assert(utf16_encode(chars).push(0u16) =~= utf16_encode(chars) + terminator);
    decode_encoded(chars, terminator);
    assert(terminator.skip(1) =~= Seq::<u16>::empty());
    assert(utf16_decode_lossy(Seq::<u16>::empty()) =~= Seq::<char>::empty());
    assert(terminator[0] as char == '\0');
    assert(utf16_decode_lossy(terminator) =~= seq!['\0'] + utf16_decode_lossy(
        terminator.skip(1),
    ));
    assert(utf16_decode_lossy(terminator) =~= seq!['\0']);
    Seq::filter_distributes_over_add(chars, seq!['\0'], keep);
    reveal_with_fuel(Seq::filter, 2);
    assert(seq!['\0'].drop_last() =~= Seq::<char>::empty());
    assert(seq!['\0'].filter(keep) =~= Seq::<char>::empty());
    assert(chars.filter(keep) + Seq::<char>::empty() =~= chars.filter(keep));
}

} // verus!
