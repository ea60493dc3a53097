//! Wide strings: the NUL-terminated UTF-16 form in which the platform takes
//! and returns text.

use vstd::prelude::*;

verus! {

/// The code unit that ends a wide string.
pub const NUL: u16 = 0;

/// Whether the unit is the first half of a surrogate pair.
pub open spec fn is_high_surrogate(unit: u16) -> bool {
    0xD800 <= unit <= 0xDBFF
}

/// Whether the unit is the second half of a surrogate pair.
pub open spec fn is_low_surrogate(unit: u16) -> bool {
    0xDC00 <= unit <= 0xDFFF
}

/// The UTF-16 code units of one character: the character itself below
/// U+10000, a surrogate pair from there on.
pub open spec fn utf16_of_char(c: char) -> Seq<u16> {
    let scalar = c as u32;
    if scalar < 0x10000 {
        seq![scalar as u16]
    } else {
        seq![
            (0xD800 + (scalar - 0x10000) / 0x400) as u16,
            (0xDC00 + (scalar - 0x10000) % 0x400) as u16,
        ]
    }
}

/// The UTF-16 code units of a text.
pub open spec fn encode_utf16(text: Seq<char>) -> Seq<u16>
    decreases text.len(),
{
    if text.len() == 0 {
        Seq::empty()
    } else {
        utf16_of_char(text.first()) + encode_utf16(text.drop_first())
    }
}

/// The wide string of a text: its UTF-16 code units and a closing NUL.
pub open spec fn wide_string(text: Seq<char>) -> Seq<u16> {
    encode_utf16(text).push(NUL)
}

/// The number of code units before the first NUL, or the whole length
/// where there is none.
pub open spec fn wide_len(units: Seq<u16>) -> nat
    decreases units.len(),
{
    if units.len() == 0 || units.first() == NUL {
        0
    } else {
        1 + wide_len(units.drop_first())
    }
}

/// The character that a surrogate pair stands for.
pub open spec fn char_of_pair(high: u16, low: u16) -> char {
    (0x10000 + (high - 0xD800) * 0x400 + (low - 0xDC00)) as u32 as char
}

/// The text that UTF-16 code units stand for, where every unit that is no
/// part of a well-formed surrogate pair and is a surrogate itself is read as
/// U+FFFD.
pub open spec fn decode_utf16_lossy(units: Seq<u16>) -> Seq<char>
    decreases units.len(),
{
    if units.len() == 0 {
        Seq::empty()
    } else if is_high_surrogate(units[0]) && units.len() >= 2 && is_low_surrogate(units[1]) {
        seq![char_of_pair(units[0], units[1])] + decode_utf16_lossy(units.skip(2))
    } else if is_high_surrogate(units[0]) || is_low_surrogate(units[0]) {
        seq!['\u{FFFD}'] + decode_utf16_lossy(units.skip(1))
    } else {
        seq![units[0] as u32 as char] + decode_utf16_lossy(units.skip(1))
    }
}

/// Appending a character to a text appends its code units to the encoding.
pub proof fn lemma_encode_utf16_push(text: Seq<char>, c: char)
    ensures
        encode_utf16(text.push(c)) == encode_utf16(text) + utf16_of_char(c),
    decreases text.len(),
{
    if text.len() == 0 {
        assert(encode_utf16(text.push(c).drop_first()) =~= Seq::<u16>::empty());
    } else {
        lemma_encode_utf16_push(text.drop_first(), c);
        assert(text.push(c).drop_first() =~= text.drop_first().push(c));
    }
}

/// Pushes the code units of one character.
fn push_utf16(wide: &mut Vec<u16>, c: char)
    ensures
        final(wide)@ == old(wide)@ + utf16_of_char(c),
{
    let scalar: u32 = c as u32;
    if scalar < 0x10000 {
        wide.push(scalar as u16);
    } else {
        proof {
            vstd::utf8::char_is_scalar(c);
        }
        let offset: u32 = scalar - 0x10000;
        wide.push((0xD800 + offset / 0x400) as u16);
        wide.push((0xDC00 + offset % 0x400) as u16);
    }
}

/// Turns a text into a wide string: its UTF-16 code units, closed by a NUL.
pub fn to_wstring(s: &str) -> (wide: Vec<u16>)
    ensures
        wide@ == wide_string(s@),
        wide@.len() >= 1,
        wide@.last() == NUL,
{
    let mut wide: Vec<u16> = Vec::new();
    for c in it: s.chars()
        invariant
            it.seq() == s@,
            wide@ == encode_utf16(s@.take(it.index() as int)),
    {
        proof {
            lemma_encode_utf16_push(s@.take(it.index() as int), c);
            assert(s@.take(it.index() + 1) =~= s@.take(it.index() as int).push(c));
        }
        push_utf16(&mut wide, c);
    }
    assert(s@.take(s@.len() as int) =~= s@);
    wide.push(NUL);
    wide
}

/// What `wide_len` counts: the units before position `wide_len` are no NUL,
/// and the unit at that position, where there is one, is a NUL.
pub proof fn lemma_wide_len(units: Seq<u16>)
    ensures
        wide_len(units) <= units.len(),
        forall|i: int| 0 <= i < wide_len(units) ==> units[i] != NUL,
        wide_len(units) < units.len() ==> units[wide_len(units) as int] == NUL,
    decreases units.len(),
{
    if units.len() != 0 && units.first() != NUL {
        let rest = units.drop_first();
        lemma_wide_len(rest);
        assert forall|i: int| 0 <= i < wide_len(units) implies units[i] != NUL by {
            if i > 0 {
                assert(units[i] == rest[i - 1]);
            }
        }
    }
}

/// A position with a NUL before which there is none is the wide length.
pub proof fn lemma_wide_len_is(units: Seq<u16>, n: int)
    requires
        0 <= n <= units.len(),
        forall|i: int| 0 <= i < n ==> units[i] != NUL,
        n < units.len() ==> units[n] == NUL,
    ensures
        wide_len(units) == n,
{
    lemma_wide_len(units);
}

/// Counts the code units of a wide string, up to its closing NUL; for a
/// buffer that holds no NUL this is the buffer's length.
pub fn wcslen(s: &[u16]) -> (len: usize)
    ensures
        len == wide_len(s@),
        len <= s@.len(),
        forall|i: int| 0 <= i < len ==> s@[i] != NUL,
        len < s@.len() ==> s@[len as int] == NUL,
{
    let mut len: usize = 0;
    while len < s.len() && s[len] != NUL
        invariant
            len <= s@.len(),
            forall|i: int| 0 <= i < len ==> s@[i] != NUL,
        decreases s@.len() - len,
    {
        len = len + 1;
    }
    proof {
        lemma_wide_len_is(s@, len as int);
    }
    len
}

/// Whether the value is a Unicode scalar value, which is what a `char`
/// can hold: at most U+10FFFF and no surrogate.
pub open spec fn is_scalar_value(scalar: u32) -> bool {
    scalar <= 0x10FFFF && !(0xD800 <= scalar <= 0xDFFF)
}

/// `char::from_u32` of std: the character with the given scalar value, and
/// none for a value that no character has.
#[verifier::external_body]
fn char_of_scalar(scalar: u32) -> (c: Option<char>)
    ensures
        c == (if is_scalar_value(scalar) {
            Some(scalar as char)
        } else {
            None::<char>
        }),
{
    char::from_u32(scalar)
}

/// `String::push` of std: the character is appended to the text.
#[verifier::external_body]
fn push_char(text: &mut String, c: char)
    ensures
        final(text)@ == old(text)@.push(c),
{
    text.push(c)
}

/// Appends the character with the given scalar value.
fn push_scalar(text: &mut String, scalar: u32)
    requires
        is_scalar_value(scalar),
    ensures
        final(text)@ == old(text)@.push(scalar as char),
{
    match char_of_scalar(scalar) {
        Some(c) => push_char(text, c),
        None => {},
    }
}

/// Decoding the units from position `i` on starts with the character that
/// stands at `i`, and goes on behind it.
proof fn lemma_decode_step(units: Seq<u16>, i: int)
    requires
        0 <= i < units.len(),
    ensures
        decode_utf16_lossy(units.skip(i)) == (if is_high_surrogate(units[i]) && i + 1 < units.len()
            && is_low_surrogate(units[i + 1]) {
            seq![char_of_pair(units[i], units[i + 1])] + decode_utf16_lossy(units.skip(i + 2))
        } else if is_high_surrogate(units[i]) || is_low_surrogate(units[i]) {
            seq!['\u{FFFD}'] + decode_utf16_lossy(units.skip(i + 1))
        } else {
            seq![units[i] as u32 as char] + decode_utf16_lossy(units.skip(i + 1))
        }),
{
    let rest = units.skip(i);
    assert(rest.skip(1) =~= units.skip(i + 1));
    if i + 1 < units.len() {
        assert(rest.skip(2) =~= units.skip(i + 2));
    }
}

/// Reads the text out of a buffer that the platform filled with a wide
/// string: the units before the first NUL are decoded, what follows is
/// dropped. A unit that is invalid where it stands is read as U+FFFD.
pub fn wide_to_string(buffer: &[u16]) -> (text: String)
    ensures
        text@ == decode_utf16_lossy(buffer@.take(wide_len(buffer@) as int)),
{
    let len = wcslen(buffer);
    let ghost units = buffer@.take(len as int);
    let mut text = String::new();
    let mut i: usize = 0;
    assert(units.skip(0) =~= units);
    while i < len
        invariant
            i <= len <= buffer@.len(),
            units == buffer@.take(len as int),
            text@ + decode_utf16_lossy(units.skip(i as int)) == decode_utf16_lossy(units),
        decreases len - i,
    {
        let unit = buffer[i];
        proof {
            lemma_decode_step(units, i as int);
        }
        if 0xD800 <= unit && unit <= 0xDBFF && i + 1 < len && 0xDC00 <= buffer[i + 1] && buffer[i
            + 1] <= 0xDFFF {
            let high: u32 = (unit - 0xD800) as u32;
            let low: u32 = (buffer[i + 1] - 0xDC00) as u32;
            push_scalar(&mut text, 0x10000 + high * 0x400 + low);
            i = i + 2;
        } else if 0xD800 <= unit && unit <= 0xDFFF {
            push_char(&mut text, '\u{FFFD}');
            i = i + 1;
        } else {
            push_scalar(&mut text, unit as u32);
            i = i + 1;
        }
    }
    text
}

/// The size in bytes of a wide string, as the platform wants it with the
/// buffer: two bytes for each code unit, or nothing where that count does
/// not fit the platform's 32 bits.
pub fn wide_byte_len(wide: &[u16]) -> (bytes: Option<u32>)
    ensures
        bytes == (if 2 * wide@.len() <= u32::MAX {
            Some((2 * wide@.len()) as u32)
        } else {
            None
        }),
{
    let len = wide.len();
    if len <= 0x7FFF_FFFF {
        Some((len * 2) as u32)
    } else {
        None
    }
}

/// The code units of a character other than U+0000 hold no NUL, and they
/// decode to that character in front of whatever follows.
pub proof fn lemma_decode_char(c: char, rest: Seq<u16>)
    ensures
        decode_utf16_lossy(utf16_of_char(c) + rest) == seq![c] + decode_utf16_lossy(rest),
        c != '\0' ==> forall|i: int| 0 <= i < utf16_of_char(c).len() ==> utf16_of_char(c)[i] != NUL,
        1 <= utf16_of_char(c).len() <= 2,
{
    let scalar = c as u32;
    let units = utf16_of_char(c);
    let all = units + rest;
    vstd::utf8::char_is_scalar(c);
    vstd::utf8::char_u32_cast(c, scalar);
    if scalar < 0x10000 {
        assert(all.skip(1) =~= rest);
        if c != '\0' {
            vstd::utf8::char_u32_cast('\0', 0u32);
        }
    } else {
        assert(all.skip(2) =~= rest);
    }
}

/// Decoding undoes encoding.
pub proof fn lemma_decode_encode(text: Seq<char>)
    ensures
        decode_utf16_lossy(encode_utf16(text)) == text,
    decreases text.len(),
{
    if text.len() != 0 {
        lemma_decode_encode(text.drop_first());
        lemma_decode_char(text.first(), encode_utf16(text.drop_first()));
    }
}

/// The encoding of a text without U+0000 holds no NUL.
pub proof fn lemma_encode_without_nul(text: Seq<char>)
    requires
        forall|i: int| 0 <= i < text.len() ==> text[i] != '\0',
    ensures
        forall|i: int| 0 <= i < encode_utf16(text).len() ==> encode_utf16(text)[i] != NUL,
    decreases text.len(),
{
    if text.len() != 0 {
        let rest = text.drop_first();
        let head = utf16_of_char(text.first());
        let tail = encode_utf16(rest);
        assert forall|i: int| 0 <= i < rest.len() implies rest[i] != '\0' by {
            assert(rest[i] == text[i + 1]);
        }
        lemma_encode_without_nul(rest);
        lemma_decode_char(text.first(), Seq::empty());
        assert(text.first() == text[0]);
        assert forall|i: int| 0 <= i < (head + tail).len() implies (head + tail)[i] != NUL by {
            if i < head.len() {
                assert((head + tail)[i] == head[i]);
            } else {
                assert((head + tail)[i] == tail[i - head.len()]);
            }
        }
    }
}

/// A text without U+0000 survives the way through its wide string: reading
/// the wide string back gives the text again, and the wide string's length
/// up to the NUL is the number of the text's code units.
pub proof fn lemma_wide_round_trip(text: Seq<char>)
    requires
        forall|i: int| 0 <= i < text.len() ==> text[i] != '\0',
    ensures
        wide_len(wide_string(text)) == encode_utf16(text).len(),
        decode_utf16_lossy(wide_string(text).take(wide_len(wide_string(text)) as int)) == text,
{
    let units = encode_utf16(text);
    lemma_encode_without_nul(text);
    lemma_wide_len_is(wide_string(text), units.len() as int);
    assert(wide_string(text).take(units.len() as int) =~= units);
    lemma_decode_encode(text);
}

/// Whether the text holds no U+0000, which is what a wide string can hold
/// in full.
pub open spec fn without_nul(text: Seq<char>) -> bool {
    forall|i: int| 0 <= i < text.len() ==> text[i] != '\0'
}

/// The text up to its first U+0000, or all of it where it holds none.
pub open spec fn text_before_nul(text: Seq<char>) -> Seq<char>
    decreases text.len(),
{
    if text.len() == 0 || text.first() == '\0' {
        Seq::empty()
    } else {
        seq![text.first()] + text_before_nul(text.drop_first())
    }
}

/// The text up to its first U+0000 holds no U+0000, and it is the text
/// itself exactly where the text holds none.
pub proof fn lemma_text_before_nul(text: Seq<char>)
    ensures
        without_nul(text_before_nul(text)),
        without_nul(text) <==> text_before_nul(text) == text,
    decreases text.len(),
{
    if text.len() != 0 && text.first() != '\0' {
        let rest = text.drop_first();
        let cut = text_before_nul(rest);
        lemma_text_before_nul(rest);
        assert forall|i: int| 0 <= i < text_before_nul(text).len() implies text_before_nul(text)[i]
            != '\0' by {
            if i > 0 {
                assert(text_before_nul(text)[i] == cut[i - 1]);
            }
        }
        if without_nul(text) {
            assert forall|i: int| 0 <= i < rest.len() implies rest[i] != '\0' by {
                assert(rest[i] == text[i + 1]);
            }
            assert(seq![text.first()] + rest =~= text);
        }
    } else if text.len() != 0 {
        assert(text[0] == '\0');
    } else {
        assert(text_before_nul(text) =~= text);
    }
}

/// Units without a NUL in front of others add their number to the wide
/// length.
proof fn lemma_wide_len_behind(head: Seq<u16>, rest: Seq<u16>)
    requires
        forall|i: int| 0 <= i < head.len() ==> head[i] != NUL,
    ensures
        wide_len(head + rest) == head.len() + wide_len(rest),
{
    lemma_wide_len(rest);
    let all = head + rest;
    let n = head.len() + wide_len(rest);
    assert forall|i: int| 0 <= i < n implies all[i] != NUL by {
        if i < head.len() {
            assert(all[i] == head[i]);
        } else {
            assert(all[i] == rest[i - head.len()]);
        }
    }
    if n < all.len() {
        assert(all[n as int] == rest[wide_len(rest) as int]);
    }
    lemma_wide_len_is(all, n as int);
}

/// A wide string ends at the first U+0000 of its text: up to its first NUL
/// it holds the code units of the text before that character.
pub proof fn lemma_wide_string_cut(text: Seq<char>)
    ensures
        wide_string(text).take(wide_len(wide_string(text)) as int) == encode_utf16(
            text_before_nul(text),
        ),
    decreases text.len(),
{
    let wide = wide_string(text);
    if text.len() == 0 {
        assert(wide.take(0) =~= encode_utf16(text_before_nul(text)));
    } else if text.first() == '\0' {
        assert(utf16_of_char('\0') =~= seq![NUL]);
        assert(wide[0] == NUL);
        assert(wide.take(0) =~= encode_utf16(text_before_nul(text)));
    } else {
        let rest = text.drop_first();
        let head = utf16_of_char(text.first());
        let behind = wide_string(rest);
        lemma_decode_char(text.first(), Seq::empty());
        lemma_wide_string_cut(rest);
        lemma_wide_len_behind(head, behind);
        lemma_wide_len(behind);
        assert(wide =~= head + behind);
        assert((head + behind).take((head.len() + wide_len(behind)) as int) =~= head
            + behind.take(wide_len(behind) as int));
        let cut = seq![text.first()] + text_before_nul(rest);
        assert(cut.drop_first() =~= text_before_nul(rest));
        assert(encode_utf16(cut) =~= head + encode_utf16(text_before_nul(rest)));
    }
}

/// What is read back out of the wide string of a text: the text up to its
/// first U+0000. A text without U+0000 is read back whole; a text with one
/// is cut there, and its wide string shows that by a NUL before its end.
pub proof fn lemma_wide_read_back(text: Seq<char>)
    ensures
        decode_utf16_lossy(wide_string(text).take(wide_len(wide_string(text)) as int))
            == text_before_nul(text),
        without_nul(text) ==> decode_utf16_lossy(
            wide_string(text).take(wide_len(wide_string(text)) as int),
        ) == text,
        without_nul(text) <==> wide_len(wide_string(text)) + 1 == wide_string(text).len(),
{
    let wide = wide_string(text);
    lemma_wide_string_cut(text);
    lemma_text_before_nul(text);
    lemma_decode_encode(text_before_nul(text));
    lemma_decode_encode(text);
    lemma_wide_len(wide);
    if wide_len(wide) + 1 == wide.len() {
        assert(wide.take(wide_len(wide) as int) =~= encode_utf16(text));
    }
    if without_nul(text) {
        assert(wide.take(wide_len(wide) as int).len() == encode_utf16(text).len());
    }
}

} // verus!
