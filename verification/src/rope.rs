//! Document text: ropes, and the offsets into them.
//!
//! A document's text is a `ropey::Rope`. Tree-sitter counts in bytes, selections count in
//! characters and previews count in lines; the functions here move between the three.

use vstd::prelude::*;
use vstd::utf8::*;
use ropey::Rope;

verus! {

/// `ropey::Rope`, a text. Its characters are [`rope_text`].
#[verifier::external_type_specification]
#[verifier::external_body]
pub struct ExRope(Rope);

/// The characters that a rope holds, in order.
pub uninterp spec fn rope_text(rope: Rope) -> Seq<char>;

/// The number of bytes of a text in UTF-8.
pub open spec fn byte_len(text: Seq<char>) -> nat {
    encode_utf8(text).len()
}

/// The byte at which character `c` of a text starts.
pub open spec fn byte_of_char(text: Seq<char>, c: int) -> nat {
    byte_len(text.take(c))
}

/// The character that byte `b` of a text belongs to, and one past the last for the byte one past
/// the last.
pub open spec fn char_of_byte(text: Seq<char>, b: int) -> nat
    decreases text.len(),
{
    if text.len() == 0 || b < encode_scalar(text[0] as u32).len() {
        0
    } else {
        1 + char_of_byte(text.drop_first(), b - encode_scalar(text[0] as u32).len())
    }
}

/// The number of line feeds in a text.
pub open spec fn line_feeds(text: Seq<char>) -> nat
    decreases text.len(),
{
    if text.len() == 0 {
        0
    } else {
        line_feeds(text.drop_last()) + if text.last() == '\n' {
            1nat
        } else {
            0nat
        }
    }
}

/// The line, counted from zero, that character `c` of a text is on.
pub open spec fn line_of_char(text: Seq<char>, c: int) -> nat {
    line_feeds(text.take(c))
}

/// `Rope::len_chars`: the number of characters.
pub assume_specification[ Rope::len_chars ](rope: &Rope) -> (n: usize)
    ensures
        n == rope_text(*rope).len(),
;

/// `Rope::len_bytes`: the number of bytes in UTF-8.
pub assume_specification[ Rope::len_bytes ](rope: &Rope) -> (n: usize)
    ensures
        n == byte_len(rope_text(*rope)),
;

/// `Rope::byte_to_char`: the character that a byte belongs to. It panics past the end.
pub assume_specification[ Rope::byte_to_char ](rope: &Rope, byte_idx: usize) -> (c: usize)
    requires
        byte_idx <= byte_len(rope_text(*rope)),
    ensures
        c == char_of_byte(rope_text(*rope), byte_idx as int),
;

/// `Rope::char_to_byte`: the byte at which a character starts. It panics past the end.
pub assume_specification[ Rope::char_to_byte ](rope: &Rope, char_idx: usize) -> (b: usize)
    requires
        char_idx <= rope_text(*rope).len(),
    ensures
        b == byte_of_char(rope_text(*rope), char_idx as int),
;

/// `Rope::char_to_line`: the number of line breaks before a character. Built without its
/// `cr_lines` and `unicode_lines` features, ropey takes the line feed for the only line break.
/// It panics past the end.
pub assume_specification[ Rope::char_to_line ](rope: &Rope, char_idx: usize) -> (line: usize)
    requires
        char_idx <= rope_text(*rope).len(),
    ensures
        line == line_of_char(rope_text(*rope), char_idx as int),
;

/// `Rope::slice` and the slice's `to_string`: the characters from `start` up to `end`. It panics
/// where the range is reversed or reaches past the end.
#[verifier::external_body]
pub(crate) fn slice_to_string(rope: &Rope, start: usize, end: usize) -> (s: String)
    requires
        start <= end <= rope_text(*rope).len(),
    ensures
        s@ == rope_text(*rope).subrange(start as int, end as int),
{
    rope.slice(start..end).to_string()
}

/// A byte of a text belongs to one of its characters, or is the byte one past the last.
pub proof fn char_of_byte_in_text(text: Seq<char>, b: int)
    requires
        b <= byte_len(text),
    ensures
        char_of_byte(text, b) <= text.len(),
        byte_len(text) <= b ==> char_of_byte(text, b) == text.len(),
    decreases text.len(),
{
    if text.len() > 0 {
        let width = encode_scalar(text[0] as u32).len() as int;
        if b >= width {
            char_of_byte_in_text(text.drop_first(), b - width);
        }
    }
}

/// A later byte never belongs to an earlier character.
pub proof fn char_of_byte_ordered(text: Seq<char>, a: int, b: int)
    requires
        a <= b,
    ensures
        char_of_byte(text, a) <= char_of_byte(text, b),
    decreases text.len(),
{
    if text.len() > 0 {
        let width = encode_scalar(text[0] as u32).len() as int;
        if a >= width {
            char_of_byte_ordered(text.drop_first(), a - width, b - width);
        }
    }
}

/// The byte at which a character starts belongs to that character: going from characters to
/// bytes and back changes nothing.
pub proof fn char_of_byte_of_char(text: Seq<char>, c: int)
    requires
        0 <= c <= text.len(),
    ensures
        byte_of_char(text, c) <= byte_len(text),
        char_of_byte(text, byte_of_char(text, c) as int) == c,
    decreases text.len(),
{
    if text.len() > 0 {
        if c == 0 {
            assert(text.take(0) =~= Seq::<char>::empty());
        } else {
            assert(text.take(c)[0] == text[0]);
            assert(text.take(c).drop_first() =~= text.drop_first().take(c - 1));
            char_of_byte_of_char(text.drop_first(), c - 1);
        }
    } else {
        assert(text.take(c) =~= text);
    }
}

/// A byte lies within the character that it belongs to: that character starts no later than the
/// byte, and the next one starts after it.
pub proof fn byte_within_char(text: Seq<char>, b: int)
    requires
        0 <= b,
    ensures
        byte_of_char(text, char_of_byte(text, b) as int) <= b,
        char_of_byte(text, b) < text.len() ==> b < byte_of_char(
            text,
            char_of_byte(text, b) as int + 1,
        ),
    decreases text.len(),
{
    if text.len() == 0 {
        assert(text.take(0) =~= Seq::<char>::empty());
    } else {
        let rest = text.drop_first();
        let width = encode_scalar(text[0] as u32).len() as int;
        assert(rest.take(0) =~= Seq::<char>::empty());
        assert(text.take(0) =~= Seq::<char>::empty());
        assert(text.take(1)[0] == text[0]);
        assert(text.take(1).drop_first() =~= rest.take(0));
        if b >= width {
            let k = char_of_byte(rest, b - width) as int;
            byte_within_char(rest, b - width);
            char_of_byte_bounded(rest, b - width);
            assert(text.take(k + 1)[0] == text[0]);
            assert(text.take(k + 1).drop_first() =~= rest.take(k));
            if k < rest.len() {
                assert(text.take(k + 2)[0] == text[0]);
                assert(text.take(k + 2).drop_first() =~= rest.take(k + 1));
            }
        }
    }
}

/// No byte belongs to a character past the end.
pub proof fn char_of_byte_bounded(text: Seq<char>, b: int)
    ensures
        char_of_byte(text, b) <= text.len(),
    decreases text.len(),
{
    if text.len() > 0 && b >= encode_scalar(text[0] as u32).len() {
        char_of_byte_bounded(text.drop_first(), b - encode_scalar(text[0] as u32).len());
    }
}

/// A later character starts no earlier.
pub proof fn byte_of_char_ordered(text: Seq<char>, a: int, b: int)
    requires
        0 <= a <= b <= text.len(),
    ensures
        byte_of_char(text, a) <= byte_of_char(text, b) <= byte_len(text),
    decreases text.len(),
{
    char_of_byte_of_char(text, b);
    if a > 0 {
        assert(text.take(a)[0] == text[0]);
        assert(text.take(b)[0] == text[0]);
        assert(text.take(a).drop_first() =~= text.drop_first().take(a - 1));
        assert(text.take(b).drop_first() =~= text.drop_first().take(b - 1));
        byte_of_char_ordered(text.drop_first(), a - 1, b - 1);
    } else {
        assert(text.take(0) =~= Seq::<char>::empty());
    }
}

/// A later character is on no earlier line.
pub proof fn line_of_char_ordered(text: Seq<char>, a: int, b: int)
    requires
        0 <= a <= b <= text.len(),
    ensures
        line_of_char(text, a) <= line_of_char(text, b),
    decreases b,
{
    if a < b {
        assert(text.take(b).drop_last() =~= text.take(b - 1));
        line_of_char_ordered(text, a, b - 1);
    }
}

/// Whether byte `b` of a text is one of those that character `c` is encoded in. The byte one past
/// the last belongs to the character one past the last.
pub open spec fn encodes(text: Seq<char>, b: int, c: int) -> bool {
    &&& 0 <= c <= text.len()
    &&& encode_utf8(text.take(c)).len() <= b
    &&& c < text.len() ==> b < encode_utf8(text.take(c + 1)).len()
}

/// A byte belongs to the one character that it is part of the encoding of.
pub proof fn byte_belongs_to_one_char(text: Seq<char>, b: int, c: int)
    requires
        encodes(text, b, c),
    ensures
        char_of_byte(text, b) == c,
{
    let k = char_of_byte(text, b) as int;
    byte_within_char(text, b);
    char_of_byte_bounded(text, b);
    if c < k {
        byte_of_char_ordered(text, c + 1, k);
    } else if k < c {
        byte_of_char_ordered(text, k + 1, c);
    }
}

/// A character starts at the byte after the encoding of those before it.
pub proof fn char_starts_after_encoding(text: Seq<char>, c: int)
    requires
        0 <= c <= text.len(),
    ensures
        byte_of_char(text, c) == encode_utf8(text.take(c)).len(),
        byte_len(text) == encode_utf8(text).len(),
{
}

/// The line of a character is the number of line feeds before it.
pub proof fn line_counts_line_feeds(text: Seq<char>, c: int)
    requires
        0 <= c <= text.len(),
    ensures
        line_of_char(text, c) == text.take(c).filter(|ch: char| ch == '\n').len(),
        line_feeds(text.take(c)) == text.take(c).filter(|ch: char| ch == '\n').len(),
    decreases c,
{
    let feed = |ch: char| ch == '\n';
    reveal(Seq::filter);
    if c > 0 {
        line_counts_line_feeds(text, c - 1);
        assert(text.take(c).drop_last() =~= text.take(c - 1));
    }
}

} // verus!
