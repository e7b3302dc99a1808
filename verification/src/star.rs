//! Star records and the framing of their sexagesimal coordinates.

use vstd::prelude::*;
use vstd::string::{StrSliceExecFns, StringSliceAdditionalSpecFns};
use vstd::utf8::{
    encode_utf8, encode_utf8_decode_utf8, encode_utf8_valid_utf8, is_ascii_chars,
    is_ascii_chars_encode_utf8, is_char_boundary, is_char_boundary_iff_not_is_continuation_byte,
    is_char_boundary_start_end_of_seq, is_continuation_byte, valid_utf8_split,
};

verus! {

/// The three fields of a coordinate written in sixtieths, as they stand in
/// the text: the whole part (hours or degrees), the minutes, the seconds.
#[derive(Debug, Clone, Copy)]
pub struct Sexagesimal<'a> {
    pub whole: &'a str,
    pub minutes: &'a str,
    pub seconds: &'a str,
}

/// The bytes of `text` from `from` up to `to`, as text of their own.
fn slice<'a>(text: &'a str, from: usize, to: usize) -> (part: &'a str)
    requires
        from <= to <= text.spec_bytes().len(),
        is_char_boundary(text.spec_bytes(), from as int),
        is_char_boundary(text.spec_bytes(), to as int),
    ensures
        part.spec_bytes() == text.spec_bytes().subrange(from as int, to as int),
{
    let ghost bytes = text.spec_bytes();
    proof {
        encode_utf8_valid_utf8(text@);
    }
    let (head, _) = text.split_at(to);
    proof {
        let cut = head.spec_bytes();
        valid_utf8_split(bytes, to as int);
        if from < to {
            is_char_boundary_iff_not_is_continuation_byte(bytes, from as int);
            is_char_boundary_iff_not_is_continuation_byte(cut, from as int);
        } else {
            is_char_boundary_start_end_of_seq(cut);
        }
    }
    let (_, part) = head.split_at(from);
    assert(part.spec_bytes() =~= bytes.subrange(from as int, to as int));
    part
}

/// A right ascension can be cut at its fixed columns: it is long enough, and
/// no cut falls inside a character.
pub open spec fn ra_framed(bytes: Seq<u8>) -> bool {
    &&& bytes.len() >= 12
    &&& is_char_boundary(bytes, 2)
    &&& is_char_boundary(bytes, 4)
    &&& is_char_boundary(bytes, 6)
    &&& is_char_boundary(bytes, 8)
    &&& is_char_boundary(bytes, 12)
}

/// `f` holds the fields of `text` that stand at the fixed columns.
pub open spec fn cut_at_columns(text: Seq<char>, f: Sexagesimal) -> bool {
    &&& f.whole.spec_bytes() == encode_utf8(text).subrange(0, 2)
    &&& f.minutes.spec_bytes() == encode_utf8(text).subrange(4, 6)
    &&& f.seconds.spec_bytes() == encode_utf8(text).subrange(8, 12)
}

/// Cuts a right ascension written as in `00h 08m 23.3s` into its fields.
///
/// The fields stand at fixed columns, counted in bytes: hours in the first
/// two, minutes in the fifth and sixth, seconds in the ninth to twelfth.
/// What stands between and behind them is not looked at, nor whether the
/// fields hold numbers. A text that cannot be cut there gives `None`.
pub fn right_ascension_fields<'a>(text: &'a str) -> (fields: Option<Sexagesimal<'a>>)
    ensures
        fields is Some <==> ra_framed(encode_utf8(text@)),
        fields matches Some(f) ==> cut_at_columns(text@, f),
{
    proof {
        encode_utf8_valid_utf8(text@);
        is_char_boundary_start_end_of_seq(text.spec_bytes());
    }
    if text.as_bytes().len() < 12 {
        return None;
    }
    if !(text.is_char_boundary(2) && text.is_char_boundary(4) && text.is_char_boundary(6)
        && text.is_char_boundary(8) && text.is_char_boundary(12)) {
        return None;
    }
    Some(
        Sexagesimal {
            whole: slice(text, 0, 2),
            minutes: slice(text, 4, 6),
            seconds: slice(text, 8, 12),
        },
    )
}

/// In a text of plain ASCII every byte is a character of its own, so the
/// text can be cut wherever it is long enough.
proof fn lemma_ascii_boundary(text: Seq<char>, index: int)
    requires
        is_ascii_chars(text),
        0 <= index <= text.len(),
    ensures
        is_char_boundary(encode_utf8(text), index),
{
    let bytes = encode_utf8(text);
    encode_utf8_valid_utf8(text);
    is_ascii_chars_encode_utf8(text);
    if index < text.len() {
        let b = bytes[index];
        assert(b == text[index] as u8);
        assert(!is_continuation_byte(b));
        is_char_boundary_iff_not_is_continuation_byte(bytes, index);
    } else {
        is_char_boundary_start_end_of_seq(bytes);
    }
}

/// In a text of plain ASCII the bytes from `from` up to `to` are the
/// characters that stand there.
proof fn lemma_ascii_part(text: Seq<char>, part: Seq<char>, from: int, to: int)
    requires
        is_ascii_chars(text),
        0 <= from <= to <= text.len(),
        encode_utf8(part) == encode_utf8(text).subrange(from, to),
    ensures
        part == text.subrange(from, to),
{
    let there = text.subrange(from, to);
    is_ascii_chars_encode_utf8(text);
    is_ascii_chars_encode_utf8(there);
    assert(encode_utf8(there) =~= encode_utf8(text).subrange(from, to));
    encode_utf8_decode_utf8(there);
    encode_utf8_decode_utf8(part);
}

/// A right ascension of plain ASCII that is twelve characters long or
/// longer can be cut, and its fields are the characters at the columns: the
/// first two, the fifth and sixth, the ninth to twelfth.
pub proof fn lemma_columns_of_ascii(text: Seq<char>, f: Sexagesimal)
    requires
        is_ascii_chars(text),
        text.len() >= 12,
    ensures
        ra_framed(encode_utf8(text)),
        cut_at_columns(text, f) ==> {
            &&& f.whole@ == text.subrange(0, 2)
            &&& f.minutes@ == text.subrange(4, 6)
            &&& f.seconds@ == text.subrange(8, 12)
        },
{
    is_ascii_chars_encode_utf8(text);
    lemma_ascii_boundary(text, 2);
    lemma_ascii_boundary(text, 4);
    lemma_ascii_boundary(text, 6);
    lemma_ascii_boundary(text, 8);
    lemma_ascii_boundary(text, 12);
    if cut_at_columns(text, f) {
        lemma_ascii_part(text, f.whole@, 0, 2);
        lemma_ascii_part(text, f.minutes@, 4, 6);
        lemma_ascii_part(text, f.seconds@, 8, 12);
    }
}

/// The characters of `text`, one by one.
fn characters(text: &str) -> (chars: Vec<char>)
    ensures
        chars@ == text@,
{
    let mut chars: Vec<char> = Vec::new();
    for c in it: text.chars()
        invariant
            it.seq() == text@,
            chars@ == text@.take(it.index()),
    {
        chars.push(c);
    }
    assert(chars@ =~= text@);
    chars
}

/// A character that parts the fields of a declination: a sign for degrees,
/// minutes or seconds of arc, or white space.
pub open spec fn is_gap(c: char) -> bool {
    ||| c == '\u{00B0}'
    ||| c == '\u{2032}'
    ||| c == '\u{2033}'
    ||| is_white_space(c)
}

/// The characters that Unicode lists as white space.
pub open spec fn is_white_space(c: char) -> bool {
    ||| '\u{0009}' <= c <= '\u{000D}'
    ||| c == '\u{0020}'
    ||| c == '\u{0085}'
    ||| c == '\u{00A0}'
    ||| c == '\u{1680}'
    ||| '\u{2000}' <= c <= '\u{200A}'
    ||| c == '\u{2028}'
    ||| c == '\u{2029}'
    ||| c == '\u{202F}'
    ||| c == '\u{205F}'
    ||| c == '\u{3000}'
}

/// Whether `c` parts the fields of a declination.
pub fn is_separator(c: char) -> (b: bool)
    ensures
        b == is_gap(c),
{
    c == '\u{00B0}' || c == '\u{2032}' || c == '\u{2033}' || ('\u{0009}' <= c && c <= '\u{000D}')
        || c == '\u{0020}' || c == '\u{0085}' || c == '\u{00A0}' || c == '\u{1680}' || ('\u{2000}'
        <= c && c <= '\u{200A}') || c == '\u{2028}' || c == '\u{2029}' || c == '\u{202F}' || c
        == '\u{205F}' || c == '\u{3000}'
}

/// Where the run of gaps that begins at `from` ends.
pub open spec fn skip_gaps(s: Seq<char>, from: int) -> int
    decreases s.len() - from,
{
    if 0 <= from < s.len() && is_gap(s[from]) {
        skip_gaps(s, from + 1)
    } else {
        from
    }
}

/// Where the run of other characters that begins at `from` ends.
pub open spec fn skip_word(s: Seq<char>, from: int) -> int
    decreases s.len() - from,
{
    if 0 <= from < s.len() && !is_gap(s[from]) {
        skip_word(s, from + 1)
    } else {
        from
    }
}

/// Where field number `k` of `s` begins, counting from zero; the length of
/// `s` when it has no such field.
pub open spec fn field_start(s: Seq<char>, k: nat) -> int
    decreases k,
{
    if k == 0 {
        skip_gaps(s, 0)
    } else {
        skip_gaps(s, skip_word(s, field_start(s, (k - 1) as nat)))
    }
}

/// Where field number `k` of `s` ends.
pub open spec fn field_end(s: Seq<char>, k: nat) -> int {
    skip_word(s, field_start(s, k))
}

/// Field number `k` of `s`.
pub open spec fn field(s: Seq<char>, k: nat) -> Seq<char> {
    s.subrange(field_start(s, k), field_end(s, k))
}

/// A run of gaps ends inside the text or at its end, holds nothing but gaps,
/// and stops before a character that is none.
proof fn lemma_skip_gaps(s: Seq<char>, from: int)
    requires
        0 <= from <= s.len(),
    ensures
        from <= skip_gaps(s, from) <= s.len(),
        forall|i: int| from <= i < skip_gaps(s, from) ==> is_gap(s[i]),
        skip_gaps(s, from) < s.len() ==> !is_gap(s[skip_gaps(s, from)]),
    decreases s.len() - from,
{
    if from < s.len() && is_gap(s[from]) {
        lemma_skip_gaps(s, from + 1);
    }
}

/// A run of other characters ends inside the text or at its end, holds no
/// gap, and stops before a gap.
proof fn lemma_skip_word(s: Seq<char>, from: int)
    requires
        0 <= from <= s.len(),
    ensures
        from <= skip_word(s, from) <= s.len(),
        forall|i: int| from <= i < skip_word(s, from) ==> !is_gap(s[i]),
        skip_word(s, from) < s.len() ==> is_gap(s[skip_word(s, from)]),
    decreases s.len() - from,
{
    if from < s.len() && !is_gap(s[from]) {
        lemma_skip_word(s, from + 1);
    }
}

/// The fields of a text are its words: a field lies inside the text and
/// holds no gap; a field that the text has is not empty, begins at the start
/// of the text or behind a gap, and ends at the end of the text or before a
/// gap.
pub proof fn lemma_fields_are_words(s: Seq<char>, k: nat)
    ensures
        0 <= field_start(s, k) <= field_end(s, k) <= s.len(),
        forall|i: int| field_start(s, k) <= i < field_end(s, k) ==> !is_gap(s[i]),
        field_start(s, k) < s.len() ==> field_start(s, k) < field_end(s, k),
        0 < field_start(s, k) < s.len() ==> is_gap(s[field_start(s, k) - 1]),
        field_end(s, k) < s.len() ==> is_gap(s[field_end(s, k)]),
    decreases k,
{
    if k == 0 {
        lemma_skip_gaps(s, 0);
    } else {
        lemma_fields_are_words(s, (k - 1) as nat);
        lemma_skip_gaps(s, field_end(s, (k - 1) as nat));
    }
    lemma_skip_word(s, field_start(s, k));
}

/// A text that has a field has every field before it, and fields follow one
/// another without overlap.
pub proof fn lemma_fields_in_order(s: Seq<char>, k: nat)
    ensures
        field_end(s, k) <= field_start(s, k + 1),
        field_start(s, k + 1) < s.len() ==> field_start(s, k) < s.len(),
{
    lemma_fields_are_words(s, k);
    lemma_skip_gaps(s, field_end(s, k));
}

fn past_gaps(chars: &Vec<char>, from: usize) -> (to: usize)
    requires
        from <= chars@.len(),
    ensures
        from <= to <= chars@.len(),
        to == skip_gaps(chars@, from as int),
{
    let mut i: usize = from;
    while i < chars.len() && is_separator(chars[i])
        invariant
            from <= i <= chars@.len(),
            skip_gaps(chars@, from as int) == skip_gaps(chars@, i as int),
        decreases chars@.len() - i,
    {
        i += 1;
    }
    i
}

fn past_word(chars: &Vec<char>, from: usize) -> (to: usize)
    requires
        from <= chars@.len(),
    ensures
        from <= to <= chars@.len(),
        to == skip_word(chars@, from as int),
{
    let mut i: usize = from;
    while i < chars.len() && !is_separator(chars[i])
        invariant
            from <= i <= chars@.len(),
            skip_word(chars@, from as int) == skip_word(chars@, i as int),
        decreases chars@.len() - i,
    {
        i += 1;
    }
    i
}

/// A declination has its three fields.
pub open spec fn dec_framed(text: Seq<char>) -> bool {
    field_start(text, 2) < text.len()
}

/// `f` holds the first three fields of `text`.
pub open spec fn cut_at_gaps(text: Seq<char>, f: Sexagesimal) -> bool {
    &&& f.whole@ == field(text, 0)
    &&& f.minutes@ == field(text, 1)
    &&& f.seconds@ == field(text, 2)
}

/// Cuts a declination written as in `+45° 13′ 45″` into its fields.
///
/// The signs for degrees, minutes and seconds of arc count as blanks. The
/// first three runs of other characters are the fields; what follows them is
/// not looked at, nor whether the fields hold numbers. A text with fewer
/// than three such runs gives `None`.
pub fn declination_fields<'a>(text: &'a str) -> (fields: Option<Sexagesimal<'a>>)
    ensures
        fields is Some <==> dec_framed(text@),
        fields matches Some(f) ==> cut_at_gaps(text@, f),
{
    let chars = characters(text);
    let whole_from = past_gaps(&chars, 0);
    let whole_to = past_word(&chars, whole_from);
    let minutes_from = past_gaps(&chars, whole_to);
    let minutes_to = past_word(&chars, minutes_from);
    let seconds_from = past_gaps(&chars, minutes_to);
    let seconds_to = past_word(&chars, seconds_from);
    proof {
        reveal_with_fuel(field_start, 3);
    }
    if seconds_from >= chars.len() {
        return None;
    }
    Some(
        Sexagesimal {
            whole: text.substring_char(whole_from, whole_to),
            minutes: text.substring_char(minutes_from, minutes_to),
            seconds: text.substring_char(seconds_from, seconds_to),
        },
    )
}

/// One star as the catalogue file lists it. Every entry is kept as text.
#[derive(Debug, Clone)]
pub struct StarData {
    /// Declination, as in `+45° 13′ 45″`.
    pub dec: String,
    /// Number in the Bright Star Catalogue.
    pub hr: String,
    /// Colour temperature.
    pub k: Option<String>,
    /// Right ascension, as in `00h 08m 23.3s`.
    pub ra: String,
    /// Visual magnitude.
    pub v: String,
    /// The constellation the star belongs to.
    pub constellation: Option<String>,
    /// Flamsteed number.
    pub f: Option<String>,
    /// Bayer letter.
    pub bayer_designation: Option<String>,
    /// Proper name.
    pub name: Option<String>,
}

/// The coordinate fields of a star, still as text.
#[derive(Debug, Clone, Copy)]
pub struct StarFields<'a> {
    pub ra: Sexagesimal<'a>,
    pub dec: Sexagesimal<'a>,
}

/// Cuts both coordinates of a star into their fields: the right ascension
/// at its fixed columns, the declination at its gaps. `None` when either
/// cannot be cut.
pub fn star_position<'a>(star_data: &'a StarData) -> (fields: Option<StarFields<'a>>)
    ensures
        fields is Some <==> ra_framed(encode_utf8(star_data.ra@)) && dec_framed(star_data.dec@),
        fields matches Some(f) ==> cut_at_columns(star_data.ra@, f.ra) && cut_at_gaps(
            star_data.dec@,
            f.dec,
        ),
{
    let ra = match right_ascension_fields(star_data.ra.as_str()) {
        Some(f) => f,
        None => {
            return None;
        },
    };
    let dec = match declination_fields(star_data.dec.as_str()) {
        Some(f) => f,
        None => {
            return None;
        },
    };
    Some(StarFields { ra, dec })
}

} // verus!
