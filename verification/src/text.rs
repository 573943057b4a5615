//! Text normalisation shared by the listing rules.
//!
//! Case folding, trimming, replacement and integer parsing are done by the
//! standard library. Their results are described here over sequences of
//! characters so that the rules built on them can be stated exactly.

use vstd::prelude::*;

verus! {

/// The lowercase form that `str::to_lowercase` gives to a text.
pub uninterp spec fn lowercase(text: Seq<char>) -> Seq<char>;

/// What `str::trim` leaves of a text once the whitespace at both ends is gone.
pub uninterp spec fn trimmed(text: Seq<char>) -> Seq<char>;

/// A text in which every `from` has become `to`.
pub open spec fn replaced(text: Seq<char>, from: char, to: char) -> Seq<char> {
    text.map_values(
        |c: char|
            if c == from {
                to
            } else {
                c
            },
    )
}

/// Whether a character is one of the ASCII digits `0` to `9`.
pub open spec fn is_decimal_digit(c: char) -> bool {
    0x30 <= c as u32 <= 0x39
}

/// The number that a run of ASCII digits spells in base ten.
pub open spec fn decimal_value(digits: Seq<char>) -> int
    decreases digits.len(),
{
    if digits.len() == 0 {
        0
    } else {
        10 * decimal_value(digits.drop_last()) + (digits.last() as u32 - 0x30)
    }
}

/// Whether a text is a non-empty run of ASCII digits.
pub open spec fn is_decimal_run(digits: Seq<char>) -> bool {
    &&& digits.len() > 0
    &&& forall|i: int| 0 <= i < digits.len() ==> is_decimal_digit(#[trigger] digits[i])
}

/// The 32-bit integer that a text spells: an optional `+` or `-`, then one
/// or more ASCII digits and nothing else, with a value that fits. Any other
/// text spells none.
pub open spec fn parsed_i32(text: Seq<char>) -> Option<i32> {
    let signed = text.len() > 0 && (text[0] == '-' || text[0] == '+');
    let digits = if signed {
        text.skip(1)
    } else {
        text
    };
    let magnitude = decimal_value(digits);
    let value = if text.len() > 0 && text[0] == '-' {
        -magnitude
    } else {
        magnitude
    };
    if is_decimal_run(digits) && i32::MIN <= value <= i32::MAX {
        Some(value as i32)
    } else {
        None
    }
}

/// The characters of an optional text.
pub open spec fn optional_text(text: Option<String>) -> Option<Seq<char>> {
    match text {
        Some(t) => Some(t@),
        None => None,
    }
}

/// An outcome whose failure is put in the store's words, taken by the
/// characters of those words.
pub open spec fn reported<T>(outcome: Result<T, String>) -> Result<T, Seq<char>> {
    match outcome {
        Ok(value) => Ok(value),
        Err(words) => Err(words@),
    }
}

/// The form in which a free text becomes one segment of a path: trimmed,
/// spaces turned into hyphens, then lowercased.
pub open spec fn slug_of(text: Seq<char>) -> Seq<char> {
    lowercase(replaced(trimmed(text), ' ', '-'))
}

/// Calls `str::to_lowercase`. The result is taken to be a function of the
/// text alone, named [`lowercase`]; nothing more is claimed of it.
#[verifier::external_body]
pub(crate) fn to_lowercase(text: &str) -> (lowered: String)
    ensures
        lowered@ == lowercase(text@),
{
    text.to_lowercase()
}

/// Calls `str::trim`. The result is taken to be a function of the text
/// alone, named [`trimmed`]; nothing more is claimed of it.
#[verifier::external_body]
pub(crate) fn trim(text: &str) -> (inner: &str)
    ensures
        inner@ == trimmed(text@),
{
    text.trim()
}

/// Calls `str::replace` with a character as the pattern and a replacement
/// of one character: every occurrence of `from` is taken to become that
/// character, and every other character to stay where it is.
#[verifier::external_body]
pub(crate) fn replace(text: &str, from: char, to: &str) -> (out: String)
    requires
        to@.len() == 1,
    ensures
        out@ == replaced(text@, from, to@[0]),
{
    text.replace(from, to)
}

/// Calls `str::parse::<i32>` and keeps the number when there is one. The
/// standard library documents the accepted texts as an optional sign
/// followed by decimal digits only, which [`parsed_i32`] writes out.
#[verifier::external_body]
pub(crate) fn parse_i32(text: &str) -> (number: Option<i32>)
    ensures
        number == parsed_i32(text@),
{
    text.parse::<i32>().ok()
}

/// Turns a free text into a path segment.
pub fn slug(text: &str) -> (segment: String)
    ensures
        segment@ == slug_of(text@),
{
    let inner = trim(text);
    proof {
        reveal_strlit("-");
    }
    let hyphenated = replace(inner, ' ', "-");
    to_lowercase(hyphenated.as_str())
}

/// A path segment is the lowercase form of a text that holds no space:
/// every space was turned into a hyphen before.
pub proof fn slug_is_made_without_spaces(text: Seq<char>)
    ensures
        slug_of(text) == lowercase(replaced(trimmed(text), ' ', '-')),
        !replaced(trimmed(text), ' ', '-').contains(' '),
        replaced(trimmed(text), ' ', '-').len() == trimmed(text).len(),
{
}

} // verus!
