//! Transliteration of Persian-Indic digits (U+06F0..U+06F9) to ASCII digits.
use vstd::prelude::*;
use vstd::std_specs::iter::IteratorSpec;

verus! {

/// Code point of the Persian-Indic digit zero.
pub const FARSI_ZERO: u32 = 0x06F0;

/// Code point of the Persian-Indic digit nine.
pub const FARSI_NINE: u32 = 0x06F9;

pub open spec fn is_farsi_digit(c: char) -> bool {
    FARSI_ZERO <= c as u32 <= FARSI_NINE
}

/// The ASCII digit whose value is `d`.
pub open spec fn ascii_digit(d: int) -> char
    recommends
        0 <= d <= 9,
{
    ((0x30 + d) as u8) as char
}

/// The image of one character: a Persian-Indic digit becomes the ASCII digit of
/// the same value, every other character stays as it is.
pub open spec fn transliterated_char(c: char) -> char {
    if is_farsi_digit(c) {
        ascii_digit(c as u32 - FARSI_ZERO)
    } else {
        c
    }
}

/// The image of a text, character by character.
pub open spec fn transliterated(s: Seq<char>) -> Seq<char> {
    s.map_values(|c: char| transliterated_char(c))
}

/// Relies on String::push: appends one character to the end of the string.
#[verifier::external_body]
fn push_char(s: &mut String, c: char)
    ensures
        final(s)@ == old(s)@.push(c),
{
    s.push(c)
}

/// Replaces each Persian-Indic digit of `c` by the ASCII digit of the same value.
pub fn transliterate_char(c: char) -> (r: char)
    ensures
        r == transliterated_char(c),
{
    let code: u32 = c as u32;
    if FARSI_ZERO <= code && code <= FARSI_NINE {
        ((code - FARSI_ZERO) as u8 + 0x30u8) as char
    } else {
        c
    }
}

/// Replaces every Persian-Indic digit of `date_input` by the ASCII digit of the
/// same value; all other characters pass through unchanged.
pub fn convert_farsi_date_to_english_date(date_input: String) -> (r: String)
    ensures
        r@ == transliterated(date_input@),
        r@.len() == date_input@.len(),
{
    broadcast use vstd::string::group_string_axioms;

    let mut out = String::new();
    let mut it = date_input.as_str().chars();
    let ghost all = date_input@;
    let ghost mut i: int = 0;
    loop
        invariant
            0 <= i <= all.len(),
            it.remaining() == all.skip(i),
            out@ == transliterated(all.take(i)),
        ensures
            out@ == transliterated(all),
        decreases all.len() - i,
    {
        match it.next() {
            Some(c) => {
                assert(all.take(i + 1) == all.take(i).push(c));
                push_char(&mut out, transliterate_char(c));
                proof {
                    i = i + 1;
                }
            },
            None => {
                assert(all.take(i) == all);
                break;
            },
        }
    }
    out
}

/// Transliteration keeps the number of characters of every text.
pub proof fn lemma_transliteration_keeps_length(s: Seq<char>)
    ensures
        transliterated(s).len() == s.len(),
{
}

/// Transliterating a text twice gives what transliterating it once gives.
pub proof fn lemma_transliteration_idempotent(s: Seq<char>)
    ensures
        transliterated(transliterated(s)) == transliterated(s),
{
    let t = transliterated(s);
    assert forall|i: int| 0 <= i < t.len() implies #[trigger] transliterated_char(t[i]) == t[i] by {
        let c = s[i];
        if is_farsi_digit(c) {
            let d: u32 = (c as u32 - FARSI_ZERO) as u32;
            assert(((0x30 + d) as u8) as char as u32 == 0x30 + d);
        }
    }
    assert(transliterated(t) =~= t);
}

/// A text of ASCII characters alone is its own transliteration.
pub proof fn lemma_ascii_unchanged(s: Seq<char>)
    requires
        forall|i: int| 0 <= i < s.len() ==> (#[trigger] s[i]) as u32 <= 0x7F,
    ensures
        transliterated(s) == s,
{
    assert(transliterated(s) =~= s);
}

/// Each Persian-Indic digit becomes the ASCII digit of the same value:
/// the character `'0'` moved up by the digit's offset from U+06F0.
pub proof fn lemma_farsi_digit(c: char)
    requires
        is_farsi_digit(c),
    ensures
        transliterated(seq![c]) == seq![ascii_digit(c as u32 - FARSI_ZERO)],
        ascii_digit(c as u32 - FARSI_ZERO) as u32 == '0' as u32 + (c as u32 - FARSI_ZERO),
{
    assert(transliterated(seq![c]) =~= seq![ascii_digit(c as u32 - FARSI_ZERO)]);
}

/// Arabic-Indic digits (U+0660..U+0669) are not Persian-Indic digits: a text of
/// them is its own transliteration.
pub proof fn lemma_arabic_indic_unchanged(s: Seq<char>)
    requires
        forall|i: int| 0 <= i < s.len() ==> 0x0660 <= (#[trigger] s[i]) as u32 <= 0x0669,
    ensures
        transliterated(s) == s,
{
    assert(transliterated(s) =~= s);
}

} // verus!
