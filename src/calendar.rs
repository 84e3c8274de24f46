//! The calendar a date is reported in, and how the command-line argument
//! selects it.
use vstd::prelude::*;
use vstd::std_specs::iter::IteratorSpec;

verus! {

/// One of the three calendars whose date the page shows.
#[derive(Clone, Copy, Debug, PartialEq, Eq, Structural)]
pub enum Calendar {
    Shamsi,
    Hijri,
    Gregorian,
}

/// Why no date could be reported.
#[derive(Clone, Copy, Debug, PartialEq, Eq, Structural)]
pub enum DateError {
    /// The argument names none of the three calendars.
    InvalidArgument,
    /// The page could not be fetched: transport failure or an error status.
    Network,
    /// The page's body is not valid UTF-8.
    Decode,
    /// A date pattern could not be compiled.
    Internal,
}

/// The token that selects the Persian calendar, and the default one.
pub const SHAMSI_TOKEN: &'static str = "SHAMSI";

/// The token that selects the Islamic lunar calendar.
pub const HIJRI_TOKEN: &'static str = "HIJRI";

/// The token that selects the Gregorian calendar.
pub const GREGORIAN_TOKEN: &'static str = "GREGORIAN";

/// ASCII upper-casing of one character: `a`..`z` become `A`..`Z`, every other
/// character, non-ASCII ones included, stays as it is.
pub open spec fn ascii_upper_char(c: char) -> char {
    if 0x61 <= c as u32 <= 0x7A {
        ((c as u32 - 0x20) as u8) as char
    } else {
        c
    }
}

pub open spec fn ascii_upper(s: Seq<char>) -> Seq<char> {
    s.map_values(|c: char| ascii_upper_char(c))
}

/// The calendar that a given argument selects, once upper-cased.
pub open spec fn calendar_of_token(token: Seq<char>) -> Result<Calendar, DateError> {
    let u = ascii_upper(token);
    if u == SHAMSI_TOKEN@ {
        Ok(Calendar::Shamsi)
    } else if u == HIJRI_TOKEN@ {
        Ok(Calendar::Hijri)
    } else if u == GREGORIAN_TOKEN@ {
        Ok(Calendar::Gregorian)
    } else {
        Err(DateError::InvalidArgument)
    }
}

/// The calendar selected by the optional first argument: Shamsi when there is
/// none, else the one its upper-cased form names.
pub open spec fn calendar_of_arg(arg: Option<Seq<char>>) -> Result<Calendar, DateError> {
    match arg {
        None => Ok(Calendar::Shamsi),
        Some(t) => calendar_of_token(t),
    }
}

fn to_ascii_upper(c: char) -> (r: char)
    ensures
        r == ascii_upper_char(c),
{
    let code: u32 = c as u32;
    if 0x61 <= code && code <= 0x7A {
        ((code - 0x20) as u8) as char
    } else {
        c
    }
}

/// Whether `token`, upper-cased, is exactly `word`.
fn folds_to(token: &str, word: &str) -> (r: bool)
    ensures
        r == (ascii_upper(token@) == word@),
{
    broadcast use vstd::string::group_string_axioms;

    let n = word.unicode_len();
    let mut it = token.chars();
    let ghost t = token@;
    let mut i: usize = 0;
    loop
        invariant
            i <= n,
            n == word@.len(),
            i <= t.len(),
            t == token@,
            it.remaining() == t.skip(i as int),
            ascii_upper(t.take(i as int)) == word@.take(i as int),
        decreases t.len() - i,
    {
        match it.next() {
            None => {
                assert(t.take(i as int) == t);
                if i == n {
                    assert(word@.take(i as int) == word@);
                    return true;
                } else {
                    assert(ascii_upper(t).len() != word@.len());
                    return false;
                }
            },
            Some(c) => {
                if i == n {
                    assert(ascii_upper(t).len() != word@.len());
                    return false;
                }
                let u = to_ascii_upper(c);
                if u != word.get_char(i) {
                    assert(ascii_upper(t)[i as int] != word@[i as int]);
                    return false;
                }
                assert(t.take(i + 1) == t.take(i as int).push(c));
                assert(word@.take(i + 1) == word@.take(i as int).push(u));
                i = i + 1;
            },
        }
    }
}

/// Selects the calendar from the optional first argument: with none, Shamsi;
/// otherwise the argument is upper-cased (ASCII letters only) and must be
/// `SHAMSI`, `HIJRI` or `GREGORIAN`. Any other argument, the empty one included,
/// is an `InvalidArgument` error.
pub fn resolve_calendar(arg: Option<&str>) -> (r: Result<Calendar, DateError>)
    ensures
        r == calendar_of_arg(
            match arg {
                None => None,
                Some(t) => Some(t@),
            },
        ),
{
    match arg {
        None => Ok(Calendar::Shamsi),
        Some(token) => {
            if folds_to(token, SHAMSI_TOKEN) {
                Ok(Calendar::Shamsi)
            } else if folds_to(token, HIJRI_TOKEN) {
                Ok(Calendar::Hijri)
            } else if folds_to(token, GREGORIAN_TOKEN) {
                Ok(Calendar::Gregorian)
            } else {
                Err(DateError::InvalidArgument)
            }
        },
    }
}

/// Arguments that agree once upper-cased select the same calendar, or are
/// refused alike.
pub proof fn lemma_selection_ignores_ascii_case(t1: Seq<char>, t2: Seq<char>)
    requires
        ascii_upper(t1) == ascii_upper(t2),
    ensures
        calendar_of_token(t1) == calendar_of_token(t2),
{
}

} // verus!
