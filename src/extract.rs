//! Extraction of the date spans from the page's text, and the lines that
//! report them.
use vstd::prelude::*;

use crate::calendar::{calendar_of_arg, resolve_calendar, Calendar, DateError};
use crate::digits::{convert_farsi_date_to_english_date, transliterated};

verus! {

/// The span that holds the Persian date, in Persian-Indic digits.
pub const SHAMSI_PATTERN: &'static str = r#"<span id="ctl00_cphTop_Sampa_Web_View_TimeUI_ShowDate00cphTop_3734_lblShamsiNumeral" class="show numeral">(\d{4}/\d{2}/\d{2})</span>"#;

/// The span that holds the Islamic lunar date, in Persian-Indic digits.
pub const HIJRI_PATTERN: &'static str = r#"<span id="ctl00_cphTop_Sampa_Web_View_TimeUI_ShowDate00cphTop_3734_lblHijriNumeral" class="show numeral">(\d{4}/\d{2}/\d{2})</span>"#;

/// The span that holds the Gregorian date, in ASCII digits.
pub const GREGORIAN_PATTERN: &'static str = r#"<span id="ctl00_cphTop_Sampa_Web_View_TimeUI_ShowDate00cphTop_3734_lblGregorianNumeral" class="show numeral">(\d{4}-\d{2}-\d{2})</span>"#;

/// Whether the regular expression `pattern` compiles.
pub uninterp spec fn regex_compiles(pattern: Seq<char>) -> bool;

/// For each successive non-overlapping match of the regular expression
/// `pattern` in `text`, from left to right, the text of its first group, if
/// that group took part in the match.
pub uninterp spec fn group_one_captures(pattern: Seq<char>, text: Seq<char>) -> Seq<Option<Seq<char>>>;

/// Relies on regex::Regex::new, which fails on a pattern that does not compile,
/// and on Regex::captures_iter with Captures::get(1), which yield the first
/// group of each successive match.
#[verifier::external_body]
fn capture_group_one(pattern: &str, text: &str) -> (r: Option<Vec<Option<String>>>)
    ensures
        r is Some <==> regex_compiles(pattern@),
        r matches Some(v) ==> v.deep_view() == group_one_captures(pattern@, text@),
{
    regex::Regex::new(pattern).ok().map(
        |re| re.captures_iter(text).map(|c| c.get(1).map(|m| m.as_str().to_string())).collect(),
    )
}

/// The pattern that selects the date of `calendar`.
pub open spec fn date_pattern(calendar: Calendar) -> Seq<char> {
    match calendar {
        Calendar::Shamsi => SHAMSI_PATTERN@,
        Calendar::Hijri => HIJRI_PATTERN@,
        Calendar::Gregorian => GREGORIAN_PATTERN@,
    }
}

/// The line reported for one captured date: Persian and Islamic lunar dates
/// with their digits transliterated, Gregorian dates verbatim.
pub open spec fn rendered_date(calendar: Calendar, date: Seq<char>) -> Seq<char> {
    match calendar {
        Calendar::Gregorian => date,
        _ => transliterated(date),
    }
}

/// The lines reported for a sequence of captures, in their order; a capture
/// whose group did not take part gives no line.
pub open spec fn rendered_lines(calendar: Calendar, captures: Seq<Option<Seq<char>>>) -> Seq<Seq<char>>
    decreases captures.len(),
{
    if captures.len() == 0 {
        seq![]
    } else {
        let rest = rendered_lines(calendar, captures.drop_last());
        match captures.last() {
            Some(date) => rest.push(rendered_date(calendar, date)),
            None => rest,
        }
    }
}

/// The lines reported for the page `text` in `calendar`, or `Internal` where
/// the calendar's pattern does not compile.
pub open spec fn dates_in(calendar: Calendar, text: Seq<char>) -> Result<Seq<Seq<char>>, DateError> {
    if regex_compiles(date_pattern(calendar)) {
        Ok(rendered_lines(calendar, group_one_captures(date_pattern(calendar), text)))
    } else {
        Err(DateError::Internal)
    }
}

/// What a run reports for the optional argument `arg` and the outcome `page`
/// of fetching the page: the argument is checked first, then the fetch.
pub open spec fn report_of(arg: Option<Seq<char>>, page: Result<Seq<char>, DateError>) -> Result<Seq<Seq<char>>, DateError> {
    match calendar_of_arg(arg) {
        Err(e) => Err(e),
        Ok(calendar) => match page {
            Err(e) => Err(e),
            Ok(text) => dates_in(calendar, text),
        },
    }
}

pub open spec fn lines_view(r: Result<Vec<String>, DateError>) -> Result<Seq<Seq<char>>, DateError> {
    match r {
        Ok(lines) => Ok(lines.deep_view()),
        Err(e) => Err(e),
    }
}

pub open spec fn text_view(t: Option<&str>) -> Option<Seq<char>> {
    match t {
        Some(s) => Some(s@),
        None => None,
    }
}

pub open spec fn page_view(p: Result<&str, DateError>) -> Result<Seq<char>, DateError> {
    match p {
        Ok(s) => Ok(s@),
        Err(e) => Err(e),
    }
}

/// The pattern that selects the date of `calendar`.
pub fn pattern_of(calendar: Calendar) -> (r: &'static str)
    ensures
        r@ == date_pattern(calendar),
{
    match calendar {
        Calendar::Shamsi => SHAMSI_PATTERN,
        Calendar::Hijri => HIJRI_PATTERN,
        Calendar::Gregorian => GREGORIAN_PATTERN,
    }
}

/// The line reported for one captured date.
pub fn render_date(calendar: Calendar, date: String) -> (r: String)
    ensures
        r@ == rendered_date(calendar, date@),
{
    match calendar {
        Calendar::Gregorian => date,
        _ => convert_farsi_date_to_english_date(date),
    }
}

/// The lines reported for `captures`, one for each capture whose group took
/// part, in the order of the captures.
pub fn render_dates(calendar: Calendar, captures: &Vec<Option<String>>) -> (r: Vec<String>)
    ensures
        r.deep_view() == rendered_lines(calendar, captures.deep_view()),
{
    let ghost caps = captures.deep_view();
    let mut out: Vec<String> = Vec::new();
    let mut i: usize = 0;
    while i < captures.len()
        invariant
            i <= captures.len(),
            caps == captures.deep_view(),
            out.deep_view() == rendered_lines(calendar, caps.take(i as int)),
        decreases captures.len() - i,
    {
        assert(caps.take(i + 1).drop_last() == caps.take(i as int));
        match &captures[i] {
            Some(date) => {
                let line = render_date(calendar, date.clone());
                out.push(line);
                assert(out.deep_view() == rendered_lines(calendar, caps.take(i + 1)));
            },
            None => {},
        }
        i = i + 1;
    }
    assert(caps.take(i as int) == caps);
    out
}

/// The lines reported for the page `body` in `calendar`: one for each match of
/// the calendar's pattern, in the order of the matches.
pub fn extract_dates(calendar: Calendar, body: &str) -> (r: Result<Vec<String>, DateError>)
    ensures
        lines_view(r) == dates_in(calendar, body@),
{
    match capture_group_one(pattern_of(calendar), body) {
        Some(captures) => Ok(render_dates(calendar, &captures)),
        None => Err(DateError::Internal),
    }
}

/// The lines reported for one run: the calendar is selected from `arg` (see
/// `resolve_calendar`), then a failed fetch is reported as it came, else the
/// dates of the page are extracted.
pub fn dates_for(arg: Option<&str>, page: Result<&str, DateError>) -> (r: Result<Vec<String>, DateError>)
    ensures
        lines_view(r) == report_of(text_view(arg), page_view(page)),
{
    let calendar = match resolve_calendar(arg) {
        Ok(c) => c,
        Err(e) => return Err(e),
    };
    match page {
        Ok(body) => extract_dates(calendar, body),
        Err(e) => Err(e),
    }
}

/// Lines keep the order of the matches: the lines of two runs of captures,
/// one after the other, are the lines of the first followed by those of the
/// second.
pub proof fn lemma_lines_follow_capture_order(
    calendar: Calendar,
    first: Seq<Option<Seq<char>>>,
    second: Seq<Option<Seq<char>>>,
)
    ensures
        rendered_lines(calendar, first + second) == rendered_lines(calendar, first) + rendered_lines(
            calendar,
            second,
        ),
    decreases second.len(),
{
    if second.len() == 0 {
        assert(first + second == first);
        assert(rendered_lines(calendar, first) + rendered_lines(calendar, second)
            == rendered_lines(calendar, first));
    } else {
        let init = second.drop_last();
        lemma_lines_follow_capture_order(calendar, first, init);
        assert((first + second).drop_last() == first + init);
        assert((first + second).last() == second.last());
    }
}

/// Where every group took part, the i-th line is the rendering of the i-th
/// capture.
pub proof fn lemma_line_per_capture(calendar: Calendar, captures: Seq<Option<Seq<char>>>)
    requires
        forall|i: int| 0 <= i < captures.len() ==> (#[trigger] captures[i]) is Some,
    ensures
        rendered_lines(calendar, captures).len() == captures.len(),
        forall|i: int|
            0 <= i < captures.len() ==> #[trigger] rendered_lines(calendar, captures)[i]
                == rendered_date(calendar, captures[i]->0),
    decreases captures.len(),
{
    if captures.len() > 0 {
        let init = captures.drop_last();
        assert forall|i: int| 0 <= i < init.len() implies (#[trigger] init[i]) is Some by {
            assert(init[i] == captures[i]);
        }
        lemma_line_per_capture(calendar, init);
    }
}

} // verus!
