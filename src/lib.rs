//! Reports today's date in the Persian, Islamic lunar or Gregorian calendar
//! from the date spans of a time-reference web page.

pub mod calendar;
pub mod digits;
pub mod extract;

pub use calendar::{resolve_calendar, Calendar, DateError};
pub use digits::{convert_farsi_date_to_english_date, transliterate_char};
pub use extract::{dates_for, extract_dates, pattern_of, render_date, render_dates};
