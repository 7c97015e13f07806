//! The current time as text, and the layout of that text.

use vstd::prelude::*;

verus! {

/// `c` is a decimal digit.
pub open spec fn is_digit(c: char) -> bool {
    '0' <= c <= '9'
}

/// Every character of `text` from the place `from` up to the place `to` is
/// a decimal digit.
pub open spec fn digits_at(text: Seq<char>, from: int, to: int) -> bool {
    forall|i: int| from <= i < to ==> is_digit(#[trigger] text[i])
}

/// The first `year` characters of `text` write a year: four digits, or for a
/// year outside 0 to 9999 a sign and at least four digits.
pub open spec fn year_at(text: Seq<char>, year: int) -> bool {
    if year == 4 {
        digits_at(text, 0, 4)
    } else {
        year >= 5 && (text[0] == '+' || text[0] == '-') && digits_at(text, 1, year)
    }
}

/// The `fraction` characters of `text` from the place `from` write a fraction
/// of a second: nothing, or a point and 3, 6 or 9 digits.
pub open spec fn fraction_at(text: Seq<char>, from: int, fraction: int) -> bool {
    if fraction == 0 {
        true
    } else {
        (fraction == 4 || fraction == 7 || fraction == 10) && text[from] == '.' && digits_at(
            text,
            from + 1,
            from + fraction,
        )
    }
}

/// `text` is laid out as a date and time in UTC, with a year of `year`
/// characters and a fraction of `fraction` characters: the year, two digits
/// for the month and two for the day with hyphens between them, a `T`, two
/// digits each for the hours, the minutes and the seconds with colons between
/// them, the fraction, and the offset `+00:00`. Only the layout is said: which
/// digits stand in a field is left open, so a month of 99 fits it as well.
pub open spec fn has_layout_with(text: Seq<char>, year: int, fraction: int) -> bool {
    &&& text.len() == year + 15 + fraction + 6
    &&& year_at(text, year)
    &&& text[year] == '-' && digits_at(text, year + 1, year + 3)
    &&& text[year + 3] == '-' && digits_at(text, year + 4, year + 6)
    &&& text[year + 6] == 'T' && digits_at(text, year + 7, year + 9)
    &&& text[year + 9] == ':' && digits_at(text, year + 10, year + 12)
    &&& text[year + 12] == ':' && digits_at(text, year + 13, year + 15)
    &&& fraction_at(text, year + 15, fraction)
    &&& text.subrange(year + 15 + fraction, text.len() as int) == seq!['+', '0', '0', ':', '0', '0']
}

/// `text` has the layout of a date and time in UTC, as in
/// `2024-01-02T03:04:05.678+00:00`. This is the layout alone: it does not say
/// that the fields name a date and a time that exist.
pub open spec fn has_timestamp_layout(text: Seq<char>) -> bool {
    exists|year: int, fraction: int| #[trigger] has_layout_with(text, year, fraction)
}

/// Reads the clock with `std::time::SystemTime::now`, turns the reading into
/// a `chrono::DateTime<chrono::Utc>` with chrono's `From<SystemTime>`, and
/// writes it with `chrono::DateTime::to_rfc3339`. The conversion takes a clock
/// that stands before 1970 as well; it stops only for a moment outside the
/// dates that chrono holds, some 262,000 years to either side. Which moment
/// the text names depends on the clock; what is claimed, and not proved, is
/// the layout in which chrono writes it.
#[verifier::external_body]
pub(crate) fn current_timestamp() -> (stamp: String)
    ensures
        has_timestamp_layout(stamp@),
{
    chrono::DateTime::<chrono::Utc>::from(std::time::SystemTime::now()).to_rfc3339()
}

} // verus!
