//! Calendar months and the `YYYY/MM/` prefix under which objects are stored.

use crate::text::{
    all_digits,
    decimal_value,
    is_digit,
    lemma_decimal,
    lemma_zero_padded,
    zero_padded,
};
use vstd::pervasive::unreached;
use vstd::prelude::*;

verus! {

/// Earliest year a calendar date can carry.
pub const MIN_YEAR: i32 = -262143;

/// Latest year a calendar date can carry.
pub const MAX_YEAR: i32 = 262142;

/// Whether `year` and `month` name a month of the supported calendar.
pub open spec fn in_calendar(year: int, month: int) -> bool {
    MIN_YEAR <= year <= MAX_YEAR && 1 <= month <= 12
}

/// How a year is written: four digits for the years 0 to 9999, and otherwise
/// a sign followed by at least four digits.
pub open spec fn year_text(year: int) -> Seq<char> {
    if 0 <= year <= 9999 {
        zero_padded(year as nat, 4)
    } else if year > 9999 {
        seq!['+'] + zero_padded(year as nat, 4)
    } else {
        seq!['-'] + zero_padded((-year) as nat, 4)
    }
}

/// How a month is written: always two digits.
pub open spec fn month_text(month: int) -> Seq<char> {
    zero_padded(month as nat, 2)
}

/// The storage prefix of a month: year, slash, month, slash.
pub open spec fn month_prefix(year: int, month: int) -> Seq<char> {
    year_text(year) + seq!['/'] + month_text(month) + seq!['/']
}

/// The year that a year's text stands for.
pub open spec fn year_value(text: Seq<char>) -> int {
    if text.len() > 0 && text[0] == '-' {
        -(decimal_value(text.skip(1)) as int)
    } else if text.len() > 0 && text[0] == '+' {
        decimal_value(text.skip(1)) as int
    } else {
        decimal_value(text) as int
    }
}

/// The text of a year has at least four characters, none of them a slash,
/// and stands for the year.
pub proof fn lemma_year_text(year: int)
    ensures
        year_text(year).len() >= 4,
        forall|i: int| 0 <= i < year_text(year).len() ==> #[trigger] year_text(year)[i] != '/',
        year_value(year_text(year)) == year,
{
    if 0 <= year <= 9999 {
        let digits = zero_padded(year as nat, 4);
        lemma_zero_padded(year as nat, 4);
        assert(is_digit(digits[0]));
    } else if year > 9999 {
        let digits = zero_padded(year as nat, 4);
        lemma_zero_padded(year as nat, 4);
        assert((seq!['+'] + digits).skip(1) =~= digits);
        assert forall|i: int| 0 <= i < year_text(year).len() implies #[trigger] year_text(year)[i]
            != '/' by {
            if i > 0 {
                assert(is_digit(digits[i - 1]));
            }
        }
    } else {
        let digits = zero_padded((-year) as nat, 4);
        lemma_zero_padded((-year) as nat, 4);
        assert((seq!['-'] + digits).skip(1) =~= digits);
        assert forall|i: int| 0 <= i < year_text(year).len() implies #[trigger] year_text(year)[i]
            != '/' by {
            if i > 0 {
                assert(is_digit(digits[i - 1]));
            }
        }
    }
}

/// The text of a month has two digits and stands for the month.
pub proof fn lemma_month_text(month: int)
    requires
        1 <= month <= 12,
    ensures
        month_text(month).len() == 2,
        all_digits(month_text(month)),
        decimal_value(month_text(month)) == month,
{
    lemma_zero_padded(month as nat, 2);
    lemma_decimal(month as nat);
}

/// A prefix names its month: two texts that begin with the prefixes of two
/// months and are equal begin with the same month, and go on alike.
pub proof fn law_prefix_names_its_month(
    year1: int,
    month1: int,
    rest1: Seq<char>,
    year2: int,
    month2: int,
    rest2: Seq<char>,
)
    requires
        in_calendar(year1, month1),
        in_calendar(year2, month2),
        month_prefix(year1, month1) + rest1 == month_prefix(year2, month2) + rest2,
    ensures
        year1 == year2,
        month1 == month2,
        rest1 == rest2,
{
    let text = month_prefix(year1, month1) + rest1;
    let y1 = year_text(year1);
    let y2 = year_text(year2);
    let m1 = month_text(month1);
    let m2 = month_text(month2);
    lemma_year_text(year1);
    lemma_year_text(year2);
    lemma_month_text(month1);
    lemma_month_text(month2);
    let a = y1.len() as int;
    let b = y2.len() as int;
    assert(text[a] == '/');
    assert((month_prefix(year2, month2) + rest2)[b] == '/');
    if a < b {
        assert(text[a] == y2[a]);
    }
    if b < a {
        assert(text[b] == y1[b]);
    }
    assert(a == b);
    assert(y1 =~= y2) by {
        assert forall|i: int| 0 <= i < a implies y1[i] == y2[i] by {
            assert(text[i] == y1[i]);
            assert(text[i] == y2[i]);
        }
    }
    assert(m1 =~= m2) by {
        assert forall|i: int| 0 <= i < 2 implies m1[i] == m2[i] by {
            assert(text[a + 1 + i] == m1[i]);
            assert(text[a + 1 + i] == m2[i]);
        }
    }
    assert(rest1 =~= rest2) by {
        assert(rest1.len() == text.len() - a - 4);
        assert(rest2.len() == text.len() - a - 4);
        assert forall|i: int| 0 <= i < rest1.len() implies rest1[i] == rest2[i] by {
            assert(text[a + 4 + i] == rest1[i]);
            assert(text[a + 4 + i] == rest2[i]);
        }
    }
}

/// A month of a year, as read from a calendar.
#[derive(Clone, Copy, Debug, PartialEq, Eq)]
pub struct YearMonth {
    year: i32,
    month: u32,
}

impl YearMonth {
    /// Every value names a month of the supported calendar.
    #[verifier::type_invariant]
    pub open spec fn wf(&self) -> bool {
        in_calendar(self.year() as int, self.month() as int)
    }

    /// The year.
    pub closed spec fn spec_year(&self) -> i32 {
        self.year
    }

    /// The month of the year, from 1 to 12.
    pub closed spec fn spec_month(&self) -> u32 {
        self.month
    }

    /// The month `month` of `year`, if the calendar has it.
    pub fn new(year: i32, month: u32) -> (date: Option<YearMonth>)
        ensures
            date is Some <==> in_calendar(year as int, month as int),
            date matches Some(d) ==> d.wf() && d.year() == year && d.month() == month,
    {
        if MIN_YEAR <= year && year <= MAX_YEAR && 1 <= month && month <= 12 {
            Some(YearMonth { year, month })
        } else {
            None
        }
    }

    /// The year.
    #[verifier::when_used_as_spec(spec_year)]
    pub fn year(&self) -> (year: i32)
        ensures
            year == self.year(),
    {
        self.year
    }

    /// The month of the year, from 1 to 12.
    #[verifier::when_used_as_spec(spec_month)]
    pub fn month(&self) -> (month: u32)
        ensures
            month == self.month(),
    {
        self.month
    }

    /// The prefix under which objects of this month are stored, such as
    /// `2024/05/`.
    pub fn prefix(&self) -> (text: String)
        ensures
            text@ == month_prefix(self.year() as int, self.month() as int),
    {
        proof {
            use_type_invariant(self);
        }
        match format_prefix(self.year, self.month) {
            Some(text) => text,
            None => unreached(),
        }
    }
}

/// Reads the clock through `chrono::Local::now` and keeps the year and the
/// month of its local date (`DateTime::date_naive`, then `Datelike::year` and
/// `Datelike::month`). Taken on trust: a date that chrono hands out lies
/// within chrono's own calendar, and its month is one of the twelve. Which
/// month comes back depends on the moment of the call, so nothing more is
/// claimed.
#[verifier::external_body]
pub(crate) fn local_month() -> (today: YearMonth)
    ensures
        today.wf(),
{
    let today = chrono::Local::now().date_naive();
    YearMonth { year: chrono::Datelike::year(&today), month: chrono::Datelike::month(&today) }
}

/// Writes a month with chrono: `NaiveDate::from_ymd_opt` makes the first day
/// of the month, and `NaiveDate::format` writes it with the pattern `%Y/%m/`.
/// Taken on trust: chrono has the date exactly when the year lies between
/// `MIN_YEAR` and `MAX_YEAR` and the month between 1 and 12; `%Y` writes the
/// years 0 to 9999 as four digits and any other year as a sign followed by
/// the digits, filled with zeros to at least four; `%m` writes two digits.
#[verifier::external_body]
fn format_prefix(year: i32, month: u32) -> (text: Option<String>)
    ensures
        text is Some <==> in_calendar(year as int, month as int),
        text matches Some(t) ==> t@ == month_prefix(year as int, month as int),
{
    match chrono::NaiveDate::from_ymd_opt(year, month, 1) {
        Some(day) => Some(day.format("%Y/%m/").to_string()),
        None => None,
    }
}

} // verus!
