//! Object keys: where an upload is stored, partitioned by calendar month.

use crate::calendar::{
    in_calendar,
    law_prefix_names_its_month,
    local_month,
    month_prefix,
    YearMonth,
};
use crate::token::{is_token, random_token};
use vstd::prelude::*;
use vstd::string::StringExecFns;

verus! {

/// The text of a key: the month's prefix, the token, a dot, the extension.
pub open spec fn key_text(
    year: int,
    month: int,
    token: Seq<char>,
    extension: Seq<char>,
) -> Seq<char> {
    month_prefix(year, month) + token + seq!['.'] + extension
}

/// A key tells its parts: two keys with tokens of the usual shape that read
/// the same were made in the same month, with the same token and the same
/// extension. So keys of different months never collide, and within a month
/// two keys collide only if their tokens do.
pub proof fn law_key_tells_its_parts(
    year1: int,
    month1: int,
    token1: Seq<char>,
    extension1: Seq<char>,
    year2: int,
    month2: int,
    token2: Seq<char>,
    extension2: Seq<char>,
)
    requires
        in_calendar(year1, month1),
        in_calendar(year2, month2),
        is_token(token1),
        is_token(token2),
        key_text(year1, month1, token1, extension1) == key_text(
            year2,
            month2,
            token2,
            extension2,
        ),
    ensures
        year1 == year2,
        month1 == month2,
        token1 == token2,
        extension1 == extension2,
{
    let rest1 = token1 + seq!['.'] + extension1;
    let rest2 = token2 + seq!['.'] + extension2;
    assert(key_text(year1, month1, token1, extension1) =~= month_prefix(year1, month1) + rest1);
    assert(key_text(year2, month2, token2, extension2) =~= month_prefix(year2, month2) + rest2);
    law_prefix_names_its_month(year1, month1, rest1, year2, month2, rest2);
    assert(token1 =~= token2) by {
        assert forall|i: int| 0 <= i < token1.len() implies token1[i] == token2[i] by {
            assert(rest1[i] == token1[i]);
            assert(rest2[i] == token2[i]);
        }
    }
    assert(extension1 =~= extension2) by {
        let n = token1.len() as int + 1;
        assert(extension1.len() == rest1.len() - n);
        assert(extension2.len() == rest2.len() - n);
        assert forall|i: int| 0 <= i < extension1.len() implies extension1[i] == extension2[i] by {
            assert(rest1[n + i] == extension1[i]);
            assert(rest2[n + i] == extension2[i]);
        }
    }
}

/// The key of one stored object. Its view is the text of the key, such as
/// `2024/05/k3Vw_9xQ2mLr-7TzYbN4c.png`.
#[derive(Clone, Debug, PartialEq, Eq)]
pub struct ObjectKey {
    pub date: YearMonth,
    pub token: String,
    pub extension: String,
}

impl View for ObjectKey {
    type V = Seq<char>;

    open spec fn view(&self) -> Seq<char> {
        key_text(self.date.year() as int, self.date.month() as int, self.token@, self.extension@)
    }
}

impl ObjectKey {
    /// The key made of the given parts.
    pub fn new(date: YearMonth, token: String, extension: String) -> (key: ObjectKey)
        ensures
            key.date == date,
            key.token == token,
            key.extension == extension,
    {
        ObjectKey { date, token, extension }
    }

    /// A key for a new object with the given extension: the month is read
    /// from the local clock and the token is drawn at random.
    pub fn generate(extension: &str) -> (key: ObjectKey)
        ensures
            key.date.wf(),
            is_token(key.token@),
            key.extension@ == extension@,
    {
        ObjectKey::generate_at(local_month(), extension)
    }

    /// A key for a new object with the given extension, made in the month
    /// `date` that the caller read from a clock; the token is drawn at
    /// random.
    pub fn generate_at(date: YearMonth, extension: &str) -> (key: ObjectKey)
        ensures
            key.date == date,
            is_token(key.token@),
            key.extension@ == extension@,
    {
        let token = random_token();
        ObjectKey { date, token, extension: String::from_str(extension) }
    }

    /// The key as text.
    pub fn path(&self) -> (text: String)
        ensures
            text@ == self@,
    {
        let mut text = self.date.prefix();
        text.append(self.token.as_str());
        text.append(".");
        text.append(self.extension.as_str());
        proof {
            reveal_strlit(".");
            assert("."@ =~= seq!['.']);
        }
        text
    }
}

} // verus!
