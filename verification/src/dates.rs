//! Calendar dates (`YYYY-MM-DD`) and wall-clock times (`HH:MM`) as they are
//! stored on tasks.

use vstd::prelude::*;

use crate::domain::{validation, DomainError};

verus! {

pub open spec fn is_digit(c: char) -> bool {
    '0' <= c && c <= '9'
}

pub open spec fn digit_val(c: char) -> int {
    (c as int) - 48
}

pub open spec fn two_digits(s: Seq<char>, i: int) -> int {
    digit_val(s[i]) * 10 + digit_val(s[i + 1])
}

pub open spec fn is_leap_year(y: int) -> bool {
    (y % 4 == 0 && y % 100 != 0) || y % 400 == 0
}

pub open spec fn days_in_month(y: int, m: int) -> int {
    if m == 2 {
        if is_leap_year(y) {
            29
        } else {
            28
        }
    } else if m == 4 || m == 6 || m == 9 || m == 11 {
        30
    } else {
        31
    }
}

/// `s` is `YYYY-MM-DD` naming a day of the Gregorian calendar.
pub open spec fn is_date_text(s: Seq<char>) -> bool {
    &&& s.len() == 10
    &&& is_digit(s[0]) && is_digit(s[1]) && is_digit(s[2]) && is_digit(s[3])
    &&& s[4] == '-' && is_digit(s[5]) && is_digit(s[6])
    &&& s[7] == '-' && is_digit(s[8]) && is_digit(s[9])
    &&& {
        let y = two_digits(s, 0) * 100 + two_digits(s, 2);
        let m = two_digits(s, 5);
        let d = two_digits(s, 8);
        1 <= m <= 12 && 1 <= d <= days_in_month(y, m)
    }
}

/// `s` is `HH:MM` with hours 00–23 and minutes 00–59.
pub open spec fn is_time_text(s: Seq<char>) -> bool {
    &&& s.len() == 5
    &&& is_digit(s[0]) && is_digit(s[1]) && s[2] == ':' && is_digit(s[3]) && is_digit(s[4])
    &&& two_digits(s, 0) <= 23
    &&& two_digits(s, 3) <= 59
}

fn digit(c: char) -> (r: Option<u32>)
    ensures
        r is Some <==> is_digit(c),
        r matches Some(v) ==> v as int == digit_val(c) && v < 10,
{
    if '0' <= c && c <= '9' {
        Some((c as u32) - 48)
    } else {
        None
    }
}

pub fn is_date(s: &str) -> (r: bool)
    ensures
        r == is_date_text(s@),
{
    let v = crate::chars::chars_of(s);
    if v.len() != 10 || v[4] != '-' || v[7] != '-' {
        return false;
    }
    let (y0, y1, y2, y3, m0, m1, d0, d1) = match (
        digit(v[0]),
        digit(v[1]),
        digit(v[2]),
        digit(v[3]),
        digit(v[5]),
        digit(v[6]),
        digit(v[8]),
        digit(v[9]),
    ) {
        (Some(a), Some(b), Some(c), Some(d), Some(e), Some(f), Some(g), Some(h)) => (
            a,
            b,
            c,
            d,
            e,
            f,
            g,
            h,
        ),
        _ => return false,
    };
    let y = (y0 * 10 + y1) * 100 + y2 * 10 + y3;
    let m = m0 * 10 + m1;
    let d = d0 * 10 + d1;
    if m < 1 || m > 12 || d < 1 {
        return false;
    }
    let leap = (y % 4 == 0 && y % 100 != 0) || y % 400 == 0;
    let dim: u32 = if m == 2 {
        if leap {
            29
        } else {
            28
        }
    } else if m == 4 || m == 6 || m == 9 || m == 11 {
        30
    } else {
        31
    };
    d <= dim
}

pub fn is_time(s: &str) -> (r: bool)
    ensures
        r == is_time_text(s@),
{
    let v = crate::chars::chars_of(s);
    if v.len() != 5 || v[2] != ':' {
        return false;
    }
    match (digit(v[0]), digit(v[1]), digit(v[3]), digit(v[4])) {
        (Some(a), Some(b), Some(c), Some(d)) => a * 10 + b <= 23 && c * 10 + d <= 59,
        _ => false,
    }
}

/// A due date must be a real `YYYY-MM-DD` date.
pub fn validate_due_date(s: &str) -> (r: Result<(), DomainError>)
    ensures
        r is Ok <==> is_date_text(s@),
        r matches Err(e) ==> e is Validation,
{
    if is_date(s) {
        Ok(())
    } else {
        Err(validation("截止日期格式应为 YYYY-MM-DD"))
    }
}

/// A due time must be `HH:MM`.
pub fn validate_due_time(s: &str) -> (r: Result<(), DomainError>)
    ensures
        r is Ok <==> is_time_text(s@),
        r matches Err(e) ==> e is Validation,
{
    if is_time(s) {
        Ok(())
    } else {
        Err(validation("截止时间格式应为 HH:MM"))
    }
}

/// Lexicographic order of texts by character code: the order of `str`
/// comparison, and for `YYYY-MM-DD` texts the calendar order.
pub open spec fn text_lt(a: Seq<char>, b: Seq<char>) -> bool
    decreases a.len(),
{
    if a.len() == 0 {
        b.len() > 0
    } else if b.len() == 0 {
        false
    } else if a[0] == b[0] {
        text_lt(a.drop_first(), b.drop_first())
    } else {
        (a[0] as int) < (b[0] as int)
    }
}

/// The order of texts is asymmetric.
pub proof fn lemma_text_lt_asymmetric(a: Seq<char>, b: Seq<char>)
    ensures
        text_lt(a, b) ==> !text_lt(b, a),
    decreases a.len(),
{
    if a.len() > 0 && b.len() > 0 && a[0] == b[0] {
        lemma_text_lt_asymmetric(a.drop_first(), b.drop_first());
    }
}

/// Two texts are equal or one is before the other.
pub proof fn lemma_text_lt_total(a: Seq<char>, b: Seq<char>)
    ensures
        a == b || text_lt(a, b) || text_lt(b, a),
    decreases a.len(),
{
    if a.len() == 0 && b.len() == 0 {
        assert(a =~= b);
    } else if a.len() == 0 {
        assert(text_lt(a, b));
    } else if b.len() == 0 {
        assert(text_lt(b, a));
    } else if a[0] != b[0] {
        assert((a[0] as int) != (b[0] as int));
        if (a[0] as int) < (b[0] as int) {
            assert(text_lt(a, b));
        } else {
            assert(text_lt(b, a));
        }
    } else {
        lemma_text_lt_total(a.drop_first(), b.drop_first());
        if a.drop_first() == b.drop_first() {
            assert forall|i: int| 0 <= i < a.len() implies a[i] == b[i] by {
                if i > 0 {
                    assert(a[i] == a.drop_first()[i - 1]);
                    assert(b[i] == b.drop_first()[i - 1]);
                }
            }
            assert(a.drop_first().len() == b.drop_first().len());
            assert(a.len() == b.len());
            assert(a =~= b);
        }
    }
}

/// The order of texts is transitive.
pub proof fn lemma_text_lt_transitive(a: Seq<char>, b: Seq<char>, c: Seq<char>)
    requires
        text_lt(a, b),
        text_lt(b, c),
    ensures
        text_lt(a, c),
    decreases a.len(),
{
    if a.len() > 0 && a[0] == b[0] && b[0] == c[0] {
        lemma_text_lt_transitive(a.drop_first(), b.drop_first(), c.drop_first());
    }
}

/// `a < b` as `str` comparison.
pub fn str_lt(a: &str, b: &str) -> (r: bool)
    ensures
        r == text_lt(a@, b@),
{
    let x = crate::chars::chars_of(a);
    let y = crate::chars::chars_of(b);
    let mut i: usize = 0;
    proof {
        assert(x@.subrange(0, x@.len() as int) =~= x@);
        assert(y@.subrange(0, y@.len() as int) =~= y@);
    }
    while i < x.len() && i < y.len() && x[i] == y[i]
        invariant
            x@ == a@,
            y@ == b@,
            i <= x@.len(),
            i <= y@.len(),
            text_lt(a@, b@) == text_lt(x@.subrange(i as int, x@.len() as int), y@.subrange(
                i as int,
                y@.len() as int,
            )),
        decreases x@.len() - i,
    {
        proof {
            let xs = x@.subrange(i as int, x@.len() as int);
            let ys = y@.subrange(i as int, y@.len() as int);
            assert(xs.drop_first() =~= x@.subrange(i + 1, x@.len() as int));
            assert(ys.drop_first() =~= y@.subrange(i + 1, y@.len() as int));
        }
        i = i + 1;
    }
    if i == x.len() {
        i < y.len()
    } else if i == y.len() {
        false
    } else {
        x[i] < y[i]
    }
}

/// The date `days` days after `date` (`chrono`'s calendar arithmetic),
/// when `date` is a valid date and the result is representable.
pub uninterp spec fn date_plus_days(date: Seq<char>, days: i64) -> Option<Seq<char>>;

/// `chrono::NaiveDate` arithmetic: parses `date` as `%Y-%m-%d`, adds
/// `days` days and formats the result as `%Y-%m-%d`. The result is named
/// `date_plus_days`; it is a function of the two arguments.
#[verifier::external_body]
pub(crate) fn add_days(date: &str, days: i64) -> (r: Option<String>)
    ensures
        match r {
            Some(s) => date_plus_days(date@, days) == Some(s@),
            None => date_plus_days(date@, days) is None,
        },
{
    let d = chrono::NaiveDate::parse_from_str(date, "%Y-%m-%d").ok()?;
    let next = d.checked_add_signed(chrono::Duration::try_days(days)?)?;
    Some(next.format("%Y-%m-%d").to_string())
}

/// The local time `hours` hours after `stamp` (`%Y-%m-%dT%H:%M:%S`, by
/// `chrono`'s arithmetic), when `stamp` is valid and the result is
/// representable.
pub uninterp spec fn stamp_plus_hours(stamp: Seq<char>, hours: i64) -> Option<Seq<char>>;

/// The number of days from one date to another (`chrono`'s calendar),
/// when both are valid `%Y-%m-%d` dates.
pub uninterp spec fn days_between(from: Seq<char>, to: Seq<char>) -> Option<i64>;

/// `chrono::NaiveDate` difference: parses both texts as `%Y-%m-%d` and
/// returns `(to - from).num_days()`. The result is named `days_between`;
/// it is a function of the two arguments.
#[verifier::external_body]
pub(crate) fn date_diff_days(from: &str, to: &str) -> (r: Option<i64>)
    ensures
        r == days_between(from@, to@),
{
    let a = chrono::NaiveDate::parse_from_str(from, "%Y-%m-%d").ok()?;
    let b = chrono::NaiveDate::parse_from_str(to, "%Y-%m-%d").ok()?;
    Some((b - a).num_days())
}

/// `chrono::NaiveDateTime` arithmetic: parses `stamp` as
/// `%Y-%m-%dT%H:%M:%S`, adds `hours` hours and formats the result the same
/// way. The result is named `stamp_plus_hours`; it is a function of the
/// two arguments.
#[verifier::external_body]
pub(crate) fn add_hours(stamp: &str, hours: i64) -> (r: Option<String>)
    ensures
        match r {
            Some(s) => stamp_plus_hours(stamp@, hours) == Some(s@),
            None => stamp_plus_hours(stamp@, hours) is None,
        },
{
    let t = chrono::NaiveDateTime::parse_from_str(stamp, "%Y-%m-%dT%H:%M:%S").ok()?;
    let next = t.checked_add_signed(chrono::Duration::try_hours(hours)?)?;
    Some(next.format("%Y-%m-%dT%H:%M:%S").to_string())
}

} // verus!
