//! Civil date and time to the second, and its canonical sort key.

use chrono::{Datelike, Timelike};
use std::fmt::Write;
use vstd::prelude::*;
use crate::text::{opt_text, text_less, lemma_text_less_concat, lemma_text_less_irreflexive, push_char};

verus! {

/// A civil date and time of day, to the second.
#[derive(Clone, Copy, Debug, PartialEq, Eq, Structural)]
pub struct Timestamp {
    pub year: i32,
    pub month: u32,
    pub day: u32,
    pub hour: u32,
    pub minute: u32,
    pub second: u32,
}

impl Timestamp {
    /// The field ranges the sort key can render: a four-digit year and the
    /// usual ranges of the other fields.
    pub open spec fn wf(self) -> bool {
        &&& 0 <= self.year <= 9999
        &&& 1 <= self.month <= 12
        &&& 1 <= self.day <= 31
        &&& self.hour < 24
        &&& self.minute < 60
        &&& self.second < 60
    }

    /// What every date and time that chrono holds satisfies: a year within
    /// chrono's range, a day that exists in its month (proleptic Gregorian
    /// calendar), and the ranges `Timelike` documents.
    pub open spec fn is_chrono_date(self) -> bool {
        &&& -262143 <= self.year <= 262142
        &&& 1 <= self.month <= 12
        &&& 1 <= self.day <= days_in_month(self.year as int, self.month as int)
        &&& self.hour < 24
        &&& self.minute < 60
        &&& self.second < 60
    }

    /// Chronological order: field by field, from the year down to the second.
    pub open spec fn earlier(self, other: Timestamp) -> bool {
        ||| self.year < other.year
        ||| (self.year == other.year && self.month < other.month)
        ||| (self.year == other.year && self.month == other.month && self.day < other.day)
        ||| (self.year == other.year && self.month == other.month && self.day == other.day
            && self.hour < other.hour)
        ||| (self.year == other.year && self.month == other.month && self.day == other.day
            && self.hour == other.hour && self.minute < other.minute)
        ||| (self.year == other.year && self.month == other.month && self.day == other.day
            && self.hour == other.hour && self.minute == other.minute && self.second
            < other.second)
    }
}

pub open spec fn is_leap_year(y: int) -> bool {
    (y % 4 == 0 && y % 100 != 0) || y % 400 == 0
}

pub open spec fn days_in_month(y: int, m: int) -> int {
    if m == 2 {
        if is_leap_year(y) {
            29
        } else {
            28
        }
    } else if m == 4 || m == 6 || m == 9 || m == 11 {
        30
    } else {
        31
    }
}

/// India Standard Time, UTC+5:30, in seconds east of UTC.
pub const INDIA_OFFSET_SECONDS: i32 = 19800;

pub open spec fn digit(d: int) -> char {
    (48 + d) as char
}

/// `n` written with exactly `w` decimal digits, zero-padded on the left.
pub open spec fn padded(n: int, w: nat) -> Seq<char>
    decreases w,
{
    if w == 0 {
        Seq::empty()
    } else {
        padded(n / 10, (w - 1) as nat).push(digit(n % 10))
    }
}

pub open spec fn pow10(w: nat) -> int
    decreases w,
{
    if w == 0 {
        1
    } else {
        10 * pow10((w - 1) as nat)
    }
}

/// The canonical key `YYYY-MM-DD HH:MM:SS UTC`: fixed width, so that text
/// order is time order.
pub open spec fn sort_key(t: Timestamp) -> Seq<char> {
    padded(t.year as int, 4) + (seq!['-'] + (padded(t.month as int, 2) + (seq!['-'] + (padded(
        t.day as int,
        2,
    ) + (seq![' '] + (padded(t.hour as int, 2) + (seq![':'] + (padded(t.minute as int, 2) + (
    seq![':'] + (padded(t.second as int, 2) + seq![' ', 'U', 'T', 'C']))))))))))
}

proof fn lemma_padded_len(n: int, w: nat)
    ensures
        padded(n, w).len() == w,
    decreases w,
{
    if w > 0 {
        lemma_padded_len(n / 10, (w - 1) as nat);
    }
}

proof fn lemma_padded_order(n: int, m: int, w: nat)
    requires
        0 <= n < pow10(w),
        0 <= m < pow10(w),
    ensures
        text_less(padded(n, w), padded(m, w)) == (n < m),
        (padded(n, w) == padded(m, w)) == (n == m),
    decreases w,
{
    if w == 0 {
        lemma_text_less_irreflexive(padded(n, w));
    } else {
        let w1 = (w - 1) as nat;
        assert(pow10(w) == 10 * pow10(w1));
        assert(0 <= n / 10 < pow10(w1));
        assert(0 <= m / 10 < pow10(w1));
        lemma_padded_order(n / 10, m / 10, w1);
        lemma_padded_len(n / 10, w1);
        lemma_padded_len(m / 10, w1);
        let dn = digit(n % 10);
        let dm = digit(m % 10);
        assert(padded(n, w) == padded(n / 10, w1) + seq![dn]);
        assert(padded(m, w) == padded(m / 10, w1) + seq![dm]);
        lemma_text_less_concat(padded(n / 10, w1), seq![dn], padded(m / 10, w1), seq![dm]);
        assert(seq![dn].drop_first() =~= Seq::<char>::empty());
        assert(seq![dm].drop_first() =~= Seq::<char>::empty());
        assert((dn as int) == 48 + n % 10);
        assert((dm as int) == 48 + m % 10);
        lemma_text_less_irreflexive(Seq::<char>::empty());
        assert(seq![dn][0] == dn);
        assert(seq![dm][0] == dm);
        assert(text_less(seq![dn], seq![dm]) == (n % 10 < m % 10));
        if padded(n, w) == padded(m, w) {
            assert(padded(n, w)[w1 as int] == dn);
            assert(padded(m, w)[w1 as int] == dm);
            assert(padded(n / 10, w1) =~= padded(n, w).subrange(0, w1 as int));
            assert(padded(m / 10, w1) =~= padded(m, w).subrange(0, w1 as int));
        }
        assert(n == 10 * (n / 10) + n % 10);
        assert(m == 10 * (m / 10) + m % 10);
    }
}

/// Keys of well-formed timestamps compare as the timestamps do: text order
/// of the keys is chronological order.
pub proof fn lemma_sort_key_order(a: Timestamp, b: Timestamp)
    requires
        a.wf(),
        b.wf(),
    ensures
        text_less(sort_key(a), sort_key(b)) == a.earlier(b),
        (sort_key(a) == sort_key(b)) == (a == b),
{
    assert(pow10(0) == 1);
    assert(pow10(1) == 10);
    assert(pow10(2) == 100);
    assert(pow10(3) == 1000);
    assert(pow10(4) == 10000);
    lemma_padded_order(a.year as int, b.year as int, 4);
    lemma_padded_order(a.month as int, b.month as int, 2);
    lemma_padded_order(a.day as int, b.day as int, 2);
    lemma_padded_order(a.hour as int, b.hour as int, 2);
    lemma_padded_order(a.minute as int, b.minute as int, 2);
    lemma_padded_order(a.second as int, b.second as int, 2);
    lemma_padded_len(a.year as int, 4);
    lemma_padded_len(b.year as int, 4);
    lemma_padded_len(a.month as int, 2);
    lemma_padded_len(b.month as int, 2);
    lemma_padded_len(a.day as int, 2);
    lemma_padded_len(b.day as int, 2);
    lemma_padded_len(a.hour as int, 2);
    lemma_padded_len(b.hour as int, 2);
    lemma_padded_len(a.minute as int, 2);
    lemma_padded_len(b.minute as int, 2);
    lemma_padded_len(a.second as int, 2);
    lemma_padded_len(b.second as int, 2);
    let utc = seq![' ', 'U', 'T', 'C'];
    lemma_text_less_irreflexive(utc);
    let s5a = padded(a.second as int, 2) + utc;
    let s5b = padded(b.second as int, 2) + utc;
    lemma_text_less_concat(padded(a.second as int, 2), utc, padded(b.second as int, 2), utc);
    let c5a = seq![':'] + s5a;
    let c5b = seq![':'] + s5b;
    lemma_text_less_concat(seq![':'], s5a, seq![':'], s5b);
    lemma_text_less_irreflexive(seq![':']);
    let s4a = padded(a.minute as int, 2) + c5a;
    let s4b = padded(b.minute as int, 2) + c5b;
    lemma_text_less_concat(padded(a.minute as int, 2), c5a, padded(b.minute as int, 2), c5b);
    let c4a = seq![':'] + s4a;
    let c4b = seq![':'] + s4b;
    lemma_text_less_concat(seq![':'], s4a, seq![':'], s4b);
    let s3a = padded(a.hour as int, 2) + c4a;
    let s3b = padded(b.hour as int, 2) + c4b;
    lemma_text_less_concat(padded(a.hour as int, 2), c4a, padded(b.hour as int, 2), c4b);
    let c3a = seq![' '] + s3a;
    let c3b = seq![' '] + s3b;
    lemma_text_less_concat(seq![' '], s3a, seq![' '], s3b);
    lemma_text_less_irreflexive(seq![' ']);
    let s2a = padded(a.day as int, 2) + c3a;
    let s2b = padded(b.day as int, 2) + c3b;
    lemma_text_less_concat(padded(a.day as int, 2), c3a, padded(b.day as int, 2), c3b);
    let c2a = seq!['-'] + s2a;
    let c2b = seq!['-'] + s2b;
    lemma_text_less_concat(seq!['-'], s2a, seq!['-'], s2b);
    lemma_text_less_irreflexive(seq!['-']);
    let s1a = padded(a.month as int, 2) + c2a;
    let s1b = padded(b.month as int, 2) + c2b;
    lemma_text_less_concat(padded(a.month as int, 2), c2a, padded(b.month as int, 2), c2b);
    let c1a = seq!['-'] + s1a;
    let c1b = seq!['-'] + s1b;
    lemma_text_less_concat(seq!['-'], s1a, seq!['-'], s1b);
    lemma_text_less_concat(padded(a.year as int, 4), c1a, padded(b.year as int, 4), c1b);
    assert(sort_key(a) == padded(a.year as int, 4) + c1a);
    assert(sort_key(b) == padded(b.year as int, 4) + c1b);
    if sort_key(a) == sort_key(b) {
        lemma_eq_concat(padded(a.year as int, 4), c1a, padded(b.year as int, 4), c1b);
        lemma_eq_concat(seq!['-'], s1a, seq!['-'], s1b);
        lemma_eq_concat(padded(a.month as int, 2), c2a, padded(b.month as int, 2), c2b);
        lemma_eq_concat(seq!['-'], s2a, seq!['-'], s2b);
        lemma_eq_concat(padded(a.day as int, 2), c3a, padded(b.day as int, 2), c3b);
        lemma_eq_concat(seq![' '], s3a, seq![' '], s3b);
        lemma_eq_concat(padded(a.hour as int, 2), c4a, padded(b.hour as int, 2), c4b);
        lemma_eq_concat(seq![':'], s4a, seq![':'], s4b);
        lemma_eq_concat(padded(a.minute as int, 2), c5a, padded(b.minute as int, 2), c5b);
        lemma_eq_concat(seq![':'], s5a, seq![':'], s5b);
        lemma_eq_concat(padded(a.second as int, 2), utc, padded(b.second as int, 2), utc);
    }
}

proof fn lemma_eq_concat(a1: Seq<char>, a2: Seq<char>, b1: Seq<char>, b2: Seq<char>)
    requires
        a1.len() == b1.len(),
        a1 + a2 == b1 + b2,
    ensures
        a1 == b1,
        a2 == b2,
{
    assert(a1 =~= (a1 + a2).subrange(0, a1.len() as int));
    assert(b1 =~= (b1 + b2).subrange(0, b1.len() as int));
    assert(a2 =~= (a1 + a2).subrange(a1.len() as int, (a1 + a2).len() as int));
    assert(b2 =~= (b1 + b2).subrange(b1.len() as int, (b1 + b2).len() as int));
}

fn push_padded(s: &mut String, n: u32, w: usize)
    requires
        w <= 4,
    ensures
        final(s)@ == old(s)@ + padded(n as int, w as nat),
    decreases w,
{
    if w > 0 {
        push_padded(s, n / 10, w - 1);
        let d = (n % 10) as u8;
        push_char(s, (48u8 + d) as char);
        assert(padded(n as int, w as nat) == padded((n / 10) as int, (w - 1) as nat).push(
            digit(n as int % 10),
        ));
        assert(final(s)@ =~= old(s)@ + padded(n as int, w as nat));
    }
}

/// Renders the canonical sort key of `t`.
pub fn to_sort_key(t: &Timestamp) -> (r: String)
    requires
        t.wf(),
    ensures
        r@ == sort_key(*t),
{
    let mut s = String::new();
    push_padded(&mut s, t.year as u32, 4);
    push_char(&mut s, '-');
    push_padded(&mut s, t.month, 2);
    push_char(&mut s, '-');
    push_padded(&mut s, t.day, 2);
    push_char(&mut s, ' ');
    push_padded(&mut s, t.hour, 2);
    push_char(&mut s, ':');
    push_padded(&mut s, t.minute, 2);
    push_char(&mut s, ':');
    push_padded(&mut s, t.second, 2);
    push_char(&mut s, ' ');
    push_char(&mut s, 'U');
    push_char(&mut s, 'T');
    push_char(&mut s, 'C');
    assert(s@ =~= sort_key(*t));
    s
}

impl Timestamp {
    /// Whether the sort key can render `self`.
    pub fn is_renderable(&self) -> (r: bool)
        ensures
            r == self.wf(),
    {
        0 <= self.year && self.year <= 9999 && 1 <= self.month && self.month <= 12 && 1 <= self.day
            && self.day <= 31 && self.hour < 24 && self.minute < 60 && self.second < 60
    }
}

/// The sort key of a parse result, where there is one and it is renderable.
pub open spec fn key_of(p: Option<Timestamp>) -> Option<Seq<char>> {
    match p {
        Some(t) => if t.wf() {
            Some(sort_key(t))
        } else {
            None
        },
        None => None,
    }
}

/// The sort key of a parse result: `None` where parsing failed or the year
/// falls outside 0000..=9999.
pub fn sort_key_of(p: Option<Timestamp>) -> (r: Option<String>)
    ensures
        opt_text(r) == key_of(p),
{
    match p {
        Some(t) => if t.is_renderable() {
            Some(to_sort_key(&t))
        } else {
            None
        },
        None => None,
    }
}

/// The date normalizer: reads `raw` under the strftime pattern `fmt` as
/// local time `offset` seconds east of UTC, and renders the canonical key of
/// that instant in UTC; `None` where the text does not match the pattern.
/// With offset 0 the key holds the fields as parsed. chrono skips a zone name
/// that `%Z` reads, so a caller whose text names its zone passes that zone's
/// offset; every key is then a UTC instant, and keys of different sources
/// compare as the times they stand for.
pub fn normalize_date(raw: &str, fmt: &str, offset: i32) -> (r: Option<String>)
    ensures
        opt_text(r) == key_of(parsed_utc(raw@, fmt@, offset as int)),
{
    sort_key_of(parse_at_offset(raw, fmt, offset))
}

/// The instant that chrono reads from `s` under the strftime pattern `fmt`,
/// taken as local time `offset` seconds east of UTC, in UTC.
pub uninterp spec fn parsed_utc(s: Seq<char>, fmt: Seq<char>, offset: int) -> Option<Timestamp>;

/// The local date and time, `offset` seconds east of UTC, of the instant
/// that the RFC 3339 text `s` writes, as chrono computes it.
pub uninterp spec fn rfc3339_local(s: Seq<char>, offset: int) -> Option<Timestamp>;

/// The text chrono writes for `t` under the strftime pattern `fmt`.
pub uninterp spec fn formatted(t: Timestamp, fmt: Seq<char>) -> Option<Seq<char>>;

/// Days from 1970-01-01 to the given date of the proleptic Gregorian
/// calendar (negative before it).
pub open spec fn days_from_civil(y: int, m: int, d: int) -> int {
    let y1 = if m <= 2 {
        y - 1
    } else {
        y
    };
    let era = y1 / 400;
    let yoe = y1 - era * 400;
    let mp = if m > 2 {
        m - 3
    } else {
        m + 9
    };
    let doy = (153 * mp + 2) / 5 + d - 1;
    let doe = yoe * 365 + yoe / 4 - yoe / 100 + doy;
    era * 146097 + doe - 719468
}

/// Seconds from 1970-01-01 00:00:00 to `t`.
pub open spec fn epoch_seconds(t: Timestamp) -> int {
    days_from_civil(t.year as int, t.month as int, t.day as int) * 86400 + t.hour * 3600
        + t.minute * 60 + t.second
}

/// Whole seconds from `earlier` to `later`, where both are dates chrono holds.
pub open spec fn seconds_between(later: Timestamp, earlier: Timestamp) -> Option<int> {
    if later.is_chrono_date() && earlier.is_chrono_date() {
        Some(epoch_seconds(later) - epoch_seconds(earlier))
    } else {
        None
    }
}

/// Relies on chrono's `NaiveDateTime::parse_from_str`, `TimeDelta::try_seconds`
/// and `NaiveDateTime::checked_sub_signed`, and on the ranges of the dates
/// chrono holds (`Datelike`, `Timelike`, `NaiveDate`).
#[verifier::external_body]
pub(crate) fn parse_at_offset(s: &str, fmt: &str, offset: i32) -> (r: Option<Timestamp>)
    ensures
        r == parsed_utc(s@, fmt@, offset as int),
        r matches Some(t) ==> t.is_chrono_date(),
{
    let local = chrono::NaiveDateTime::parse_from_str(s, fmt).ok()?;
    let d = local.checked_sub_signed(chrono::TimeDelta::try_seconds(offset as i64)?)?;
    Some(Timestamp { year: d.year(), month: d.month(), day: d.day(), hour: d.hour(), minute: d.minute(), second: d.second() })
}

/// Relies on chrono's `DateTime::parse_from_rfc3339`, `FixedOffset::east_opt`
/// and `DateTime::with_timezone`, and on the ranges of the dates chrono holds.
#[verifier::external_body]
pub(crate) fn parse_rfc3339_at_offset(s: &str, offset: i32) -> (r: Option<Timestamp>)
    ensures
        r == rfc3339_local(s@, offset as int),
        r matches Some(t) ==> t.is_chrono_date(),
{
    let zone = chrono::FixedOffset::east_opt(offset)?;
    let d = chrono::DateTime::parse_from_rfc3339(s).ok()?.with_timezone(&zone);
    Some(Timestamp { year: d.year(), month: d.month(), day: d.day(), hour: d.hour(), minute: d.minute(), second: d.second() })
}

/// Relies on chrono's `NaiveDate::from_ymd_opt`, `NaiveDate::and_hms_opt` and
/// `NaiveDateTime::format`; `None` where chrono has no such date or the
/// pattern cannot be written. Every specifier of the display pattern
/// `%a, %b %e, %Y, %I:%M %p` is one chrono writes for any date it holds.
#[verifier::external_body]
pub(crate) fn format_time(t: &Timestamp, fmt: &str) -> (r: Option<String>)
    ensures
        opt_text(r) == formatted(*t, fmt@),
        t.is_chrono_date() && fmt@ == "%a, %b %e, %Y, %I:%M %p"@ ==> r is Some,
{
    let d = chrono::NaiveDate::from_ymd_opt(t.year, t.month, t.day)?.and_hms_opt(t.hour, t.minute, t.second)?;
    let mut out = String::new();
    write!(out, "{}", d.format(fmt)).ok()?;
    Some(out)
}

/// Relies on chrono's `NaiveDate::from_ymd_opt` and `and_hms_opt` (which give
/// `None` exactly outside `is_chrono_date`), `NaiveDateTime::signed_duration_since`
/// and `TimeDelta::num_seconds`: the difference in whole seconds.
#[verifier::external_body]
pub(crate) fn elapsed_seconds(later: &Timestamp, earlier: &Timestamp) -> (r: Option<i64>)
    ensures
        match r {
            Some(n) => seconds_between(*later, *earlier) == Some(n as int),
            None => seconds_between(*later, *earlier) is None,
        },
{
    let a = chrono::NaiveDate::from_ymd_opt(later.year, later.month, later.day)?.and_hms_opt(later.hour, later.minute, later.second)?;
    let b = chrono::NaiveDate::from_ymd_opt(earlier.year, earlier.month, earlier.day)?.and_hms_opt(earlier.hour, earlier.minute, earlier.second)?;
    Some(a.signed_duration_since(b).num_seconds())
}

} // verus!
