//! Hasgeek-style communities: the project listing with its upcoming card, and
//! the page of past projects as the fallback.

use vstd::prelude::*;
use crate::event::{add_event_to_array_events, event_of};
use crate::markup::{attr_part, inner_html_at, match_at, nth_attr, nth_inner_html};
use crate::source::{Scan, ScanModel, SourceError};
use crate::text::{opt_text, same_text, whitespace_words, words};
use crate::timestamp::{key_of, normalize_date, parsed_utc};

verus! {

pub const HASGEEK_BASE_URL: &'static str = "https://hasgeek.com";

pub const HASGEEK_PAST_URL: &'static str = "past.projects?page=1";

/// Pattern of the text built from an upcoming card's calendar.
pub const HASGEEK_UPCOMING_FORMAT: &'static str = "%a, %d %b %Y, %I:%M %p";

/// Pattern of a past project's date once the time of day is appended.
pub const HASGEEK_PAST_FORMAT: &'static str = "%d %b %Y %H:%M:%S%.f UTC";

/// The time of day appended to a past project's date: midnight, UTC.
pub const PAST_TIME_SUFFIX: &'static str = " 00:00:0.000000000 UTC";

/// What the past-projects page shows when there are none.
pub const NO_PAST_PROJECTS: &'static str = "No past projects";

pub open spec fn upcoming_url(location: Seq<char>) -> Seq<char> {
    HASGEEK_BASE_URL@ + "/"@ + location
}

pub open spec fn past_url(location: Seq<char>) -> Seq<char> {
    HASGEEK_BASE_URL@ + "/"@ + location + "/"@ + HASGEEK_PAST_URL@
}

/// URL of the project listing of community `location`.
pub fn fetch_hasgeek_upcoming_data(location: &str) -> (r: String)
    ensures
        r@ == upcoming_url(location@),
{
    let mut url = String::from_str(HASGEEK_BASE_URL);
    url.append("/");
    url.append(location);
    url
}

/// URL of the first page of past projects of community `location`.
pub fn fetch_hasgeek_past_data(location: &str) -> (r: String)
    ensures
        r@ == past_url(location@),
{
    let mut url = String::from_str(HASGEEK_BASE_URL);
    url.append("/");
    url.append(location);
    url.append("/");
    url.append(HASGEEK_PAST_URL);
    url
}

/// The date shown for an upcoming card: `<weekday>, <month> <day>, <year>, <time>`,
/// with month and year the two words of the calendar's month label.
pub open spec fn display_date(
    weekday: Seq<char>,
    day: Seq<char>,
    month_words: Seq<Seq<char>>,
    time: Seq<char>,
) -> Option<Seq<char>> {
    if month_words.len() >= 2 {
        Some(weekday + ", "@ + month_words[0] + " "@ + day + ", "@ + month_words[1] + ", "@ + time)
    } else {
        None
    }
}

/// The text an upcoming card's date is read from:
/// `<weekday>, <day> <month label>, 12:00 AM`.
pub open spec fn sort_input(weekday: Seq<char>, day: Seq<char>, month_label: Seq<char>) -> Seq<
    char,
> {
    weekday + ", "@ + day + " "@ + month_label + ", 12:00 AM"@
}

/// Builds the shown date of an upcoming card; `None` where the month label
/// has fewer than two words.
pub fn hasgeek_display_date(weekday: &str, day: &str, month_label: &str, time: &str) -> (r: Option<
    String,
>)
    ensures
        opt_text(r) == display_date(weekday@, day@, whitespace_words(month_label@), time@),
{
    let w = words(month_label);
    proof {
        assert(w@.map_values(|s: String| s@).len() == w@.len());
    }
    if w.len() < 2 {
        return None;
    }
    proof {
        assert(w@.map_values(|s: String| s@)[0] == w@[0]@);
        assert(w@.map_values(|s: String| s@)[1] == w@[1]@);
    }
    let mut s = String::from_str(weekday);
    s.append(", ");
    s.append(w[0].as_str());
    s.append(" ");
    s.append(day);
    s.append(", ");
    s.append(w[1].as_str());
    s.append(", ");
    s.append(time);
    Some(s)
}

/// Builds the text an upcoming card's date is read from.
pub fn hasgeek_sort_input(weekday: &str, day: &str, month_label: &str) -> (r: String)
    ensures
        r@ == sort_input(weekday@, day@, month_label@),
{
    let mut s = String::from_str(weekday);
    s.append(", ");
    s.append(day);
    s.append(" ");
    s.append(month_label);
    s.append(", 12:00 AM");
    s
}

pub open spec fn or_empty(o: Option<Seq<char>>) -> Seq<char> {
    match o {
        Some(s) => s,
        None => Seq::empty(),
    }
}

/// What an upcoming card gives, from its parts: the card's title and link,
/// the time label, the weekday, day and month labels (each empty where
/// missing). A card without a time label is skipped; one without a month
/// label fails.
pub open spec fn card_scan(
    loc: Seq<char>,
    title: Option<Seq<char>>,
    href: Option<Seq<char>>,
    time: Option<Seq<char>>,
    calendar: Option<Seq<char>>,
    weekday: Seq<char>,
    day: Seq<char>,
    month_label: Seq<char>,
) -> ScanModel {
    match time {
        None => ScanModel::Nothing,
        Some(tm) => if month_label.len() == 0 {
            ScanModel::Failed(SourceError::Extraction)
        } else {
            match (calendar, title, href) {
            (Some(_), Some(t), Some(h)) => match display_date(
                weekday,
                day,
                whitespace_words(month_label),
                tm,
            ) {
                None => ScanModel::Failed(SourceError::Extraction),
                Some(shown) => match key_of(
                    parsed_utc(sort_input(weekday, day, month_label), HASGEEK_UPCOMING_FORMAT@, 0),
                ) {
                    Some(k) => ScanModel::Found(event_of(loc, t, shown, HASGEEK_BASE_URL@ + h, k)),
                    None => ScanModel::Failed(SourceError::DateFormat),
                },
            },
            _ => ScanModel::Failed(SourceError::Extraction),
            }
        },
    }
}

/// What the project listing `body` of community `loc` gives.
pub open spec fn upcoming_scan(body: Seq<char>, loc: Seq<char>) -> ScanModel {
    if inner_html_at(body, ".upcoming"@, 0) is None {
        ScanModel::NeedPast
    } else {
        match inner_html_at(body, "a.card--upcoming"@, 0) {
            None => ScanModel::Failed(SourceError::Extraction),
            Some(card) => {
                let calendar = inner_html_at(card, "p.calendar__weekdays__dates__date--active"@, 0);
                let cal = or_empty(calendar);
                card_scan(
                    loc,
                    attr_part(match_at(body, "a.card--upcoming"@, "data-cy-title"@, 0)),
                    attr_part(match_at(body, "a.card--upcoming"@, "href"@, 0)),
                    inner_html_at(card, "span.calendar__weekdays__dates__time"@, 0),
                    calendar,
                    or_empty(inner_html_at(cal, "span.calendar__weekdays__dates__date__name"@, 0)),
                    or_empty(inner_html_at(cal, "span.calendar__weekdays__dates__date__day"@, 0)),
                    or_empty(inner_html_at(card, "span.calendar__month__name"@, 0)),
                )
            },
        }
    }
}

/// What a past-projects page gives from its parts: its first paragraph, and
/// the title and link target of the second paragraph's link. Nothing where
/// the first paragraph says there are no past projects; else the project,
/// dated by the first paragraph at midnight UTC.
pub open spec fn past_entry_scan(
    loc: Seq<char>,
    first: Seq<char>,
    title: Option<Seq<char>>,
    href: Option<Seq<char>>,
) -> ScanModel {
    if first == NO_PAST_PROJECTS@ {
        ScanModel::Nothing
    } else {
        match (title, href) {
            (Some(t), Some(h)) => match key_of(
                parsed_utc(
                    first + PAST_TIME_SUFFIX@,
                    HASGEEK_PAST_FORMAT@,
                    0,
                ),
            ) {
                Some(k) => ScanModel::Found(event_of(loc, t, first, HASGEEK_BASE_URL@ + h, k)),
                None => ScanModel::Failed(SourceError::DateFormat),
            },
            _ => ScanModel::Failed(SourceError::Extraction),
        }
    }
}

/// What the past-projects page `body` of community `loc` gives.
pub open spec fn past_scan(body: Seq<char>, loc: Seq<char>) -> ScanModel {
    match inner_html_at(body, "body"@, 0) {
        None => ScanModel::Failed(SourceError::Extraction),
        Some(inner) => match inner_html_at(inner, "p"@, 0) {
            None => ScanModel::Failed(SourceError::Extraction),
            Some(first) => match inner_html_at(inner, "p"@, 1) {
                None => past_entry_scan(loc, first, None, None),
                Some(second) => past_entry_scan(
                    loc,
                    first,
                    inner_html_at(second, "a"@, 0),
                    attr_part(match_at(second, "a"@, "href"@, 0)),
                ),
            },
        },
    }
}

fn text_or_empty(o: Option<String>) -> (r: String)
    ensures
        r@ == or_empty(opt_text(o)),
{
    match o {
        Some(s) => s,
        None => String::new(),
    }
}

/// The event of an upcoming card of community `loc_url`, from its parts.
pub fn hasgeek_card_event(
    loc_url: &str,
    title: Option<String>,
    href: Option<String>,
    time: Option<String>,
    calendar: Option<String>,
    weekday: &str,
    day: &str,
    month_label: &str,
) -> (r: Scan)
    ensures
        r@ == card_scan(
            loc_url@,
            opt_text(title),
            opt_text(href),
            opt_text(time),
            opt_text(calendar),
            weekday@,
            day@,
            month_label@,
        ),
{
    let tm = match time {
        None => return Scan::Nothing,
        Some(tm) => tm,
    };
    if month_label.unicode_len() == 0 {
        return Scan::Failed(SourceError::Extraction);
    }
    match (calendar, title, href) {
        (Some(_), Some(t), Some(h)) => match hasgeek_display_date(weekday, day, month_label, tm.as_str()) {
            None => Scan::Failed(SourceError::Extraction),
            Some(shown) => {
                let input = hasgeek_sort_input(weekday, day, month_label);
                match normalize_date(input.as_str(), HASGEEK_UPCOMING_FORMAT, 0) {
                    Some(key) => {
                        let mut url = String::from_str(HASGEEK_BASE_URL);
                        url.append(h.as_str());
                        Scan::Found(add_event_to_array_events(loc_url, t, shown, url, key))
                    },
                    None => Scan::Failed(SourceError::DateFormat),
                }
            },
        },
        _ => Scan::Failed(SourceError::Extraction),
    }
}

/// Reads the project listing `body` of community `loc_url`: its first upcoming
/// card, or `NeedPast` where nothing is marked upcoming.
pub fn parse_hasgeek_fragment(body: &str, loc_url: &str) -> (r: Scan)
    ensures
        r@ == upcoming_scan(body@, loc_url@),
{
    if nth_inner_html(body, ".upcoming", 0).is_none() {
        return Scan::NeedPast;
    }
    let card = match nth_inner_html(body, "a.card--upcoming", 0) {
        None => return Scan::Failed(SourceError::Extraction),
        Some(card) => card,
    };
    let calendar = nth_inner_html(card.as_str(), "p.calendar__weekdays__dates__date--active", 0);
    let cal = match &calendar {
        Some(c) => c.clone(),
        None => String::new(),
    };
    let weekday = text_or_empty(
        nth_inner_html(cal.as_str(), "span.calendar__weekdays__dates__date__name", 0),
    );
    let day = text_or_empty(
        nth_inner_html(cal.as_str(), "span.calendar__weekdays__dates__date__day", 0),
    );
    let month_label = text_or_empty(
        nth_inner_html(card.as_str(), "span.calendar__month__name", 0),
    );
    hasgeek_card_event(
        loc_url,
        nth_attr(body, "a.card--upcoming", "data-cy-title", 0),
        nth_attr(body, "a.card--upcoming", "href", 0),
        nth_inner_html(card.as_str(), "span.calendar__weekdays__dates__time", 0),
        calendar,
        weekday.as_str(),
        day.as_str(),
        month_label.as_str(),
    )
}

/// The project of a past-projects page of community `loc_url`, from its
/// first paragraph and the title and link target of the second paragraph's link.
pub fn hasgeek_past_event(
    loc_url: &str,
    first: String,
    title: Option<String>,
    href: Option<String>,
) -> (r: Scan)
    ensures
        r@ == past_entry_scan(loc_url@, first@, opt_text(title), opt_text(href)),
{
    if same_text(first.as_str(), NO_PAST_PROJECTS) {
        return Scan::Nothing;
    }
    match (title, href) {
        (Some(title), Some(href)) => {
            let mut input = first.clone();
            input.append(PAST_TIME_SUFFIX);
            match normalize_date(input.as_str(), HASGEEK_PAST_FORMAT, 0) {
                Some(key) => {
                    let mut url = String::from_str(HASGEEK_BASE_URL);
                    url.append(href.as_str());
                    Scan::Found(add_event_to_array_events(loc_url, title, first, url, key))
                },
                None => Scan::Failed(SourceError::DateFormat),
            }
        },
        _ => Scan::Failed(SourceError::Extraction),
    }
}

/// Reads the past-projects page `body` of community `loc_url`.
pub fn parse_hasgeek_past_event_fragment(body: &str, loc_url: &str) -> (r: Scan)
    ensures
        r@ == past_scan(body@, loc_url@),
{
    let inner = match nth_inner_html(body, "body", 0) {
        None => return Scan::Failed(SourceError::Extraction),
        Some(inner) => inner,
    };
    let first = match nth_inner_html(inner.as_str(), "p", 0) {
        None => return Scan::Failed(SourceError::Extraction),
        Some(first) => first,
    };
    match nth_inner_html(inner.as_str(), "p", 1) {
        None => hasgeek_past_event(loc_url, first, None, None),
        Some(second) => hasgeek_past_event(
            loc_url,
            first,
            nth_inner_html(second.as_str(), "a", 0),
            nth_attr(second.as_str(), "a", "href", 0),
        ),
    }
}

} // verus!
