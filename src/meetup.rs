//! Meetup-style groups: the upcoming-events listing, with the group's main
//! page and its latest past event as the fallback.

use vstd::prelude::*;
use crate::event::{add_event_to_array_events, event_of};
use crate::markup::{attr_part, inner_html_at, match_at, nth_inner_html, nth_match, text_part};
use crate::source::{Scan, ScanModel, SourceError};
use crate::text::opt_text;
use crate::timestamp::{key_of, normalize_date, parsed_utc, INDIA_OFFSET_SECONDS};
use crate::text::{ends_with, text_ends_with};

verus! {

pub const MEETUP_BASE_URL: &'static str = "https://www.meetup.com";

/// How Meetup writes an event's time: `Sat, Mar 16, 2024, 10:00 AM IST`.
pub const MEETUP_TIME_FORMAT: &'static str = "%a, %b %d, %Y, %I:%M %p %Z";

/// The link of the latest past event on a group's main page.
pub const PAST_CARD_SELECTOR: &'static str = "a[data-event-label=\"past-event-card-1\"]";

/// Seconds east of UTC of the zone named at the end of a Meetup time:
/// `UTC` and `GMT` are UTC, `IST` is India Standard Time; other names are
/// not known.
pub open spec fn zone_offset(time: Seq<char>) -> Option<int> {
    if ends_with(time, " UTC"@) || ends_with(time, " GMT"@) {
        Some(0)
    } else if ends_with(time, " IST"@) {
        Some(INDIA_OFFSET_SECONDS as int)
    } else {
        None
    }
}

/// The sort key of a Meetup time: the time as written, in the zone it names,
/// as a UTC instant. chrono skips the zone name that `%Z` reads, so the zone
/// is taken from the text here.
pub open spec fn time_key(time: Seq<char>) -> Option<Seq<char>> {
    match zone_offset(time) {
        Some(offset) => key_of(parsed_utc(time, MEETUP_TIME_FORMAT@, offset)),
        None => None,
    }
}

/// Seconds east of UTC of the zone named at the end of `time`.
pub fn time_zone_offset(time: &str) -> (r: Option<i32>)
    ensures
        match r {
            Some(o) => zone_offset(time@) == Some(o as int),
            None => zone_offset(time@) is None,
        },
{
    if text_ends_with(time, " UTC") || text_ends_with(time, " GMT") {
        Some(0)
    } else if text_ends_with(time, " IST") {
        Some(INDIA_OFFSET_SECONDS)
    } else {
        None
    }
}

/// The sort key of the Meetup time `time`; `None` where the zone is not
/// known or the text does not match the pattern.
pub fn meetup_sort_key(time: &str) -> (r: Option<String>)
    ensures
        opt_text(r) == time_key(time@),
{
    match time_zone_offset(time) {
        Some(offset) => normalize_date(time, MEETUP_TIME_FORMAT, offset),
        None => None,
    }
}

pub open spec fn upcoming_url(location: Seq<char>) -> Seq<char> {
    MEETUP_BASE_URL@ + "/"@ + location + "/events/"@
}

pub open spec fn past_url(location: Seq<char>) -> Seq<char> {
    MEETUP_BASE_URL@ + "/"@ + location + "/"@
}

/// URL of the page that lists the upcoming events of group `location`.
pub fn fetch_meetup_upcoming_event(location: &str) -> (r: String)
    ensures
        r@ == upcoming_url(location@),
{
    let mut url = String::from_str(MEETUP_BASE_URL);
    url.append("/");
    url.append(location);
    url.append("/events/");
    url
}

/// URL of the main page of group `location`, which shows its past events.
pub fn fetch_meetup_past_event(location: &str) -> (r: String)
    ensures
        r@ == past_url(location@),
{
    let mut url = String::from_str(MEETUP_BASE_URL);
    url.append("/");
    url.append(location);
    url.append("/");
    url
}

/// The event of an upcoming-event card, from its link target, link text and
/// time text.
pub open spec fn upcoming_card_scan(
    loc: Seq<char>,
    href: Option<Seq<char>>,
    title: Option<Seq<char>>,
    time: Option<Seq<char>>,
) -> ScanModel {
    match (href, title, time) {
        (Some(h), Some(t), Some(tm)) => match time_key(tm) {
            Some(k) => ScanModel::Found(event_of(loc, t, tm, MEETUP_BASE_URL@ + h, k)),
            None => ScanModel::Failed(SourceError::DateFormat),
        },
        _ => ScanModel::Failed(SourceError::Extraction),
    }
}

/// What the upcoming-events listing `body` of group `loc` gives.
pub open spec fn upcoming_scan(body: Seq<char>, loc: Seq<char>) -> ScanModel {
    match inner_html_at(body, ".eventCard"@, 0) {
        None => ScanModel::NeedPast,
        Some(card) => {
            let link = match_at(card, ".eventCard--link"@, "href"@, 0);
            upcoming_card_scan(
                loc,
                attr_part(link),
                text_part(link),
                text_part(match_at(card, "time"@, ""@, 0)),
            )
        },
    }
}

/// The event of a past-event card, from the card's link target, title and
/// time text. The link is taken as it stands.
pub open spec fn past_card_scan(
    loc: Seq<char>,
    href: Option<Seq<char>>,
    title: Option<Seq<char>>,
    time: Option<Seq<char>>,
) -> ScanModel {
    match (href, title, time) {
        (Some(h), Some(t), Some(tm)) => match time_key(tm) {
            Some(k) => ScanModel::Found(event_of(loc, t, tm, h, k)),
            None => ScanModel::Failed(SourceError::DateFormat),
        },
        _ => ScanModel::Failed(SourceError::Extraction),
    }
}

/// What the main page `body` of group `loc` gives: its first past-event card.
pub open spec fn past_scan(body: Seq<char>, loc: Seq<char>) -> ScanModel {
    match match_at(body, PAST_CARD_SELECTOR@, "href"@, 0) {
        Some((card, _, href)) => past_card_scan(
            loc,
            href,
            inner_html_at(card, "span"@, 0),
            inner_html_at(card, "time"@, 0),
        ),
        None => past_card_scan(loc, None, None, None),
    }
}

/// The event of an upcoming-event card of group `loc_url`, from the card's
/// link target, link text and time text.
pub fn meetup_card_event(
    loc_url: &str,
    href: Option<String>,
    title: Option<String>,
    time: Option<String>,
) -> (r: Scan)
    ensures
        r@ == upcoming_card_scan(
            loc_url@,
            opt_text(href),
            opt_text(title),
            opt_text(time),
        ),
{
    match (href, title, time) {
        (Some(h), Some(t), Some(tm)) => match meetup_sort_key(tm.as_str()) {
            Some(key) => {
                let mut url = String::from_str(MEETUP_BASE_URL);
                url.append(h.as_str());
                Scan::Found(add_event_to_array_events(loc_url, t, tm, url, key))
            },
            None => Scan::Failed(SourceError::DateFormat),
        },
        _ => Scan::Failed(SourceError::Extraction),
    }
}

/// Reads the upcoming-events listing `body` of group `loc_url`: the first
/// event card, or `NeedPast` where the listing has none.
pub fn parse_meetup_fragment(body: &str, loc_url: &str) -> (r: Scan)
    ensures
        r@ == upcoming_scan(body@, loc_url@),
{
    match nth_inner_html(body, ".eventCard", 0) {
        None => Scan::NeedPast,
        Some(card) => {
            let (title, href) = match nth_match(card.as_str(), ".eventCard--link", "href", 0) {
                Some(link) => (Some(link.1), link.2),
                None => (None, None),
            };
            let time = match nth_match(card.as_str(), "time", "", 0) {
                Some(t) => Some(t.1),
                None => None,
            };
            meetup_card_event(loc_url, href, title, time)
        },
    }
}

/// The event of a past-event card of group `loc_url`, from the card's link
/// target, title and time text.
pub fn meetup_past_event(
    loc_url: &str,
    href: Option<String>,
    title: Option<String>,
    time: Option<String>,
) -> (r: Scan)
    ensures
        r@ == past_card_scan(loc_url@, opt_text(href), opt_text(title), opt_text(time)),
{
    match (href, title, time) {
        (Some(h), Some(t), Some(tm)) => match meetup_sort_key(tm.as_str()) {
            Some(key) => Scan::Found(add_event_to_array_events(loc_url, t, tm, h, key)),
            None => Scan::Failed(SourceError::DateFormat),
        },
        _ => Scan::Failed(SourceError::Extraction),
    }
}

/// Reads the main page `body` of group `loc_url`: its first past-event card.
pub fn parse_meetup_past_fragment(body: &str, loc_url: &str) -> (r: Scan)
    ensures
        r@ == past_scan(body@, loc_url@),
{
    match nth_match(body, PAST_CARD_SELECTOR, "href", 0) {
        Some((card, _, href)) => meetup_past_event(
            loc_url,
            href,
            nth_inner_html(card.as_str(), "span", 0),
            nth_inner_html(card.as_str(), "time", 0),
        ),
        None => meetup_past_event(loc_url, None, None, None),
    }
}

} // verus!
