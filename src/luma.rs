//! The single-event source: one fixed Luma event page, read from its title
//! heading and its JSON-LD block.

use vstd::prelude::*;
use crate::event::{DataRustIndiaEvents, EventModel};
use crate::markup::{inner_html_at, json_string, json_string_field, nth_inner_html};
use crate::source::SourceError;
use crate::text::{opt_text, text_less};
use crate::timestamp::{
    format_time, formatted, key_of, lemma_sort_key_order, parse_rfc3339_at_offset, rfc3339_local, sort_key_of, Timestamp,
    INDIA_OFFSET_SECONDS,
};

verus! {

pub const LUMA_BASE_URL: &'static str = "https://lu.ma/rust-mumbai-2";

/// The community whose event page this source reads.
pub const LUMA_COMMUNITY: &'static str = "Rust Mumbai";

/// How the event's time is shown before the zone name: `Sun, Mar 10, 2024, 02:30 PM`.
pub const LUMA_DISPLAY_FORMAT: &'static str = "%a, %b %e, %Y, %I:%M %p";

pub const LUMA_TITLE_SELECTOR: &'static str = "h1.title";

pub const LUMA_DATA_SELECTOR: &'static str = "script[type=\"application/ld+json\"]";

/// URL of the event page.
pub fn fetch_luma_data() -> (r: String)
    ensures
        r@ == LUMA_BASE_URL@,
{
    String::from_str(LUMA_BASE_URL)
}

/// The event from its title, its start as local time in India and as UTC,
/// and its page URL: the date is shown in IST, the sort key is the UTC instant.
pub open spec fn luma_event_of(
    title: Seq<char>,
    local: Option<Timestamp>,
    utc: Option<Timestamp>,
    url: Seq<char>,
) -> Result<EventModel, SourceError> {
    match (local, utc) {
        (Some(t), Some(u)) => match (formatted(t, LUMA_DISPLAY_FORMAT@), key_of(Some(u))) {
            (Some(shown), Some(k)) => Ok(
                EventModel {
                    name: title,
                    community: LUMA_COMMUNITY@,
                    date: shown + " IST"@,
                    url,
                    sort_date: k,
                },
            ),
            _ => Err(SourceError::DateFormat),
        },
        _ => Err(SourceError::DateFormat),
    }
}

/// The `startDate` of the page `body`, where the page has its title heading
/// and a JSON-LD block with both `startDate` and `@id`.
pub open spec fn luma_start(body: Seq<char>) -> Option<Seq<char>> {
    match (
        inner_html_at(body, LUMA_TITLE_SELECTOR@, 0),
        inner_html_at(body, LUMA_DATA_SELECTOR@, 0),
    ) {
        (Some(_), Some(data)) => match (
            json_string_field(data, "startDate"@),
            json_string_field(data, "@id"@),
        ) {
            (Some(start), Some(_)) => Some(start),
            _ => None,
        },
        _ => None,
    }
}

/// Both times were read, and the UTC one has a four-digit year.
pub open spec fn times_renderable(local: Option<Timestamp>, utc: Option<Timestamp>) -> bool {
    match (local, utc) {
        (Some(t), Some(u)) => t.is_chrono_date() && u.wf(),
        _ => false,
    }
}

/// The page has all it needs, chrono reads its `startDate`, and the UTC year
/// has four digits.
pub open spec fn page_readable(body: Seq<char>) -> bool {
    match luma_start(body) {
        Some(start) => match (rfc3339_local(start, INDIA_OFFSET_SECONDS as int), rfc3339_local(start, 0)) {
            (Some(_), Some(u)) => u.wf(),
            _ => false,
        },
        None => false,
    }
}

/// What the event page `body` gives.
pub open spec fn luma_scan(body: Seq<char>) -> Result<EventModel, SourceError> {
    match (
        inner_html_at(body, LUMA_TITLE_SELECTOR@, 0),
        inner_html_at(body, LUMA_DATA_SELECTOR@, 0),
    ) {
        (Some(title), Some(data)) => match (
            json_string_field(data, "startDate"@),
            json_string_field(data, "@id"@),
        ) {
            (Some(start), Some(url)) => luma_event_of(
                title,
                rfc3339_local(start, INDIA_OFFSET_SECONDS as int),
                rfc3339_local(start, 0),
                url,
            ),
            _ => Err(SourceError::Extraction),
        },
        _ => Err(SourceError::Extraction),
    }
}

/// The start of the event on page `body`, in UTC, where the page gives one.
pub open spec fn utc_start(body: Seq<char>) -> Option<Timestamp> {
    match luma_start(body) {
        Some(start) => rfc3339_local(start, 0),
        None => None,
    }
}

/// Of two event pages that are read, the one that starts first in time has
/// the smaller sort key, and equal starts give equal keys.
pub proof fn lemma_luma_keys_follow_time(a: Seq<char>, b: Seq<char>)
    requires
        luma_scan(a) is Ok,
        luma_scan(b) is Ok,
    ensures
        utc_start(a) matches Some(ua) && utc_start(b) matches Some(ub) && text_less(
            luma_scan(a)->Ok_0.sort_date,
            luma_scan(b)->Ok_0.sort_date,
        ) == ua.earlier(ub) && (luma_scan(a)->Ok_0.sort_date == luma_scan(b)->Ok_0.sort_date) == (ua == ub),
{
    let ua = utc_start(a)->Some_0;
    let ub = utc_start(b)->Some_0;
    lemma_sort_key_order(ua, ub);
}

pub open spec fn result_view(r: Result<DataRustIndiaEvents, SourceError>) -> Result<
    EventModel,
    SourceError,
> {
    match r {
        Ok(e) => Ok(e@),
        Err(err) => Err(err),
    }
}

/// Builds the event from its title, its start as local time in India and as
/// UTC, and its URL. It succeeds whenever both times are dates chrono holds
/// and the UTC year has four digits.
pub fn luma_event(title: String, local: Option<Timestamp>, utc: Option<Timestamp>, url: String) -> (r:
    Result<DataRustIndiaEvents, SourceError>)
    ensures
        result_view(r) == luma_event_of(title@, local, utc, url@),
        times_renderable(local, utc) ==> r is Ok,
{
    let (t, u) = match (local, utc) {
        (Some(t), Some(u)) => (t, u),
        _ => return Err(SourceError::DateFormat),
    };
    match (format_time(&t, LUMA_DISPLAY_FORMAT), sort_key_of(Some(u))) {
        (Some(shown), Some(key)) => {
            let mut date = shown;
            date.append(" IST");
            Ok(
                DataRustIndiaEvents {
                    name: title,
                    community: String::from_str(LUMA_COMMUNITY),
                    date,
                    url,
                    sort_date: key,
                },
            )
        },
        _ => Err(SourceError::DateFormat),
    }
}

/// Reads the event page `body`: the title heading, and `startDate` and `@id`
/// of the JSON-LD block. Any of them missing fails the source. It succeeds
/// exactly when they are there, chrono reads `startDate`, and its UTC year
/// has four digits.
pub fn parse_luma_fragment(body: &str) -> (r: Result<DataRustIndiaEvents, SourceError>)
    ensures
        result_view(r) == luma_scan(body@),
        r is Ok <==> page_readable(body@),
{
    match (nth_inner_html(body, LUMA_TITLE_SELECTOR, 0), nth_inner_html(body, LUMA_DATA_SELECTOR, 0)) {
        (Some(title), Some(data)) => match (
            json_string(data.as_str(), "startDate"),
            json_string(data.as_str(), "@id"),
        ) {
            (Some(start), Some(url)) => luma_event(
                title,
                parse_rfc3339_at_offset(start.as_str(), INDIA_OFFSET_SECONDS),
                parse_rfc3339_at_offset(start.as_str(), 0),
                url,
            ),
            _ => Err(SourceError::Extraction),
        },
        _ => Err(SourceError::Extraction),
    }
}

} // verus!
