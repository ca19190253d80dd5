//! The cache controller: whether a request is served from the stored feed or
//! the feed is refreshed first. The store itself (two string keys) is the
//! caller's; this module decides from what was read.

use vstd::prelude::*;
use crate::text::opt_text;
use crate::timestamp::{
    elapsed_seconds, key_of, parse_at_offset, parsed_utc, seconds_between, sort_key_of, Timestamp,
};

verus! {

/// Store key of the time of the last refresh.
pub const LAST_FETCH_AT_KEY: &'static str = "last_fetch_at";

/// Store key of the serialised feed.
pub const EVENTS_DATA_KEY: &'static str = "events_data";

/// The feed is refreshed once more than this many seconds have passed since
/// the last refresh.
pub const REFRESH_THRESHOLD_SECONDS: i64 = 60;

/// Pattern the stored refresh time is read with; it also accepts a
/// fractional second.
pub const MARKER_FORMAT: &'static str = "%Y-%m-%d %H:%M:%S%.f UTC";

/// What to do with a request.
#[derive(Debug)]
pub enum CacheDecision {
    /// Run the refresh, store its result and serve it.
    Refresh,
    /// Serve this stored payload as it is.
    Serve(String),
}

/// Whether the stored feed may still be served at `now`: the refresh time
/// was stored and can be read, and at most the threshold has passed since.
pub open spec fn is_fresh(marker: Option<Seq<char>>, now: Timestamp) -> bool {
    match marker {
        None => false,
        Some(m) => match parsed_utc(m, MARKER_FORMAT@, 0) {
            None => false,
            Some(last) => match seconds_between(now, last) {
                None => false,
                Some(elapsed) => elapsed <= REFRESH_THRESHOLD_SECONDS,
            },
        },
    }
}

/// The payload to serve, or `None` for a refresh: a missing or unreadable
/// refresh time, or a missing payload, count as stale.
pub open spec fn served(marker: Option<Seq<char>>, data: Option<Seq<char>>, now: Timestamp) -> Option<
    Seq<char>,
> {
    if is_fresh(marker, now) {
        data
    } else {
        None
    }
}

pub open spec fn decision_view(d: CacheDecision) -> Option<Seq<char>> {
    match d {
        CacheDecision::Serve(p) => Some(p@),
        CacheDecision::Refresh => None,
    }
}

/// Decides, from what the store holds under the two keys, whether to serve
/// the stored payload at `now` or to refresh.
pub fn decide(last_fetch_at: Option<&str>, events_data: Option<String>, now: &Timestamp) -> (r:
    CacheDecision)
    ensures
        decision_view(r) == served(
            match last_fetch_at {
                Some(m) => Some(m@),
                None => None,
            },
            opt_text(events_data),
            *now,
        ),
{
    let marker = match last_fetch_at {
        None => return CacheDecision::Refresh,
        Some(m) => m,
    };
    let last = match parse_at_offset(marker, MARKER_FORMAT, 0) {
        None => return CacheDecision::Refresh,
        Some(last) => last,
    };
    let fresh = match elapsed_seconds(now, &last) {
        None => false,
        Some(elapsed) => elapsed <= REFRESH_THRESHOLD_SECONDS,
    };
    if !fresh {
        return CacheDecision::Refresh;
    }
    match events_data {
        Some(p) => CacheDecision::Serve(p),
        None => CacheDecision::Refresh,
    }
}

/// The refresh time to store after a refresh at `now`; `None` where the
/// year of `now` falls outside 0000..=9999.
pub fn refresh_marker(now: &Timestamp) -> (r: Option<String>)
    ensures
        opt_text(r) == key_of(Some(*now)),
{
    sort_key_of(Some(*now))
}

/// While at most the threshold has passed since the stored refresh time, two
/// requests in a row are both served the stored payload, byte for byte, and
/// neither starts a refresh (so neither fetches anything).
pub proof fn lemma_fresh_requests_serve_same_payload(
    marker: Seq<char>,
    data: Seq<char>,
    first: Timestamp,
    second: Timestamp,
)
    requires
        parsed_utc(marker, MARKER_FORMAT@, 0) matches Some(last) && (seconds_between(first, last) matches Some(e) && e <= REFRESH_THRESHOLD_SECONDS) && (seconds_between(second, last) matches Some(e) && e <= REFRESH_THRESHOLD_SECONDS),
    ensures
        served(Some(marker), Some(data), first) == Some(data),
        served(Some(marker), Some(data), second) == Some(data),
{
}

} // verus!
