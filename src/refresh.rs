//! One refresh of the feed as a state machine: it names the next page to
//! fetch, takes each fetched page (or the failure to fetch it), and at the end
//! hands over the collected events, newest first. The caller does the fetching.

use vstd::prelude::*;
use crate::event::{
    community_of, unknown_community,
    lemma_views_to_multiset, newest_first, sort_by_date_descending, strictly_newest_first,
    DataRustIndiaEvents, EventModel,
};
use crate::hasgeek;
use crate::luma;
use crate::meetup;
use crate::source::{Scan, ScanModel, SourceError};
use crate::text::opt_text;

verus! {

/// Number of sources: three Meetup groups, three Hasgeek communities, then
/// the single Luma event.
pub const SOURCE_COUNT: usize = 7;

/// Location identifier of source `i`, in the fixed order of a refresh.
pub open spec fn location_of(i: int) -> Seq<char> {
    if i == 0 {
        "rust-pune"@
    } else if i == 1 {
        "rust-hyderabad"@
    } else if i == 2 {
        "rustdelhi"@
    } else if i == 3 {
        "rustbangalore"@
    } else if i == 4 {
        "keralars"@
    } else if i == 5 {
        "rustchandigarh"@
    } else {
        "rust-mumbai-2"@
    }
}

/// Location identifier of source `i`.
pub fn source_location(i: usize) -> (r: &'static str)
    requires
        i < SOURCE_COUNT,
    ensures
        r@ == location_of(i as int),
{
    if i == 0 {
        "rust-pune"
    } else if i == 1 {
        "rust-hyderabad"
    } else if i == 2 {
        "rustdelhi"
    } else if i == 3 {
        "rustbangalore"
    } else if i == 4 {
        "keralars"
    } else if i == 5 {
        "rustchandigarh"
    } else {
        "rust-mumbai-2"
    }
}

/// Every configured location has a community of its own in the table: none
/// falls back to the unknown community.
pub proof fn lemma_configured_locations_known(i: int)
    requires
        0 <= i < 6,
    ensures
        community_of(location_of(i)) != unknown_community(),
{
    reveal_strlit("Unknown Community");
    reveal_strlit("Rust Bangalore");
    reveal_strlit("Rust Kerala");
    reveal_strlit("Rust Chandigarh");
    reveal_strlit("Rust Pune");
    reveal_strlit("Rust Hyderabad");
    reveal_strlit("Rust Delhi");
    assert("Rust Bangalore"@[5] != "Unknown Community"@[5]);
    assert("Rust Kerala"@[5] != "Unknown Community"@[5]);
    assert("Rust Chandigarh"@[5] != "Unknown Community"@[5]);
    assert("Rust Pune"@[5] != "Unknown Community"@[5]);
    assert("Rust Hyderabad"@[5] != "Unknown Community"@[5]);
    assert("Rust Delhi"@[5] != "Unknown Community"@[5]);
}

/// A source that contributed nothing, and why.
#[derive(Debug)]
pub struct Failure {
    pub location: String,
    pub error: SourceError,
}

/// A refresh under way.
pub struct Refresh {
    /// The source being read; `SOURCE_COUNT` once all are done.
    next: usize,
    /// Whether the source's page of past events is the one being read.
    past: bool,
    events: Vec<DataRustIndiaEvents>,
    failures: Vec<Failure>,
}

pub struct RefreshModel {
    pub next: int,
    pub past: bool,
    pub events: Seq<EventModel>,
    pub failures: Seq<(Seq<char>, SourceError)>,
}

impl View for Refresh {
    type V = RefreshModel;

    closed spec fn view(&self) -> RefreshModel {
        RefreshModel {
            next: self.next as int,
            past: self.past,
            events: self.events@.map_values(|e: DataRustIndiaEvents| e@),
            failures: self.failures@.map_values(|f: Failure| (f.location@, f.error)),
        }
    }
}

/// The page to fetch in state `m`, if any is left.
pub open spec fn request_of(m: RefreshModel) -> Option<Seq<char>> {
    let loc = location_of(m.next);
    if m.next < 0 || m.next >= SOURCE_COUNT {
        None
    } else if m.next < 3 {
        Some(
            if m.past {
                meetup::past_url(loc)
            } else {
                meetup::upcoming_url(loc)
            },
        )
    } else if m.next < 6 {
        Some(
            if m.past {
                hasgeek::past_url(loc)
            } else {
                hasgeek::upcoming_url(loc)
            },
        )
    } else {
        Some(luma::LUMA_BASE_URL@)
    }
}

/// What page `body` gives for source `i`, on its past-events page if `past`.
pub open spec fn scan_of(i: int, past: bool, body: Seq<char>) -> ScanModel {
    let loc = location_of(i);
    if i < 3 {
        if past {
            meetup::past_scan(body, loc)
        } else {
            meetup::upcoming_scan(body, loc)
        }
    } else if i < 6 {
        if past {
            hasgeek::past_scan(body, loc)
        } else {
            hasgeek::upcoming_scan(body, loc)
        }
    } else {
        match luma::luma_scan(body) {
            Ok(e) => ScanModel::Found(e),
            Err(err) => ScanModel::Failed(err),
        }
    }
}

/// State `m` moved on to the next source.
pub open spec fn advanced(m: RefreshModel) -> RefreshModel {
    RefreshModel { next: m.next + 1, past: false, ..m }
}

/// State `m` moved on to the next source after the current one failed with `err`.
pub open spec fn failed(m: RefreshModel, err: SourceError) -> RefreshModel {
    RefreshModel { failures: m.failures.push((location_of(m.next), err)), ..advanced(m) }
}

/// The state after the page requested in `m` came back as `page` (`None`: it
/// could not be fetched). A failing source is recorded and skipped; a source
/// without an upcoming event is asked for its past events next.
pub open spec fn after_page(m: RefreshModel, page: Option<Seq<char>>) -> RefreshModel {
    if m.next < 0 || m.next >= SOURCE_COUNT {
        m
    } else {
        match page {
            None => failed(m, SourceError::Fetch),
            Some(body) => match scan_of(m.next, m.past, body) {
                ScanModel::Found(e) => RefreshModel { events: m.events.push(e), ..advanced(m) },
                ScanModel::Nothing => advanced(m),
                ScanModel::NeedPast => if m.past {
                    advanced(m)
                } else {
                    RefreshModel { past: true, ..m }
                },
                ScanModel::Failed(err) => failed(m, err),
            },
        }
    }
}

/// No two events of `s` share a sort key.
pub open spec fn model_keys_distinct(s: Seq<EventModel>) -> bool {
    forall|i: int, j: int|
        0 <= i < s.len() && 0 <= j < s.len() && i != j ==> #[trigger] s[i].sort_date
            != #[trigger] s[j].sort_date
}

/// How much is left to do in state `m`: every page handled makes it smaller.
pub open spec fn remaining(m: RefreshModel) -> int {
    2 * (SOURCE_COUNT - m.next) + if m.past {
        0int
    } else {
        1int
    }
}

impl Refresh {
    pub closed spec fn wf(&self) -> bool {
        &&& self.next <= SOURCE_COUNT
        &&& (self.past ==> self.next < 6)
    }

    /// A refresh that has read nothing yet.
    pub fn new() -> (r: Refresh)
        ensures
            r.wf(),
            r@.next == 0,
            !r@.past,
            r@.events.len() == 0,
            r@.failures.len() == 0,
    {
        let r = Refresh { next: 0, past: false, events: Vec::new(), failures: Vec::new() };
        assert(r@.events =~= Seq::<EventModel>::empty());
        assert(r@.failures =~= Seq::<(Seq<char>, SourceError)>::empty());
        r
    }

    /// Whether every source has been read.
    pub fn is_done(&self) -> (r: bool)
        ensures
            r == (self@.next >= SOURCE_COUNT),
    {
        self.next >= SOURCE_COUNT
    }

    /// URL of the page to fetch next; `None` once every source has been read.
    pub fn next_request(&self) -> (r: Option<String>)
        requires
            self.wf(),
        ensures
            opt_text(r) == request_of(self@),
    {
        if self.next >= SOURCE_COUNT {
            return None;
        }
        let loc = source_location(self.next);
        if self.next < 3 {
            Some(
                if self.past {
                    meetup::fetch_meetup_past_event(loc)
                } else {
                    meetup::fetch_meetup_upcoming_event(loc)
                },
            )
        } else if self.next < 6 {
            Some(
                if self.past {
                    hasgeek::fetch_hasgeek_past_data(loc)
                } else {
                    hasgeek::fetch_hasgeek_upcoming_data(loc)
                },
            )
        } else {
            Some(luma::fetch_luma_data())
        }
    }

    fn scan(&self, body: &str) -> (r: Scan)
        requires
            self.wf(),
            self.next < SOURCE_COUNT,
        ensures
            r@ == scan_of(self@.next, self@.past, body@),
    {
        let loc = source_location(self.next);
        if self.next < 3 {
            if self.past {
                meetup::parse_meetup_past_fragment(body, loc)
            } else {
                meetup::parse_meetup_fragment(body, loc)
            }
        } else if self.next < 6 {
            if self.past {
                hasgeek::parse_hasgeek_past_event_fragment(body, loc)
            } else {
                hasgeek::parse_hasgeek_fragment(body, loc)
            }
        } else {
            match luma::parse_luma_fragment(body) {
                Ok(e) => Scan::Found(e),
                Err(err) => Scan::Failed(err),
            }
        }
    }

    fn advance(&mut self)
        requires
            old(self).wf(),
            old(self).next < SOURCE_COUNT,
        ensures
            final(self).wf(),
            final(self)@ == advanced(old(self)@),
    {
        self.next = self.next + 1;
        self.past = false;
        proof {
            assert(self@.events =~= old(self)@.events);
            assert(self@.failures =~= old(self)@.failures);
        }
    }

    fn fail(&mut self, error: SourceError)
        requires
            old(self).wf(),
            old(self).next < SOURCE_COUNT,
        ensures
            final(self).wf(),
            final(self)@ == failed(old(self)@, error),
    {
        let location = String::from_str(source_location(self.next));
        self.failures.push(Failure { location, error });
        self.next = self.next + 1;
        self.past = false;
        proof {
            assert(self@.events =~= old(self)@.events);
            assert(self@.failures =~= old(self)@.failures.push((location_of(old(self)@.next), error)));
        }
    }

    /// Takes the page requested last: `Some(body)` as fetched, `None` where
    /// the fetch failed.
    pub fn on_page(&mut self, page: Option<&str>)
        requires
            old(self).wf(),
        ensures
            final(self).wf(),
            final(self)@ == after_page(
                old(self)@,
                match page {
                    Some(b) => Some(b@),
                    None => None,
                },
            ),
            old(self)@.next < SOURCE_COUNT ==> remaining(final(self)@) < remaining(old(self)@),
    {
        if self.next >= SOURCE_COUNT {
            return;
        }
        let body = match page {
            None => {
                self.fail(SourceError::Fetch);
                return;
            },
            Some(body) => body,
        };
        match self.scan(body) {
            Scan::Found(e) => {
                let ghost m = self@;
                self.events.push(e);
                self.next = self.next + 1;
                self.past = false;
                proof {
                    assert(self@.events =~= m.events.push(e@));
                    assert(self@.failures =~= m.failures);
                }
            },
            Scan::Nothing => self.advance(),
            Scan::NeedPast => {
                if self.past || self.next >= 6 {
                    self.advance();
                } else {
                    self.past = true;
                    proof {
                        assert(self@.events =~= old(self)@.events);
                        assert(self@.failures =~= old(self)@.failures);
                    }
                }
            },
            Scan::Failed(err) => self.fail(err),
        }
    }

    /// The sources that contributed nothing so far, and why.
    pub fn failures(&self) -> (r: &Vec<Failure>)
        ensures
            r@.map_values(|f: Failure| (f.location@, f.error)) == self@.failures,
    {
        &self.failures
    }

    /// The collected events, newest first.
    pub fn finish(self) -> (r: Vec<DataRustIndiaEvents>)
        ensures
            r@.map_values(|e: DataRustIndiaEvents| e@).to_multiset() == self@.events.to_multiset(),
            newest_first(r@),
            model_keys_distinct(self@.events) ==> strictly_newest_first(r@),
    {
        let mut events = self.events;
        let ghost before = events@;
        sort_by_date_descending(&mut events);
        proof {
            lemma_views_to_multiset(events@, before);
            if model_keys_distinct(self@.events) {
                assert forall|i: int, j: int|
                    0 <= i < before.len() && 0 <= j < before.len() && i != j implies #[trigger] before[i].sort_date@
                    != #[trigger] before[j].sort_date@ by {
                    assert(self@.events[i] == before[i]@);
                    assert(self@.events[j] == before[j]@);
                    assert(self@.events[i].sort_date != self@.events[j].sort_date);
                }
            }
        }
        events
    }
}

} // verus!
