//! The record every source adapter produces, the community table, and the
//! newest-first order of the feed.

use vstd::multiset::Multiset;
use vstd::prelude::*;
use crate::text::{
    same_text, text_before, text_less, lemma_text_less_irreflexive,
    lemma_text_less_total, lemma_text_less_transitive,
};

verus! {

broadcast use vstd::seq_lib::group_to_multiset_ensures;

/// One listed meetup.
#[derive(Debug, PartialEq, Eq)]
pub struct DataRustIndiaEvents {
    /// Title of the event.
    pub name: String,
    /// Display name of the community that runs it.
    pub community: String,
    /// Date as the source shows it; for reading only.
    pub date: String,
    /// Absolute link to the event page.
    pub url: String,
    /// Canonical sort key (`YYYY-MM-DD HH:MM:SS UTC`).
    pub sort_date: String,
}

/// The fields of an event as texts.
pub struct EventModel {
    pub name: Seq<char>,
    pub community: Seq<char>,
    pub date: Seq<char>,
    pub url: Seq<char>,
    pub sort_date: Seq<char>,
}

impl View for DataRustIndiaEvents {
    type V = EventModel;

    open spec fn view(&self) -> EventModel {
        EventModel {
            name: self.name@,
            community: self.community@,
            date: self.date@,
            url: self.url@,
            sort_date: self.sort_date@,
        }
    }
}

/// Community of a location that the table does not know.
pub open spec fn unknown_community() -> Seq<char> {
    "Unknown Community"@
}

/// The community table, keyed by a source's location identifier.
pub open spec fn community_of(loc: Seq<char>) -> Seq<char> {
    if loc == "rustbangalore"@ {
        "Rust Bangalore"@
    } else if loc == "kerala"@ || loc == "keralars"@ {
        "Rust Kerala"@
    } else if loc == "rustchandigarh"@ {
        "Rust Chandigarh"@
    } else if loc == "rust-pune"@ {
        "Rust Pune"@
    } else if loc == "rust-hyderabad"@ {
        "Rust Hyderabad"@
    } else if loc == "rustdelhi"@ {
        "Rust Delhi"@
    } else {
        unknown_community()
    }
}

/// The community that runs the meetups of location `loc`; an identifier the
/// table does not know gives `"Unknown Community"`.
pub fn community_name(loc: &str) -> (r: String)
    ensures
        r@ == community_of(loc@),
{
    let name = if same_text(loc, "rustbangalore") {
        "Rust Bangalore"
    } else if same_text(loc, "kerala") || same_text(loc, "keralars") {
        "Rust Kerala"
    } else if same_text(loc, "rustchandigarh") {
        "Rust Chandigarh"
    } else if same_text(loc, "rust-pune") {
        "Rust Pune"
    } else if same_text(loc, "rust-hyderabad") {
        "Rust Hyderabad"
    } else if same_text(loc, "rustdelhi") {
        "Rust Delhi"
    } else {
        "Unknown Community"
    };
    String::from_str(name)
}

/// The event built from a source's fields, with its community looked up.
pub open spec fn event_of(
    loc: Seq<char>,
    name: Seq<char>,
    date: Seq<char>,
    url: Seq<char>,
    sort_date: Seq<char>,
) -> EventModel {
    EventModel { name, community: community_of(loc), date, url, sort_date }
}

/// Builds the event of location `loc_url` from the fields a source gave.
pub fn add_event_to_array_events(
    loc_url: &str,
    name: String,
    date: String,
    url: String,
    sort_date: String,
) -> (r: DataRustIndiaEvents)
    ensures
        r@ == event_of(loc_url@, name@, date@, url@, sort_date@),
{
    DataRustIndiaEvents { name, community: community_name(loc_url), date, url, sort_date }
}

/// `s` runs newest first: no event has a smaller key than one after it.
pub open spec fn newest_first(s: Seq<DataRustIndiaEvents>) -> bool {
    forall|i: int, j: int|
        0 <= i < j < s.len() ==> !text_less(#[trigger] s[i].sort_date@, #[trigger] s[j].sort_date@)
}

/// No two events of `s` share a sort key.
pub open spec fn keys_distinct(s: Seq<DataRustIndiaEvents>) -> bool {
    forall|i: int, j: int|
        0 <= i < s.len() && 0 <= j < s.len() && i != j ==> #[trigger] s[i].sort_date@
            != #[trigger] s[j].sort_date@
}

/// Every event of `s` has a greater key than each one after it.
pub open spec fn strictly_newest_first(s: Seq<DataRustIndiaEvents>) -> bool {
    forall|i: int, j: int|
        0 <= i < j < s.len() ==> text_less(#[trigger] s[j].sort_date@, #[trigger] s[i].sort_date@)
}

/// A reordering of events with pairwise distinct keys that runs newest first
/// runs strictly newest first.
proof fn lemma_distinct_keys_strict(before: Seq<DataRustIndiaEvents>, after: Seq<DataRustIndiaEvents>)
    requires
        keys_distinct(before),
        after.to_multiset() == before.to_multiset(),
        newest_first(after),
    ensures
        keys_distinct(after),
        strictly_newest_first(after),
{
    assert forall|i: int, j: int|
        0 <= i < before.len() && 0 <= j < before.len() && i != j implies before[i]
        != before[j] by {
        assert(before[i].sort_date@ != before[j].sort_date@);
    }
    assert(before.no_duplicates());
    before.lemma_multiset_has_no_duplicates();
    after.lemma_multiset_has_no_duplicates_conv();
    assert forall|i: int, j: int|
        0 <= i < after.len() && 0 <= j < after.len() && i != j implies #[trigger] after[i].sort_date@
        != #[trigger] after[j].sort_date@ by {
        assert(after[i] != after[j]);
        assert(after.contains(after[i]));
        assert(after.contains(after[j]));
        assert(after.to_multiset().count(after[i]) > 0);
        assert(after.to_multiset().count(after[j]) > 0);
        assert(before.to_multiset().count(after[i]) > 0);
        assert(before.to_multiset().count(after[j]) > 0);
        assert(before.contains(after[i]));
        assert(before.contains(after[j]));
        let p = choose|p: int| 0 <= p < before.len() && before[p] == after[i];
        let q = choose|q: int| 0 <= q < before.len() && before[q] == after[j];
        assert(p != q);
    }
    assert forall|i: int, j: int| 0 <= i < j < after.len() implies text_less(
        #[trigger] after[j].sort_date@,
        #[trigger] after[i].sort_date@,
    ) by {
        lemma_text_less_total(after[i].sort_date@, after[j].sort_date@);
    }
}

/// Reordering events reorders their views alike.
pub proof fn lemma_views_to_multiset(a: Seq<DataRustIndiaEvents>, b: Seq<DataRustIndiaEvents>)
    requires
        a.to_multiset() == b.to_multiset(),
    ensures
        a.map_values(|e: DataRustIndiaEvents| e@).to_multiset() == b.map_values(
            |e: DataRustIndiaEvents| e@,
        ).to_multiset(),
    decreases a.len(),
{
    let f = |e: DataRustIndiaEvents| e@;
    if a.len() == 0 {
        assert(b.to_multiset().len() == 0);
        assert(b.len() == 0);
        assert(a.map_values(f) =~= b.map_values(f));
    } else {
        let x = a.last();
        let a1 = a.drop_last();
        assert(a =~= a1.push(x));
        assert(a.to_multiset().count(x) > 0);
        assert(b.to_multiset().count(x) > 0);
        assert(b.contains(x));
        let k = choose|k: int| 0 <= k < b.len() && b[k] == x;
        let b1 = b.remove(k);
        assert(b1.to_multiset() == b.to_multiset().remove(x));
        assert(a.to_multiset() == a1.to_multiset().insert(x));
        assert(a1.to_multiset() =~= b1.to_multiset());
        lemma_views_to_multiset(a1, b1);
        assert(a.map_values(f) =~= a1.map_values(f).push(f(x)));
        assert(b.map_values(f).remove(k) =~= b1.map_values(f));
        assert(b.map_values(f)[k] == f(x));
        assert(b.map_values(f).to_multiset().count(f(x)) > 0);
        assert(b1.map_values(f).to_multiset() == b.map_values(f).to_multiset().remove(f(x)));
        assert(a.map_values(f).to_multiset() =~= b.map_values(f).to_multiset());
    }
}

/// Sorts `events` by sort key, newest first. Where no two keys are equal
/// the result is strictly newest first.
pub fn sort_by_date_descending(events: &mut Vec<DataRustIndiaEvents>)
    ensures
        final(events)@.to_multiset() == old(events)@.to_multiset(),
        newest_first(final(events)@),
        keys_distinct(old(events)@) ==> strictly_newest_first(final(events)@),
{
    let ghost original = events@;
    let mut out: Vec<DataRustIndiaEvents> = Vec::new();
    while events.len() > 0
        invariant
            out@.to_multiset().add(events@.to_multiset()) == original.to_multiset(),
            newest_first(out@),
        decreases events@.len(),
    {
        let ghost rest = events@;
        let e = events.remove(0);
        let mut pos: usize = 0;
        let mut found = false;
        while !found && pos < out.len()
            invariant
                pos <= out@.len(),
                newest_first(out@),
                found ==> pos < out@.len() && text_less(out@[pos as int].sort_date@, e.sort_date@),
                forall|k: int| 0 <= k < pos ==> !text_less(#[trigger] out@[k].sort_date@, e.sort_date@),
            decreases 2 * (out@.len() - pos) + (if found { 0int } else { 1int }),
        {
            if text_before(out[pos].sort_date.as_str(), e.sort_date.as_str()) {
                found = true;
            } else {
                pos = pos + 1;
            }
        }
        let ghost before = out@;
        proof {
            vstd::seq_lib::to_multiset_insert(before, pos as int, e);
            assert(rest.to_multiset().count(e) > 0);
        }
        out.insert(pos, e);
        proof {
            assert forall|i: int, j: int| 0 <= i < j < out@.len() implies !text_less(
                #[trigger] out@[i].sort_date@,
                #[trigger] out@[j].sort_date@,
            ) by {
                if i < pos && j == pos {
                } else if i == pos && j > pos {
                    let a = before[pos as int].sort_date@;
                    let c = before[j - 1].sort_date@;
                    // before[pos] < e, and before[j-1] <= before[pos]
                    if text_less(e.sort_date@, c) {
                        if j - 1 > pos {
                            assert(!text_less(a, c));
                            lemma_text_less_transitive(a, e.sort_date@, c);
                        } else {
                            lemma_text_less_transitive(a, e.sort_date@, a);
                            lemma_text_less_irreflexive(a);
                        }
                    }
                } else if i < pos && j > pos {
                    assert(out@[i] == before[i]);
                    assert(out@[j] == before[j - 1]);
                } else if j < pos {
                } else {
                    assert(out@[i] == before[i - 1]);
                    assert(out@[j] == before[j - 1]);
                }
            }
            assert(out@.to_multiset().add(events@.to_multiset()) =~= original.to_multiset());
        }
    }
    proof {
        assert(events@.to_multiset() =~= Multiset::empty());
        assert(out@.to_multiset().add(Multiset::empty()) =~= out@.to_multiset());
        if keys_distinct(original) {
            lemma_distinct_keys_strict(original, out@);
        }
    }
    *events = out;
}

} // verus!
