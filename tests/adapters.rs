use rust_india_events::event::DataRustIndiaEvents;
use rust_india_events::hasgeek::{
    fetch_hasgeek_past_data, fetch_hasgeek_upcoming_data, hasgeek_card_event,
    hasgeek_display_date, hasgeek_past_event, hasgeek_sort_input, parse_hasgeek_fragment,
    parse_hasgeek_past_event_fragment,
};
use rust_india_events::luma::{fetch_luma_data, luma_event, parse_luma_fragment};
use rust_india_events::meetup::{
    fetch_meetup_past_event, fetch_meetup_upcoming_event, meetup_card_event, meetup_past_event,
    meetup_sort_key, time_zone_offset,
    parse_meetup_fragment, parse_meetup_past_fragment,
};
use rust_india_events::source::{Scan, SourceError};
use rust_india_events::timestamp::Timestamp;

const MEETUP_UPCOMING: &str = r#"<html><body><div class="eventCard"><a class="eventCard--link" href="/rust-pune/events/123/">Rust Pune <b>Meetup</b> #5</a><time datetime="2024-03-16">Sat, Mar 16, 2024, 10:00 AM IST</time></div></body></html>"#;

const MEETUP_NO_UPCOMING: &str = r#"<html><body><div class="emptyList">No upcoming events</div></body></html>"#;

const MEETUP_PAST: &str = r#"<html><body><a data-event-label="past-event-card-1" href="https://www.meetup.com/rust-pune/events/99/"><time>Sat, Feb 10, 2024, 10:00 AM IST</time><span>Past Meetup</span></a></body></html>"#;

const HASGEEK_UPCOMING: &str = r#"<html><body><div class="upcoming"><a class="card--upcoming" data-cy-title="Rust Bangalore March" href="/rustbangalore/march/"><p class="calendar__weekdays__dates__date--active"><span class="calendar__weekdays__dates__date__name">Sat</span><span class="calendar__weekdays__dates__date__day">16</span></p><span class="calendar__month__name">Mar 2024</span><span class="calendar__weekdays__dates__time">10:00 AM</span></a></div></body></html>"#;

const HASGEEK_UPCOMING_NO_TIME: &str = r#"<html><body><div class="upcoming"><a class="card--upcoming" data-cy-title="Rust Bangalore March" href="/rustbangalore/march/"><p class="calendar__weekdays__dates__date--active"><span class="calendar__weekdays__dates__date__name">Sat</span><span class="calendar__weekdays__dates__date__day">16</span></p><span class="calendar__month__name">Mar 2024</span></a></div></body></html>"#;

const HASGEEK_PAST: &str = r#"<html><body><p>10 Feb 2024</p><p><a href="/rustbangalore/february/">Rust Bangalore February</a></p></body></html>"#;

const HASGEEK_NO_PAST: &str = r#"<html><body><p>No past projects</p></body></html>"#;

const LUMA_PAGE: &str = r#"<html><head><script type="application/ld+json">{"@context":"https://schema.org","@id":"https://lu.ma/rust-mumbai-2","name":"Rust Mumbai","startDate":"2024-03-10T09:00:00Z"}</script></head><body><h1 class="title">Rust Mumbai Meetup</h1></body></html>"#;

fn found(scan: Scan) -> DataRustIndiaEvents {
    match scan {
        Scan::Found(e) => e,
        other => panic!("expected an event, got {:?}", other),
    }
}

#[test]
fn meetup_urls() {
    assert_eq!(fetch_meetup_upcoming_event("rust-pune"), "https://www.meetup.com/rust-pune/events/");
    assert_eq!(fetch_meetup_past_event("rust-pune"), "https://www.meetup.com/rust-pune/");
}

#[test]
fn hasgeek_urls() {
    assert_eq!(fetch_hasgeek_upcoming_data("rustbangalore"), "https://hasgeek.com/rustbangalore");
    assert_eq!(
        fetch_hasgeek_past_data("rustbangalore"),
        "https://hasgeek.com/rustbangalore/past.projects?page=1"
    );
}

#[test]
fn luma_url() {
    assert_eq!(fetch_luma_data(), "https://lu.ma/rust-mumbai-2");
}

#[test]
fn meetup_upcoming_card() {
    let e = found(parse_meetup_fragment(MEETUP_UPCOMING, "rust-pune"));
    assert_eq!(e.name, "Rust Pune Meetup #5");
    assert_eq!(e.community, "Rust Pune");
    assert_eq!(e.date, "Sat, Mar 16, 2024, 10:00 AM IST");
    assert_eq!(e.url, "https://www.meetup.com/rust-pune/events/123/");
    assert_eq!(e.sort_date, "2024-03-16 04:30:00 UTC");
}

#[test]
fn meetup_without_upcoming_card_asks_for_past_page() {
    assert!(matches!(parse_meetup_fragment(MEETUP_NO_UPCOMING, "rust-pune"), Scan::NeedPast));
}

#[test]
fn meetup_past_event_keeps_raw_href() {
    let e = found(parse_meetup_past_fragment(MEETUP_PAST, "rust-pune"));
    assert_eq!(e.name, "Past Meetup");
    assert_eq!(e.date, "Sat, Feb 10, 2024, 10:00 AM IST");
    assert_eq!(e.url, "https://www.meetup.com/rust-pune/events/99/");
    assert_eq!(e.sort_date, "2024-02-10 04:30:00 UTC");
}

#[test]
fn meetup_past_page_without_card_fails() {
    assert!(matches!(
        parse_meetup_past_fragment(MEETUP_NO_UPCOMING, "rust-pune"),
        Scan::Failed(SourceError::Extraction)
    ));
}

#[test]
fn meetup_card_with_bad_time_is_a_date_error() {
    let r = meetup_card_event(
        "rust-pune",
        Some("/x/".to_string()),
        Some("T".to_string()),
        Some("next Saturday".to_string()),
    );
    assert!(matches!(r, Scan::Failed(SourceError::DateFormat)));
}

#[test]
fn meetup_card_without_link_is_an_extraction_error() {
    let r = meetup_card_event(
        "rust-pune",
        None,
        Some("T".to_string()),
        Some("Sat, Mar 16, 2024, 10:00 AM IST".to_string()),
    );
    assert!(matches!(r, Scan::Failed(SourceError::Extraction)));
}

#[test]
fn hasgeek_upcoming_card() {
    let e = found(parse_hasgeek_fragment(HASGEEK_UPCOMING, "rustbangalore"));
    assert_eq!(e.name, "Rust Bangalore March");
    assert_eq!(e.community, "Rust Bangalore");
    assert_eq!(e.date, "Sat, Mar 16, 2024, 10:00 AM");
    assert_eq!(e.url, "https://hasgeek.com/rustbangalore/march/");
    assert_eq!(e.sort_date, "2024-03-16 00:00:00 UTC");
}

#[test]
fn hasgeek_card_without_time_is_skipped() {
    assert!(matches!(
        parse_hasgeek_fragment(HASGEEK_UPCOMING_NO_TIME, "rustbangalore"),
        Scan::Nothing
    ));
}

#[test]
fn hasgeek_without_upcoming_asks_for_past_page() {
    assert!(matches!(parse_hasgeek_fragment(HASGEEK_PAST, "rustbangalore"), Scan::NeedPast));
}

#[test]
fn hasgeek_upcoming_marker_without_card_fails() {
    let page = r#"<html><body><div class="upcoming"></div></body></html>"#;
    assert!(matches!(
        parse_hasgeek_fragment(page, "rustbangalore"),
        Scan::Failed(SourceError::Extraction)
    ));
}

#[test]
fn hasgeek_past_project() {
    let e = found(parse_hasgeek_past_event_fragment(HASGEEK_PAST, "keralars"));
    assert_eq!(e.name, "Rust Bangalore February");
    assert_eq!(e.community, "Rust Kerala");
    assert_eq!(e.date, "10 Feb 2024");
    assert_eq!(e.url, "https://hasgeek.com/rustbangalore/february/");
    assert_eq!(e.sort_date, "2024-02-10 00:00:00 UTC");
}

#[test]
fn hasgeek_no_past_projects_gives_nothing() {
    assert!(matches!(
        parse_hasgeek_past_event_fragment(HASGEEK_NO_PAST, "rustchandigarh"),
        Scan::Nothing
    ));
}

#[test]
fn hasgeek_display_date_from_parts() {
    assert_eq!(
        hasgeek_display_date("Sat", "16", "  Mar\n 2024 ", "10:00 AM"),
        Some("Sat, Mar 16, 2024, 10:00 AM".to_string())
    );
    assert_eq!(hasgeek_display_date("Sat", "16", "Mar", "10:00 AM"), None);
}

#[test]
fn hasgeek_sort_input_from_parts() {
    assert_eq!(hasgeek_sort_input("Sat", "16", "Mar 2024"), "Sat, 16 Mar 2024, 12:00 AM");
}

#[test]
fn hasgeek_card_with_wrong_weekday_is_a_date_error() {
    let r = hasgeek_card_event(
        "rustbangalore",
        Some("T".to_string()),
        Some("/x/".to_string()),
        Some("10:00 AM".to_string()),
        Some(String::new()),
        "Mon",
        "16",
        "Mar 2024",
    );
    assert!(matches!(r, Scan::Failed(SourceError::DateFormat)));
}

#[test]
fn luma_event_in_ist() {
    let e = parse_luma_fragment(LUMA_PAGE).unwrap();
    assert_eq!(e.name, "Rust Mumbai Meetup");
    assert_eq!(e.community, "Rust Mumbai");
    assert_eq!(e.date, "Sun, Mar 10, 2024, 02:30 PM IST");
    assert!(e.date.ends_with("IST"));
    assert_eq!(e.url, "https://lu.ma/rust-mumbai-2");
    assert_eq!(e.sort_date, "2024-03-10 09:00:00 UTC");
}

#[test]
fn luma_page_without_data_block_fails() {
    let page = r#"<html><body><h1 class="title">Rust Mumbai Meetup</h1></body></html>"#;
    assert_eq!(parse_luma_fragment(page).unwrap_err(), SourceError::Extraction);
}

#[test]
fn luma_bad_start_date_is_a_date_error() {
    let page = r#"<html><head><script type="application/ld+json">{"@id":"u","startDate":"soon"}</script></head><body><h1 class="title">T</h1></body></html>"#;
    assert_eq!(parse_luma_fragment(page).unwrap_err(), SourceError::DateFormat);
}

#[test]
fn luma_event_from_parts() {
    let local = Timestamp { year: 2024, month: 12, day: 1, hour: 9, minute: 5, second: 0 };
    let utc = Timestamp { year: 2024, month: 12, day: 1, hour: 3, minute: 35, second: 0 };
    let e = luma_event("T".to_string(), Some(local), Some(utc), "u".to_string()).unwrap();
    assert_eq!(e.date, "Sun, Dec  1, 2024, 09:05 AM IST");
    assert_eq!(e.sort_date, "2024-12-01 03:35:00 UTC");
    assert_eq!(
        luma_event("T".to_string(), None, Some(utc), "u".to_string()).unwrap_err(),
        SourceError::DateFormat
    );
}

#[test]
fn luma_keys_follow_start_times() {
    let page = |start: &str| {
        format!(
            r#"<script type="application/ld+json">{{"@id":"u","startDate":"{}"}}</script><h1 class="title">T</h1>"#,
            start
        )
    };
    let evening = parse_luma_fragment(&page("2024-03-09T20:00:00Z")).unwrap();
    let morning = parse_luma_fragment(&page("2024-03-10T09:00:00Z")).unwrap();
    let same = parse_luma_fragment(&page("2024-03-10T14:30:00+05:30")).unwrap();
    assert_eq!(evening.date, "Sun, Mar 10, 2024, 01:30 AM IST");
    assert!(evening.sort_date < morning.sort_date);
    assert_eq!(same.sort_date, morning.sort_date);
}

#[test]
fn meetup_past_event_from_parts() {
    let e = found(meetup_past_event(
        "rust-delhi",
        Some("https://www.meetup.com/rustdelhi/events/5/".to_string()),
        Some("Delhi".to_string()),
        Some("Sat, Feb 10, 2024, 10:00 AM IST".to_string()),
    ));
    assert_eq!(e.url, "https://www.meetup.com/rustdelhi/events/5/");
    assert_eq!(e.sort_date, "2024-02-10 04:30:00 UTC");
    assert!(matches!(
        meetup_past_event("rustdelhi", None, Some("D".to_string()), Some("x".to_string())),
        Scan::Failed(SourceError::Extraction)
    ));
}

#[test]
fn hasgeek_past_event_from_parts() {
    assert!(matches!(
        hasgeek_past_event("rustbangalore", "No past projects".to_string(), None, None),
        Scan::Nothing
    ));
    assert!(matches!(
        hasgeek_past_event("rustbangalore", "10 Feb 2024".to_string(), None, None),
        Scan::Failed(SourceError::Extraction)
    ));
    assert!(matches!(
        hasgeek_past_event(
            "rustbangalore",
            "sometime".to_string(),
            Some("T".to_string()),
            Some("/t/".to_string())
        ),
        Scan::Failed(SourceError::DateFormat)
    ));
    let e = found(hasgeek_past_event(
        "rustbangalore",
        "10 Feb 2024".to_string(),
        Some("T".to_string()),
        Some("/t/".to_string()),
    ));
    assert_eq!(e.url, "https://hasgeek.com/t/");
    assert_eq!(e.sort_date, "2024-02-10 00:00:00 UTC");
}

#[test]
fn hasgeek_card_without_month_label_fails() {
    let r = hasgeek_card_event(
        "rustbangalore",
        Some("T".to_string()),
        Some("/x/".to_string()),
        Some("10:00 AM".to_string()),
        Some(String::new()),
        "Sat",
        "16",
        "",
    );
    assert!(matches!(r, Scan::Failed(SourceError::Extraction)));
}

#[test]
fn attributes_keep_source_order_in_titles() {
    let page = r#"<html><body><p>10 Feb 2024</p><p><a href="/t/"><span data-b="2" data-a="1" class="c">T</span></a></p></body></html>"#;
    let e = found(parse_hasgeek_past_event_fragment(page, "rustbangalore"));
    assert_eq!(e.name, r#"<span data-b="2" data-a="1" class="c">T</span>"#);
}

#[test]
fn meetup_past_event_in_utc_keeps_its_hours() {
    let page = r#"<a data-event-label="past-event-card-1" href="https://www.meetup.com/rust-pune/events/300/"><span>Rust Pune #12</span><time>Sat, Mar 09, 2024, 07:00 PM UTC</time></a>"#;
    let e = found(parse_meetup_past_fragment(page, "rust-pune"));
    assert_eq!(e.name, "Rust Pune #12");
    assert_eq!(e.date, "Sat, Mar 09, 2024, 07:00 PM UTC");
    assert_eq!(e.url, "https://www.meetup.com/rust-pune/events/300/");
    assert_eq!(e.sort_date, "2024-03-09 19:00:00 UTC");
}

#[test]
fn meetup_sort_keys_by_zone() {
    assert_eq!(meetup_sort_key("Sat, Mar 09, 2024, 11:00 AM UTC").unwrap(), "2024-03-09 11:00:00 UTC");
    assert_eq!(meetup_sort_key("Sat, Mar 09, 2024, 01:00 PM UTC").unwrap(), "2024-03-09 13:00:00 UTC");
    assert_eq!(meetup_sort_key("Sat, Mar 09, 2024, 12:00 AM GMT").unwrap(), "2024-03-09 00:00:00 UTC");
    assert_eq!(meetup_sort_key("Sat, Mar 09, 2024, 12:00 PM IST").unwrap(), "2024-03-09 06:30:00 UTC");
    assert_eq!(meetup_sort_key("Sat, Mar 09, 2024, 12:00 PM PST"), None);
    assert_eq!(time_zone_offset("10:00 AM IST"), Some(19800));
    assert_eq!(time_zone_offset("10:00 AM"), None);
}

#[test]
fn meetup_card_in_unknown_zone_is_a_date_error() {
    let r = meetup_card_event(
        "rust-pune",
        Some("/x/".to_string()),
        Some("T".to_string()),
        Some("Sat, Mar 16, 2024, 10:00 AM CET".to_string()),
    );
    assert!(matches!(r, Scan::Failed(SourceError::DateFormat)));
}

#[test]
fn hasgeek_examples_keyed_at_midnight_utc() {
    let past = r#"<html><body><p>02 Feb 2024</p><p><a href='/rustbangalore/feb-meetup/'>Rust Bangalore Feb</a></p></body></html>"#;
    let e = found(parse_hasgeek_past_event_fragment(past, "rustbangalore"));
    assert_eq!(e.name, "Rust Bangalore Feb");
    assert_eq!(e.community, "Rust Bangalore");
    assert_eq!(e.date, "02 Feb 2024");
    assert_eq!(e.url, "https://hasgeek.com/rustbangalore/feb-meetup/");
    assert_eq!(e.sort_date, "2024-02-02 00:00:00 UTC");
    let r = hasgeek_card_event(
        "rustbangalore",
        Some("March Meetup".to_string()),
        Some("/rustbangalore/mar/".to_string()),
        Some("10:00 AM".to_string()),
        Some(String::new()),
        "Sun",
        "10",
        "Mar 2024",
    );
    let e = found(r);
    assert_eq!(e.date, "Sun, Mar 10, 2024, 10:00 AM");
    assert_eq!(e.url, "https://hasgeek.com/rustbangalore/mar/");
    assert_eq!(e.sort_date, "2024-03-10 00:00:00 UTC");
}
