use timeline::html::{documents_page, timeline_entries, EARLIEST_REFERENCE};
use timeline::integrations::paperless_ngx::{APIDoc, Timestamp};

fn at(seconds: i64) -> Timestamp {
    Timestamp { seconds, nanoseconds: 0 }
}

fn doc(id: i32, title: &str, created: i64) -> APIDoc {
    APIDoc { id, title: title.to_string(), created: at(created) }
}

const NOW: i64 = 1_710_084_600; // 2024-03-10 15:30 UTC

#[test]
fn entries_describe_dates_relative_to_now() {
    let docs = vec![
        doc(1, "fresh", NOW - 5),
        doc(2, "today", 1_710_072_000),
        doc(3, "yesterday", 1_709_985_600),
        doc(4, "week", 1_709_726_400),
        doc(5, "year", 1_704_441_900),
        doc(6, "older", 1_704_067_140),
    ];
    let entries = timeline_entries(&docs, at(NOW)).unwrap();
    let shown: Vec<(String, String)> =
        entries.iter().map(|e| (e.title.clone(), e.created.clone())).collect();
    assert_eq!(
        shown,
        vec![
            ("fresh".to_string(), "Just now".to_string()),
            ("today".to_string(), "12:00 today".to_string()),
            ("yesterday".to_string(), "12:00 yesterday".to_string()),
            ("week".to_string(), "12:00 Wednesday".to_string()),
            ("year".to_string(), "5 January, 08:05".to_string()),
            ("older".to_string(), "31 December 2023, 23:59".to_string()),
        ]
    );
}

#[test]
fn entries_feed_the_timeline_page() {
    let docs = vec![doc(1, "A & B", 1_710_072_000)];
    let entries = timeline_entries(&docs, at(NOW)).unwrap();
    let page = documents_page(&entries);
    assert!(page.contains("<li>A &amp; B 12:00 today</li>"));
}

#[test]
fn unrepresentable_creation_time_gives_none() {
    let docs = vec![doc(1, "ok", NOW), doc(2, "bad", i64::MAX)];
    assert!(timeline_entries(&docs, at(NOW)).is_none());
}

#[test]
fn earliest_reference_does_not_panic() {
    let earliest: i64 = EARLIEST_REFERENCE;
    let docs = vec![doc(1, "old", earliest - 3 * 86_400)];
    let entries = timeline_entries(&docs, at(earliest)).unwrap();
    assert_eq!(entries.len(), 1);
}

#[test]
fn no_documents_no_entries() {
    assert_eq!(timeline_entries(&vec![], at(NOW)).unwrap().len(), 0);
}

#[test]
fn earliest_reference_is_a_week_after_chronos_first_day() {
    let first = chrono::NaiveDate::MIN.and_hms_opt(0, 0, 0).unwrap().and_utc().timestamp();
    assert_eq!(first, -8_334_601_228_800);
    assert_eq!(EARLIEST_REFERENCE, first + 7 * 86_400);
}
