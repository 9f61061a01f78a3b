use chrono::{Datelike, NaiveDate, Timelike};
use paperwall::history::{History, HistoryEntry, Timestamp, MAX_ENTRIES};

fn at(second: u32) -> Timestamp {
    Timestamp {
        year: 2024,
        month: 3,
        day: 5,
        hour: 7,
        minute: 8,
        second,
        nanosecond: 0,
        offset_seconds: 3600,
    }
}

fn history_of(n: usize) -> History {
    let mut h = History::new();
    for i in 0..n {
        h.add(at((i % 60) as u32), "wallhaven", &format!("https://img/{}", i), None);
    }
    h
}

#[test]
fn new_history_is_empty() {
    assert!(History::new().entries.is_empty());
    assert!(History::default().entries.is_empty());
}

#[test]
fn add_appends_the_newest_last() {
    let mut h = History::new();
    h.add(at(1), "bing", "https://a", Some("/tmp/a.jpg".to_string()));
    h.add(at(2), "pexels", "https://b", None);
    assert_eq!(h.entries.len(), 2);
    assert_eq!(h.entries[1].image_url, "https://b");
    assert_eq!(h.entries[1].source, "pexels");
    assert_eq!(h.entries[0].local_path, Some("/tmp/a.jpg".to_string()));
    assert_eq!(h.entries[0].timestamp, at(1));
}

#[test]
fn history_keeps_the_most_recent_fifty() {
    let h = history_of(55);
    assert_eq!(MAX_ENTRIES, 50);
    assert_eq!(h.entries.len(), 50);
    assert_eq!(h.entries[0].image_url, "https://img/5");
    assert_eq!(h.entries[49].image_url, "https://img/54");
}

#[test]
fn oversized_history_is_cut_on_add() {
    let mut h = History::new();
    for i in 0..60 {
        h.entries.push(HistoryEntry {
            timestamp: at(0),
            source: "bing".to_string(),
            image_url: format!("u{}", i),
            local_path: None,
        });
    }
    h.add(at(1), "bing", "new", None);
    assert_eq!(h.entries.len(), 50);
    assert_eq!(h.entries[0].image_url, "u11");
    assert_eq!(h.entries[49].image_url, "new");
}

#[test]
fn get_counts_steps_back_from_the_newest() {
    let h = history_of(3);
    assert_eq!(h.get(0), None);
    assert_eq!(h.get(1).unwrap().image_url, "https://img/1");
    assert_eq!(h.get(2).unwrap().image_url, "https://img/0");
    assert_eq!(h.get(3), None);
    assert_eq!(h.get(usize::MAX), None);
    assert_eq!(History::new().get(1), None);
}

#[test]
fn revert_after_add_gives_the_previous_wallpaper() {
    let mut h = history_of(50);
    let previous = h.entries[49].clone();
    h.add(at(9), "unsplash", "https://new", None);
    assert_eq!(h.get(1), Some(previous));
}

#[test]
fn listing_is_newest_first_and_numbered() {
    let h = history_of(3);
    let lines = h.list();
    assert_eq!(lines.len(), 3);
    assert_eq!(lines[0].number, 1);
    assert_eq!(lines[0].image_url, "https://img/2");
    assert_eq!(lines[2].number, 3);
    assert_eq!(lines[2].image_url, "https://img/0");
    assert_eq!(lines[1].source, "wallhaven");
    assert_eq!(lines[1].time, "2024-03-05 07:08:01");
    assert!(History::new().list().is_empty());
}

#[test]
fn listed_number_matches_revert_steps() {
    let h = history_of(4);
    let lines = h.list();
    for steps in 1..4 {
        assert_eq!(lines[steps].image_url, h.get(steps).unwrap().image_url);
    }
}

#[test]
fn time_display_pads_fields() {
    let t = Timestamp {
        year: 999,
        month: 1,
        day: 2,
        hour: 0,
        minute: 5,
        second: 9,
        nanosecond: 123,
        offset_seconds: 0,
    };
    assert_eq!(t.display(), "0999-01-02 00:05:09");
    assert_eq!(Timestamp { year: 12345, ..t }.display(), "+12345-01-02 00:05:09");
    assert_eq!(Timestamp { year: -5, ..t }.display(), "-0005-01-02 00:05:09");
    assert_eq!(Timestamp { year: 2025, month: 12, day: 31, hour: 23, ..t }.display(), "2025-12-31 23:05:09");
}

#[test]
fn revert_path_falls_back_to_the_url() {
    let e = HistoryEntry {
        timestamp: at(0),
        source: "bing".to_string(),
        image_url: "https://x".to_string(),
        local_path: Some("/w/x.jpg".to_string()),
    };
    assert_eq!(e.revert_path(true), Some("/w/x.jpg".to_string()));
    assert_eq!(e.revert_path(false), None);
    let no_file = HistoryEntry { local_path: None, ..e.clone() };
    assert_eq!(no_file.revert_path(true), None);
    assert_eq!(e.duplicate(), e);
}

#[test]
fn leap_second_shows_as_sixty() {
    let t = Timestamp {
        year: 2016,
        month: 12,
        day: 31,
        hour: 23,
        minute: 59,
        second: 59,
        nanosecond: 1_500_000_000,
        offset_seconds: 0,
    };
    assert_eq!(t.display(), "2016-12-31 23:59:60");
    assert_eq!(Timestamp { nanosecond: 999_999_999, ..t }.display(), "2016-12-31 23:59:59");
}

#[test]
fn listing_time_agrees_with_chrono() {
    let samples = [
        NaiveDate::from_ymd_opt(2024, 3, 5).unwrap().and_hms_nano_opt(7, 8, 9, 0).unwrap(),
        NaiveDate::from_ymd_opt(2016, 12, 31).unwrap().and_hms_nano_opt(23, 59, 59, 1_000_000_000).unwrap(),
        NaiveDate::from_ymd_opt(999, 1, 2).unwrap().and_hms_nano_opt(0, 0, 0, 5).unwrap(),
        NaiveDate::from_ymd_opt(12345, 6, 7).unwrap().and_hms_nano_opt(1, 2, 3, 0).unwrap(),
        NaiveDate::from_ymd_opt(-5, 6, 7).unwrap().and_hms_nano_opt(1, 2, 3, 0).unwrap(),
    ];
    for d in samples {
        let t = Timestamp {
            year: d.year(),
            month: d.month(),
            day: d.day(),
            hour: d.hour(),
            minute: d.minute(),
            second: d.second(),
            nanosecond: d.nanosecond(),
            offset_seconds: 0,
        };
        assert_eq!(t.display(), d.format("%Y-%m-%d %H:%M:%S").to_string());
    }
}
