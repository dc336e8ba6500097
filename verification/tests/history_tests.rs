use quickswitch::data_provider::HistoryDataProvider;
use quickswitch::history::HistoryEntry;
use quickswitch::models::{HistorySortMode, Timestamp};
use quickswitch::persistence::{decode_history, encode_history, HistoryLoader, LoadStep};
use quickswitch::ranking::{rank_entries, ranking_order};
use quickswitch::store::{add_entry, cleanup_entries, find_entry};

const DAY: i64 = 86_400;

fn at(secs: i64) -> Timestamp {
    Timestamp { secs, nanos: 0 }
}

fn entry(path: &str, frequency: u32, last: i64) -> HistoryEntry {
    HistoryEntry {
        path: path.to_string(),
        frequency,
        last_accessed: at(last),
        first_accessed: at(0),
    }
}

fn paths(entries: &[HistoryEntry]) -> Vec<String> {
    entries.iter().map(|e| e.path.clone()).collect()
}

fn pairs(entries: &[HistoryEntry]) -> Vec<(String, u32)> {
    let mut pairs: Vec<(String, u32)> =
        entries.iter().map(|e| (e.path.clone(), e.frequency)).collect();
    pairs.sort();
    pairs
}

#[test]
fn a_new_entry_counts_one_visit() {
    let entry = HistoryEntry::at("/p".to_string(), Timestamp { secs: 9, nanos: 7 });
    assert_eq!(entry.path, "/p");
    assert_eq!(entry.frequency, 1);
    assert_eq!(entry.first_accessed, Timestamp { secs: 9, nanos: 7 });
    assert_eq!(entry.last_accessed, Timestamp { secs: 9, nanos: 7 });
    let now = HistoryEntry::new("/q".to_string());
    assert_eq!(now.frequency, 1);
    assert_eq!(now.first_accessed, now.last_accessed);
}

#[test]
fn the_clock_gives_the_present() {
    let now = Timestamp::now();
    assert!(now.secs > 1_600_000_000);
    assert!(now.nanos < 2_000_000_000);
    let later = Timestamp::now();
    assert!(later.nanos_since_epoch() >= now.nanos_since_epoch());
}

#[test]
fn a_visit_counts_and_refreshes() {
    let mut e = entry("/p", 3, 10);
    e.increment_frequency_at(at(50));
    assert_eq!(e.frequency, 4);
    assert_eq!(e.last_accessed, at(50));
    assert_eq!(e.first_accessed, at(0));
    let mut full = entry("/p", u32::MAX, 10);
    full.increment_frequency_at(at(60));
    assert_eq!(full.frequency, u32::MAX);
    assert_eq!(full.last_accessed, at(60));
    let mut live = entry("/p", 1, 10);
    live.increment_frequency();
    assert_eq!(live.frequency, 2);
    assert!(live.last_accessed.secs > 1_600_000_000);
}

#[test]
fn adding_a_path_twice_leaves_one_entry_with_two_visits() {
    let mut entries = vec![entry("/other", 5, 1)];
    add_entry(&mut entries, "/p".to_string(), at(100), 100);
    add_entry(&mut entries, "/p".to_string(), at(200), 100);
    assert_eq!(entries.iter().filter(|e| e.path == "/p").count(), 1);
    assert_eq!(entries[0], HistoryEntry {
        path: "/p".to_string(),
        frequency: 2,
        last_accessed: at(200),
        first_accessed: at(100),
    });
    assert_eq!(paths(&entries), vec!["/p", "/other"]);
}

#[test]
fn a_visit_moves_the_entry_to_the_front() {
    let mut entries = vec![entry("/a", 1, 1), entry("/b", 2, 2), entry("/c", 3, 3)];
    assert_eq!(find_entry(&entries, "/c"), 2);
    assert_eq!(find_entry(&entries, "/zz"), 3);
    add_entry(&mut entries, "/c".to_string(), at(9), 100);
    assert_eq!(paths(&entries), vec!["/c", "/a", "/b"]);
    assert_eq!(entries[0].frequency, 4);
    assert_eq!(entries[0].last_accessed, at(9));
    assert_eq!(entries[0].first_accessed, at(0));
}

#[test]
fn the_hundred_and_first_path_drops_the_oldest() {
    let mut entries: Vec<HistoryEntry> = Vec::new();
    for i in 0..100 {
        add_entry(&mut entries, format!("/dir{}", i), at(i), 100);
    }
    assert_eq!(entries.len(), 100);
    assert_eq!(entries[99].path, "/dir0");
    let before = paths(&entries);
    add_entry(&mut entries, "/new".to_string(), at(1000), 100);
    assert_eq!(entries.len(), 100);
    assert_eq!(entries[0].path, "/new");
    assert_eq!(paths(&entries)[1..], before[..99]);
    assert!(!paths(&entries).contains(&"/dir0".to_string()));
}

#[test]
fn a_known_path_in_a_full_store_drops_nothing() {
    let mut entries: Vec<HistoryEntry> = Vec::new();
    for i in 0..100 {
        add_entry(&mut entries, format!("/dir{}", i), at(i), 100);
    }
    add_entry(&mut entries, "/dir0".to_string(), at(1000), 100);
    assert_eq!(entries.len(), 100);
    assert_eq!(entries[0].path, "/dir0");
    assert_eq!(entries[0].frequency, 2);
    assert_eq!(entries[99].path, "/dir1");
}

#[test]
fn a_store_of_no_size_keeps_nothing() {
    let mut entries = vec![entry("/a", 1, 1)];
    add_entry(&mut entries, "/b".to_string(), at(2), 0);
    assert!(entries.is_empty());
}

#[test]
fn more_visits_rank_higher_under_frequency() {
    let mut entries: Vec<HistoryEntry> = Vec::new();
    add_entry(&mut entries, "/home/x".to_string(), at(1), 100);
    add_entry(&mut entries, "/home/y".to_string(), at(2), 100);
    add_entry(&mut entries, "/home/x".to_string(), at(3), 100);
    let shown = rank_entries(&entries, &vec![true, true], HistorySortMode::Frequency, at(4), 30);
    assert_eq!(pairs(&shown), vec![("/home/x".to_string(), 2), ("/home/y".to_string(), 1)]);
    assert_eq!(paths(&shown), vec!["/home/x", "/home/y"]);
    let reversed = vec![entries[1].clone(), entries[0].clone()];
    let shown = rank_entries(&reversed, &vec![true, true], HistorySortMode::Frequency, at(4), 30);
    assert_eq!(paths(&shown), vec!["/home/x", "/home/y"]);
}

#[test]
fn ranking_by_each_mode() {
    let now = at(100 * DAY);
    let entries = vec![
        entry("/z/alpha", 2, 99 * DAY),
        entry("/a/Delta", 9, 40 * DAY),
        entry("/m/beta", 4, 98 * DAY),
        entry("/q/charlie", 2, 100 * DAY),
    ];
    let all = vec![true; 4];
    let by = |mode| paths(&rank_entries(&entries, &all, mode, now, 30));
    assert_eq!(by(HistorySortMode::Frequency), vec!["/a/Delta", "/m/beta", "/z/alpha", "/q/charlie"]);
    assert_eq!(by(HistorySortMode::Recent), vec!["/q/charlie", "/z/alpha", "/m/beta", "/a/Delta"]);
    assert_eq!(
        by(HistorySortMode::Alphabetical),
        vec!["/a/Delta", "/z/alpha", "/m/beta", "/q/charlie"]
    );
    assert_eq!(
        by(HistorySortMode::FrequencyRecent),
        vec!["/m/beta", "/q/charlie", "/z/alpha", "/a/Delta"]
    );
    assert_eq!(ranking_order(&entries, HistorySortMode::Frequency, now, 30), vec![1, 2, 0, 3]);
}

#[test]
fn scores_weigh_visits_by_age() {
    let now = at(100 * DAY);
    assert_eq!(entry("/p", 4, 100 * DAY).calculate_score(now, 30), 4 * 300);
    assert_eq!(entry("/p", 4, 100 * DAY + 5).calculate_score(now, 30), 4 * 300);
    assert_eq!(entry("/p", 4, 99 * DAY + 1).calculate_score(now, 30), 4 * 300);
    assert_eq!(entry("/p", 4, 99 * DAY).calculate_score(now, 30), 4 * 290);
    assert_eq!(entry("/p", 4, 85 * DAY).calculate_score(now, 30), 4 * 150);
    assert_eq!(entry("/p", 4, 73 * DAY).calculate_score(now, 30), 4 * 30);
    assert_eq!(entry("/p", 4, 72 * DAY).calculate_score(now, 30), 4 * 30);
    assert_eq!(entry("/p", 4, 70 * DAY).calculate_score(now, 30), 4 * 30);
    assert_eq!(entry("/p", 4, 0).calculate_score(now, 30), 4 * 30);
    assert_eq!(entry("/p", 4, 99 * DAY).calculate_score(now, 0), 4);
    assert_eq!(entry("/p", 4, 100 * DAY).calculate_score(now, 0), 40);
    assert_eq!(entry("/p", 7, 90 * DAY).calculate_time_decay(now, 30), 200);
    assert_eq!(at(98 * DAY).days_until(now), 2);
    assert_eq!(at(101 * DAY).days_until(now), 0);
    assert_eq!(Timestamp { secs: 99 * DAY, nanos: 1 }.days_until(now), 0);
    assert_eq!(Timestamp { secs: -1, nanos: 999_999_999 }.nanos_since_epoch(), -1);
}

#[test]
fn scores_follow_the_float_formula() {
    let now = at(1000 * DAY);
    for frequency in [1u32, 2, 5, 40] {
        for days in [0i64, 1, 2, 10, 26, 27, 28, 29, 30, 31, 60, 400] {
            for decay_days in [1u32, 7, 30, 90] {
                let e = entry("/p", frequency, (1000 - days) * DAY);
                let decay = if days <= 0 {
                    1.0
                } else {
                    (1.0 - (days as f64 / decay_days as f64).min(1.0)).max(0.1)
                };
                let expected = frequency as f64 * decay;
                let scale = 10.0 * decay_days as f64;
                let got = e.calculate_score(now, decay_days) as f64 / scale;
                assert!((got - expected).abs() < 1e-9, "{} {} {}", frequency, days, decay_days);
            }
        }
    }
}

#[test]
fn entries_that_do_not_exist_are_left_out() {
    let entries = vec![entry("/a", 1, 1), entry("/b", 2, 2), entry("/c", 3, 3)];
    let now = at(10);
    let shown = rank_entries(&entries, &vec![true, false, true], HistorySortMode::Frequency, now, 30);
    assert_eq!(paths(&shown), vec!["/c", "/a"]);
    let short = rank_entries(&entries, &vec![true], HistorySortMode::Recent, now, 30);
    assert_eq!(paths(&short), vec!["/a"]);
    let none = rank_entries(&entries, &vec![], HistorySortMode::Recent, now, 30);
    assert!(none.is_empty());
}

#[test]
fn cleanup_drops_seldom_visited_entries() {
    let mut entries = vec![entry("/a", 1, 1), entry("/b", 3, 2), entry("/c", 2, 3), entry("/d", 5, 4)];
    cleanup_entries(&mut entries, 1);
    assert_eq!(entries.len(), 4);
    cleanup_entries(&mut entries, 3);
    assert_eq!(paths(&entries), vec!["/b", "/d"]);
    let mut kept = vec![entry("/a", 1, 1), entry("/b", 0, 2)];
    let bytes = HistoryDataProvider.cleanup_old_entries(&mut kept);
    assert_eq!(paths(&kept), vec!["/a"]);
    assert_eq!(decode_history(&bytes.unwrap()).unwrap(), kept);
}

#[test]
fn saving_and_loading_keeps_the_entries_under_every_mode() {
    let entries = vec![
        HistoryEntry {
            path: "/home/x".to_string(),
            frequency: 2,
            last_accessed: Timestamp { secs: 1_700_000_000, nanos: 123_456_789 },
            first_accessed: Timestamp { secs: 1_600_000_000, nanos: 0 },
        },
        entry("/home/y \u{e9}", 1, 1_650_000_000),
        entry("/tmp", 70000, 1_690_000_000),
    ];
    let bytes = encode_history(&entries).unwrap();
    let loaded = decode_history(&bytes).unwrap();
    assert_eq!(loaded, entries);
    let all = vec![true; 3];
    for mode in [
        HistorySortMode::Frequency,
        HistorySortMode::Recent,
        HistorySortMode::FrequencyRecent,
        HistorySortMode::Alphabetical,
    ] {
        let shown = rank_entries(&loaded, &all, mode, at(1_700_100_000), 30);
        assert_eq!(pairs(&shown), pairs(&entries));
    }
}

#[test]
fn the_history_file_has_the_compact_layout() {
    let entries = vec![HistoryEntry {
        path: "/a".to_string(),
        frequency: 3,
        last_accessed: Timestamp { secs: 0, nanos: 0 },
        first_accessed: Timestamp { secs: 1, nanos: 500_000_000 },
    }];
    let bytes = encode_history(&entries).unwrap();
    let mut expected: Vec<u8> = vec![1, 2, b'/', b'a', 3];
    expected.push(20);
    expected.extend_from_slice(b"1970-01-01T00:00:00Z");
    expected.push(24);
    expected.extend_from_slice(b"1970-01-01T00:00:01.500Z");
    assert_eq!(bytes, expected);
    assert_eq!(encode_history(&vec![]).unwrap(), vec![0u8]);
    assert_eq!(decode_history(&vec![0u8]).unwrap(), vec![]);
}

#[test]
fn bytes_that_are_no_history_do_not_decode() {
    assert!(decode_history(&vec![]).is_none());
    assert!(decode_history(&vec![3, 1, 2]).is_none());
    assert!(decode_history(&b"/home/x\n/home/y\n".to_vec()).is_none());
    let broken = vec![1, 2, b'/', b'a', 3, 3, b'x', b'y', b'z', 3, b'x', b'y', b'z'];
    assert!(decode_history(&broken).is_none());
}

#[test]
fn moments_out_of_range_cannot_be_encoded() {
    let entries = vec![entry("/a", 1, i64::MAX)];
    assert!(encode_history(&entries).is_none());
    let entries = vec![HistoryEntry {
        path: "/a".to_string(),
        frequency: 1,
        last_accessed: Timestamp { secs: 5, nanos: 3_000_000_000 },
        first_accessed: Timestamp { secs: 5, nanos: 0 },
    }];
    assert!(encode_history(&entries).is_none());
}

#[test]
fn loading_takes_the_history_file_where_it_decodes() {
    let entries = vec![entry("/home/x", 2, 100)];
    let bytes = encode_history(&entries).unwrap();
    match HistoryLoader::after_binary(Some(bytes)) {
        LoadStep::Finished { entries: loaded } => assert_eq!(loaded, entries),
        other => panic!("unexpected step {:?}", other),
    }
    assert!(matches!(HistoryLoader::after_binary(None), LoadStep::ReadLegacy));
    assert!(matches!(HistoryLoader::after_binary(Some(vec![9, 9, 9])), LoadStep::ReadLegacy));
    assert!(matches!(HistoryLoader::after_decoding(None), LoadStep::ReadLegacy));
}

#[test]
fn migration_makes_an_entry_of_each_existing_path() {
    let text = "/home/x\n  /home/y  \r\n\n/gone\n/home/z";
    let paths = match HistoryLoader::after_legacy(Some(text.to_string())) {
        LoadStep::CheckPaths { paths } => paths,
        other => panic!("unexpected step {:?}", other),
    };
    assert_eq!(paths, vec!["/home/x", "/home/y", "", "/gone", "/home/z"]);
    let exists = vec![true, true, false, false, true];
    let now = at(1_700_000_000);
    let migrated = HistoryLoader::migrate_from_legacy(&paths, &exists, now);
    assert_eq!(
        migrated,
        vec![
            HistoryEntry::at("/home/x".to_string(), now),
            HistoryEntry::at("/home/y".to_string(), now),
            HistoryEntry::at("/home/z".to_string(), now),
        ]
    );
    match HistoryLoader::after_existence(&paths, &exists, now) {
        LoadStep::Save { bytes, entries } => {
            assert_eq!(entries, migrated);
            assert_eq!(decode_history(&bytes).unwrap(), migrated);
            assert_eq!(HistoryLoader::after_save(entries.clone(), true), migrated);
            assert!(HistoryLoader::after_save(entries, false).is_empty());
        }
        other => panic!("unexpected step {:?}", other),
    }
}

#[test]
fn without_any_source_the_store_is_empty() {
    match HistoryLoader::after_legacy(None) {
        LoadStep::Finished { entries } => assert!(entries.is_empty()),
        other => panic!("unexpected step {:?}", other),
    }
    let far = Timestamp { secs: i64::MAX, nanos: 0 };
    match HistoryLoader::after_existence(&vec!["/a".to_string()], &vec![true], far) {
        LoadStep::Finished { entries } => assert!(entries.is_empty()),
        other => panic!("unexpected step {:?}", other),
    }
    match HistoryLoader::after_encoding(vec![entry("/a", 1, 1)], None) {
        LoadStep::Finished { entries } => assert!(entries.is_empty()),
        other => panic!("unexpected step {:?}", other),
    }
}

#[test]
fn the_provider_records_a_visit_and_encodes_the_store() {
    let mut entries = vec![entry("/a", 1, 1)];
    let bytes = HistoryDataProvider.add_to_history(&mut entries, "/b".to_string()).unwrap();
    assert_eq!(paths(&entries), vec!["/b", "/a"]);
    assert_eq!(entries[0].frequency, 1);
    assert!(entries[0].last_accessed.secs > 1_600_000_000);
    assert_eq!(decode_history(&bytes).unwrap(), entries);
    let shown = HistoryDataProvider.get_sorted_entries(
        &entries,
        &vec![true, true],
        &HistorySortMode::Alphabetical,
    );
    assert_eq!(paths(&shown), vec!["/a", "/b"]);
}

#[test]
fn scores_rise_with_visits_and_fall_with_age() {
    let now = at(1000 * DAY);
    for decay_days in [0u32, 1, 7, 30, 365] {
        for days in 0..70i64 {
            let mut last_score = 0;
            for frequency in 1..20u32 {
                let score = entry("/p", frequency, (1000 - days) * DAY).calculate_score(now, decay_days);
                assert!(score >= last_score);
                last_score = score;
            }
        }
        for frequency in [1u32, 3, 1000] {
            let mut last_score = u128::MAX;
            for days in 0..70i64 {
                let score = entry("/p", frequency, (1000 - days) * DAY).calculate_score(now, decay_days);
                assert!(score <= last_score);
                last_score = score;
            }
        }
    }
}

#[test]
fn a_length_beyond_the_limit_is_refused() {
    let hostile: Vec<u8> = vec![1, 253, 255, 255, 255, 255, 255, 255, 255, 255];
    assert!(decode_history(&hostile).is_none());
    assert!(matches!(HistoryLoader::after_binary(Some(hostile)), LoadStep::ReadLegacy));
    let many: Vec<u8> = vec![253, 255, 255, 255, 255, 255, 255, 255, 255];
    assert!(decode_history(&many).is_none());
    let long_path: Vec<u8> = vec![1, 252, 0, 0, 0, 64, b'/'];
    assert!(decode_history(&long_path).is_none());
}
