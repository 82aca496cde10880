//! Sizes, reclaim figures, durations and the text they are made of.

use dedcom::moments::{age, humanize_ago, humanize_ago_at, Moment};
use dedcom::progress::measure;
use dedcom::reclaim::{GroupLinks, LinkCount, ReclaimEstimate, ReclaimState};
use dedcom::text::{
    ellipsize_left, fit, hex_encode, lines_of, pad_left, pad_right, push_i64, push_two_digits,
    push_u64, terminal,
};
use dedcom::units::{
    format_duration, human_bytes, human_bytes_parts, links_phrase, objects_cell, reclaim_cell,
    reclaim_phrase, seconds_held,
};

#[test]
fn a_reclaim_figure_says_what_kind_of_figure_it_is() {
    assert_eq!(
        reclaim_phrase(ReclaimEstimate::exact(4096)),
        "guaranteed after quarantine purge: 4.0 KiB"
    );
    assert_eq!(
        reclaim_phrase(ReclaimEstimate::upper_bound(4096)),
        "guaranteed after quarantine purge: 0 B · up to 4.0 KiB after quarantine purge"
    );
    assert_eq!(reclaim_phrase(ReclaimEstimate::unknown()), "rescan required");

    assert_eq!(
        reclaim_cell(ReclaimEstimate::exact(4096)),
        "guaranteed after quarantine purge: 4.0 KiB"
    );
    assert_eq!(
        reclaim_cell(ReclaimEstimate::upper_bound(4096)),
        "up to 4.0 KiB after quarantine purge",
        "a ceiling never gets the word «free»"
    );
    assert_eq!(reclaim_cell(ReclaimEstimate::unknown()), "rescan required");
    for state in [
        ReclaimEstimate::exact(4096),
        ReclaimEstimate::upper_bound(4096),
        ReclaimEstimate::unknown(),
    ] {
        let cell = reclaim_cell(state);
        for forbidden in ["free", "freed", "reclaimed"] {
            assert!(
                !cell.contains(forbidden),
                "«{forbidden}» claims blocks were released at apply time: {cell}"
            );
        }
    }
}

#[test]
fn a_count_that_was_never_recorded_is_not_a_count_of_zero() {
    assert_eq!(objects_cell(0, ReclaimEstimate::unknown()), "? objects");
    assert_eq!(
        objects_cell(3, ReclaimEstimate::unknown()),
        "3 objects",
        "an untrusted row that does know its allocations keeps the number"
    );
    assert_eq!(objects_cell(2, ReclaimEstimate::exact(4096)), "2 objects");
    assert_eq!(objects_cell(4, ReclaimEstimate::upper_bound(4096)), "4 objects");
    assert_eq!(
        objects_cell(0, ReclaimEstimate::exact(0)),
        "0 objects",
        "only the migration's own default is read as a missing count"
    );
    assert_eq!(
        objects_cell(0, ReclaimEstimate::unknown()).chars().count(),
        "0 objects".chars().count(),
        "the wording must not cost the row a column it used to have"
    );
}

#[test]
fn a_mixed_scan_total_reads_as_two_different_numbers() {
    let mixed = ReclaimEstimate::for_fresh_scan(&[
        ReclaimEstimate::exact(1024),
        ReclaimEstimate::upper_bound(3072),
    ])
    .unwrap();
    assert_eq!(
        reclaim_phrase(mixed),
        "guaranteed after quarantine purge: 1.0 KiB · up to 4.0 KiB after quarantine purge"
    );
}

#[test]
fn link_evidence_states_both_numbers_or_admits_it_has_none() {
    assert_eq!(
        links_phrase(GroupLinks { observed: 2, total: LinkCount::Known(3) }),
        "links seen 2/3"
    );
    assert_eq!(
        links_phrase(GroupLinks { observed: 2, total: LinkCount::Unknown }),
        "links seen 2/unrecorded"
    );
}

#[test]
fn a_size_has_one_decimal_and_the_unit_below_it() {
    assert_eq!(human_bytes(0), "0 B");
    assert_eq!(human_bytes(1023), "1023 B");
    assert_eq!(human_bytes(1024), "1.0 KiB");
    assert_eq!(human_bytes(1536), "1.5 KiB");
    assert_eq!(human_bytes(1024 * 1024 - 1), "1024.0 KiB");
    assert_eq!(human_bytes(9 * 1024 * 1024), "9.0 MiB");
    assert_eq!(human_bytes(5 << 30), "5.0 GiB");
    assert_eq!(human_bytes(1023 << 40), "1023.0 TiB");
    assert_eq!(human_bytes(u64::MAX), "16777216.0 TiB");
    assert_eq!(human_bytes_parts(1536), ("1.5".to_string(), "KiB"));
    assert_eq!(human_bytes_parts(512), ("512".to_string(), "B"));
}

/// The rounding is the one that floating point prints, halves to even included.
#[test]
fn a_size_rounds_as_floating_point_prints_it() {
    for bytes in [
        1024u64,
        1075,
        1076,
        1126,
        1127,
        1280,
        1331,
        1587,
        1 << 20,
        (1 << 20) + 52_428,
        (1 << 20) + 52_429,
        (1 << 30) + 53_687_091,
        (1 << 53) + 1,
        (1 << 62) + 12_345,
        u64::MAX - 1,
    ] {
        let mut value = bytes as f64;
        let mut unit = 0;
        while value >= 1024.0 && unit < 4 {
            value /= 1024.0;
            unit += 1;
        }
        let words = format!("{value:.1} {}", ["B", "KiB", "MiB", "GiB", "TiB"][unit]);
        if unit > 0 {
            assert_eq!(human_bytes(bytes), words, "{bytes}");
        }
    }
}

#[test]
fn durations_keep_their_two_largest_units() {
    assert_eq!(format_duration(134), "2m14s");
    assert_eq!(format_duration(3725), "1h02m");
    assert_eq!(format_duration(9), "9s");
    assert_eq!(format_duration(0), "0s");
    assert_eq!(format_duration(60), "1m00s");
    assert_eq!(seconds_held(77), 77);
    assert_eq!(seconds_held((1 << 53) + 1), 1 << 53);
    assert_eq!(seconds_held(u64::MAX), u64::MAX);
}

#[test]
fn the_states_of_an_estimate_follow_its_two_figures() {
    assert_eq!(ReclaimEstimate::exact(7).state(), ReclaimState::Exact);
    assert_eq!(ReclaimEstimate::upper_bound(7).state(), ReclaimState::UpperBound);
    assert_eq!(ReclaimEstimate::unknown().state(), ReclaimState::Unknown);
    assert_eq!(ReclaimEstimate::exact(7).guaranteed_bytes(), 7);
    assert_eq!(ReclaimEstimate::upper_bound(7).guaranteed_bytes(), 0);
    assert_eq!(ReclaimEstimate::upper_bound(7).potential_bytes(), Some(7));
    assert_eq!(ReclaimEstimate::unknown().potential_bytes(), None);
}

#[test]
fn humanize_ago_just_now_under_a_minute() {
    let now = chrono::Local::now().naive_local();
    let stamp = now.format("%Y-%m-%d %H:%M:%S").to_string();
    assert_eq!(humanize_ago(&stamp), "just now");
}

#[test]
fn humanize_ago_minutes_then_hours_then_days() {
    let now = chrono::Local::now().naive_local();
    let mk = |secs: i64| -> String {
        (now - chrono::Duration::seconds(secs)).format("%Y-%m-%d %H:%M:%S").to_string()
    };
    assert!(humanize_ago(&mk(120)).contains("min"));
    assert!(humanize_ago(&mk(3 * 3600)).contains("h ago"));
    assert!(humanize_ago(&mk(2 * 24 * 3600)).contains("d ago"));
}

#[test]
fn humanize_ago_old_falls_back_to_date() {
    let old = chrono::Local::now().naive_local() - chrono::Duration::days(30);
    let stamp = old.format("%Y-%m-%d %H:%M:%S").to_string();
    let out = humanize_ago(&stamp);
    assert_eq!(out.len(), 10);
    assert_eq!(out.chars().filter(|c| *c == '-').count(), 2);
}

#[test]
fn humanize_ago_garbage_string_returns_long_ago() {
    assert_eq!(humanize_ago("not a date"), "long ago");
    assert_eq!(humanize_ago(""), "long ago");
}

/// The parsed moment really is the one in the text, and an age is counted from it.
#[test]
fn an_age_is_counted_from_the_moment_in_the_text() {
    let moment = chrono::NaiveDate::from_ymd_opt(2026, 5, 1)
        .unwrap()
        .and_hms_opt(10, 0, 0)
        .unwrap()
        .and_utc()
        .timestamp();
    let stamp = "2026-05-01 10:00:00";
    let after = |seconds: i64| {
        humanize_ago_at(stamp, Moment { second: moment + seconds, nanos: 500_000_000 })
    };
    assert_eq!(after(59), "just now");
    assert_eq!(after(60), "1 min ago");
    assert_eq!(after(120), age(120, ""));
    assert_eq!(after(3 * 3600), age(3 * 3600, ""));
    assert_eq!(after(2 * 86_400), age(2 * 86_400, ""));
    assert_eq!(after(30 * 86_400), "2026-05-01");
    assert_eq!(after(-5), "just now", "a moment to come is no age");
    assert_eq!(age(120, ""), "2 min ago");
    assert_eq!(age(3 * 3600, ""), "3 h ago");
    assert_eq!(age(2 * 86_400, ""), "2 d ago");
    assert_eq!(age(30 * 86_400, "2026-05-01"), "2026-05-01");
}

/// A leap second is a second like any other.
#[test]
fn a_leap_second_counts() {
    let midnight = chrono::NaiveDate::from_ymd_opt(2017, 1, 1)
        .unwrap()
        .and_hms_opt(0, 0, 0)
        .unwrap()
        .and_utc()
        .timestamp();
    let at = |seconds: i64| Moment { second: midnight + seconds, nanos: 0 };
    let leap = "2016-12-31 23:59:60";
    assert_eq!(humanize_ago_at(leap, at(59)), "just now");
    assert_eq!(humanize_ago_at(leap, at(60)), "1 min ago");
    assert_eq!(humanize_ago_at(leap, at(30 * 86_400)), "2016-12-31");
    assert_eq!(humanize_ago_at("2016-12-31 23:59:59", at(59)), "1 min ago");
}

#[test]
fn text_is_padded_and_cut_by_characters() {
    assert_eq!(pad_right("ab", 4), "ab  ");
    assert_eq!(pad_left("ab", 4), "  ab");
    assert_eq!(pad_right("abcd", 2), "abcd");
    assert_eq!(fit("абв", 5), "абв");
    assert_eq!(fit("абвгд", 3).chars().count(), 3);
    assert_eq!(ellipsize_left("/tank/x", 10), "/tank/x");
    assert_eq!(ellipsize_left("/tank/photos", 7), "…photos");
    let mut out = String::new();
    push_u64(&mut out, u64::MAX);
    assert_eq!(out, "18446744073709551615");
    out.clear();
    push_i64(&mut out, i64::MIN);
    assert_eq!(out, "-9223372036854775808");
    out.clear();
    push_two_digits(&mut out, 7);
    assert_eq!(out, "07");
    assert_eq!(hex_encode(&[0xab; 32]), "ab".repeat(32));
    assert_eq!(lines_of("a\nb\n"), vec!["a", "b"]);
}

/// What is escaped holds no control character, and what holds none is left as it is.
#[test]
fn escaping_takes_every_control_character_and_nothing_else() {
    for name in ["a\u{1b}[2Jb", "\u{7}bell", "tab\there", "del\u{7f}", "c1\u{9b}31m", "nl\nx"] {
        let shown = terminal(name);
        assert!(!shown.chars().any(|c| c.is_control()), "{shown:?}");
        assert_ne!(shown, name);
        assert_eq!(terminal(&shown), shown, "escaping again changes nothing");
    }
    assert_eq!(terminal("обычное имя.txt"), "обычное имя.txt");
}

#[test]
fn progress_is_measured_by_volume_and_else_by_count() {
    assert_eq!(measure(5, 10, 1, 2), (5, 10));
    assert_eq!(measure(5, 0, 1, 2), (1, 2));
    assert_eq!(measure(5, 0, 1, 0), (0, 0));
}
