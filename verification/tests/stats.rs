use vanity_search::stats::opening_lines;
use vanity_search::stats::reports_progress;
use vanity_search::stats::reports_summary;
use vanity_search::stats::SearchStats;

#[test]
fn rate_is_tries_over_seconds_rounded_down() {
    let stats = SearchStats { tries: 100, seconds: 7 };
    assert_eq!(stats.tries_per_second(), Some(14));
    let stats = SearchStats { tries: 6, seconds: 7 };
    assert_eq!(stats.tries_per_second(), Some(0));
    let stats = SearchStats { tries: u64::MAX, seconds: 1 };
    assert_eq!(stats.tries_per_second(), Some(u64::MAX));
}

#[test]
fn no_rate_before_a_second_has_passed() {
    let stats = SearchStats { tries: 100, seconds: 0 };
    assert_eq!(stats.tries_per_second(), None);
    assert_eq!(stats.rate_line(), None);
}

#[test]
fn summary_lines_are_exact() {
    let stats = SearchStats { tries: 65536, seconds: 12 };
    assert_eq!(stats.tries_line(), "tries: 65536");
    assert_eq!(stats.duration_line(), "found matching account in 12 seconds.");
    assert_eq!(stats.rate_line(), Some(String::from("tries per second: 5461")));
}

#[test]
fn verbosity_levels() {
    assert!(!reports_summary(0));
    assert!(reports_summary(1));
    assert!(reports_summary(2));
    assert!(reports_summary(u64::MAX));
    assert!(!reports_progress(0));
    assert!(!reports_progress(1));
    assert!(reports_progress(2));
    assert!(reports_progress(3));
}

#[test]
fn opening_lines_only_with_live_progress() {
    assert!(opening_lines("^0x0000", 4, 0).is_empty());
    assert!(opening_lines("^0x0000", 4, 1).is_empty());
    assert_eq!(
        opening_lines("^0x0000", 4, 2),
        vec![
            String::from("searching for address containing: ^0x0000."),
            String::from("using 4 logical processors."),
            String::from("using level 2 verbosity."),
            String::from("\n"),
            String::from("searching..."),
        ]
    );
}
