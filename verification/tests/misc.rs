use sfsu::commands::{preamble, BETA_NOTICE};
use sfsu::commands::credits::{credit_items, footer, key_response, Frame, Key, KeyEventKind, KeyResponse, Scroll, Timer, Url};
use sfsu::commands::status::needs_report;
use sfsu::commands::update::{bucket_prefix, changes_title, longest_name_len, pad_right, progress_update, scoop_prefix, ProgressUpdate};
use sfsu::commands::virustotal::{is_reported, scan_report, tally, SearchType, Status, StatsError, StrippedManifest};
use sfsu::config::shim::ScoopShim;
use sfsu::contexts::EmptyConfig;
use sfsu::text::{contains_str, find_char, split_once_char, str_eq};

#[test]
fn test_status_ord() {
    assert!(Status::Malicious > Status::Suspicious);
    assert!(Status::Suspicious > Status::Undetected);
}

#[test]
fn reported_statuses() {
    assert!(is_reported(Status::Undetected, None));
    assert!(is_reported(Status::Malicious, Some(Status::Suspicious)));
    assert!(!is_reported(Status::Suspicious, Some(Status::Suspicious)));
    assert!(!is_reported(Status::Undetected, Some(Status::Malicious)));
}

#[test]
fn tallies() {
    assert_eq!(tally(Some(2), Some(3), Some(60)), Ok((5, 65)));
    assert_eq!(tally(None, None, None), Err(StatsError::NoMalicious));
    assert_eq!(tally(Some(1), None, Some(1)), Err(StatsError::NoSuspicious));
    assert_eq!(tally(Some(1), Some(1), None), Err(StatsError::NoUndetected));
}

#[test]
fn status_reports() {
    assert!(needs_report(true, &None, false, "1", "1"));
    assert!(needs_report(false, &None, false, "1", "2"));
    assert!(!needs_report(false, &None, true, "1", "1"));
    assert!(needs_report(false, &Some("Held package".into()), false, "1", "1"));
    assert!(!needs_report(false, &Some("Held package".into()), true, "1", "2"));
    assert!(needs_report(true, &Some("Held package".into()), true, "1", "1"));
    assert!(needs_report(false, &Some("Install failed".into()), true, "1", "1"));
}

#[test]
fn fetch_progress() {
    assert_eq!(
        progress_update(true, 3, 0, 10, 0, 0),
        Some(ProgressUpdate { position: 3, length: 10, message: None })
    );
    assert_eq!(
        progress_update(false, 10, 10, 10, 4, 8),
        Some(ProgressUpdate { position: 4, length: 8, message: Some("Resolving deltas") })
    );
    assert_eq!(
        progress_update(false, 0, 6, 10, 0, 0),
        Some(ProgressUpdate { position: 6, length: 10, message: Some("Receiving objects") })
    );
    assert_eq!(progress_update(false, 0, 1, 0, 0, 0), None);
}

#[test]
fn bucket_name_width() {
    assert_eq!(longest_name_len(&vec![]), 0);
    assert_eq!(longest_name_len(&vec!["main".into(), "extras".into(), "java".into()]), 6);
    assert_eq!(longest_name_len(&vec!["ü".into()]), 2);
}

#[test]
fn credit_links() {
    let url = Url::new("sfsu".to_string(), "https://github.com/winpax/sfsu".to_string());
    assert_eq!(url.to_string(), "\u{1b}]8;;https://github.com/winpax/sfsu\u{1b}\\sfsu\u{1b}]8;;\u{1b}\\");
}

#[test]
fn credits_timer() {
    let mut t = Timer::new(100);
    assert!(!t.tick(60));
    assert_eq!(t.current, 60);
    assert!(t.tick(40));
    assert_eq!(t.current, 0);
    t.set_timeout(10);
    assert!(t.tick(10));
    assert_eq!(t.timeout, 10);
}

#[test]
fn credits_keys() {
    assert_eq!(key_response(Key::Q, KeyEventKind::Press, false), KeyResponse::Quit);
    assert_eq!(key_response(Key::Q, KeyEventKind::Release, true), KeyResponse::Ignore);
    assert_eq!(key_response(Key::Down, KeyEventKind::Press, true), KeyResponse::Scroll(16));
    assert_eq!(key_response(Key::Down, KeyEventKind::Release, true), KeyResponse::Scroll(743));
    assert_eq!(key_response(Key::Down, KeyEventKind::Press, false), KeyResponse::Ignore);
    assert_eq!(key_response(Key::Other, KeyEventKind::Press, true), KeyResponse::Ignore);
    assert_eq!(footer(false), "Press Q to exit");
    assert_eq!(footer(true), "Press Q to exit | Press Down to speed up the credits scrolling");
}

#[test]
fn shim_default_and_empty_config() {
    assert_eq!(ScoopShim::default(), ScoopShim::Kiennq);
    assert_eq!(EmptyConfig, EmptyConfig);
}

#[test]
fn text_helpers() {
    assert!(str_eq("abc", "abc"));
    assert!(!str_eq("abc", "abd"));
    assert_eq!(find_char("a#b#c", '#'), Some(1));
    assert_eq!(find_char("abc", '#'), None);
    assert_eq!(split_once_char("a#b#c", '#'), Some(("a", "b#c")));
    assert!(contains_str("hello world", "o w"));
    assert!(!contains_str("hello", "world"));
    assert!(contains_str("x", ""));
}

#[test]
fn lower_filters_report_more() {
    for status in [Status::Undetected, Status::Suspicious, Status::Malicious] {
        if is_reported(status, Some(Status::Suspicious)) {
            assert!(is_reported(status, Some(Status::Undetected)));
            assert!(is_reported(status, None));
        }
    }
    assert!(is_reported(Status::Suspicious, Some(Status::Undetected)));
}

#[test]
fn scan_reports() {
    let hashed = StrippedManifest::new("7zip".into(), "main".into(), SearchType::FileHash("abc123".into()));
    assert_eq!(
        scan_report(&hashed, Status::Malicious, None, 12, 70),
        Some("main/7zip: 12/70. See more at https://www.virustotal.com/gui/url/abc123".to_string())
    );
    let by_url = StrippedManifest::new("git".into(), "main".into(), SearchType::Url("https://x".into()));
    assert_eq!(scan_report(&by_url, Status::Undetected, None, 0, 1000), Some("main/git: 0/1000".to_string()));
    assert_eq!(scan_report(&by_url, Status::Undetected, Some(Status::Undetected), 0, 9), None);
    assert_eq!(
        scan_report(&by_url, Status::Suspicious, Some(Status::Undetected), 18446744073709551615, 10),
        Some("main/git: 18446744073709551615/10".to_string())
    );
}

#[test]
fn command_preambles() {
    let p = preamble(Some("DEPRECATED: Use `sfsu status` instead".to_string()), false, false, true);
    assert!(p.may_run);
    assert_eq!(p.notices, vec!["DEPRECATED: Use `sfsu status` instead\n".to_string(), BETA_NOTICE.to_string()]);
    let refused = preamble(Some("old".to_string()), true, false, true);
    assert!(!refused.may_run);
    assert_eq!(refused.notices, vec!["old\n".to_string()]);
    let elevated = preamble(None, true, true, false);
    assert!(elevated.may_run);
    assert!(elevated.notices.is_empty());
}

#[test]
fn credits_scroll_until_empty() {
    let still = Scroll::new(10, 40);
    assert!(still.timer.is_none());
    let mut s = Scroll::new(2, 1);
    assert_eq!(s.timer.map(|t| t.timeout), Some(743_000_000));
    assert_eq!(s.frame(500_000_000), Frame { popped: false, quit: false });
    assert_eq!(s.frame(300_000_000), Frame { popped: true, quit: false });
    s.set_speed(16);
    assert_eq!(s.timer.map(|t| t.timeout), Some(16_000_000));
    assert_eq!(s.frame(16_000_000), Frame { popped: true, quit: true });
    assert_eq!(s.remaining, 0);
}

#[test]
fn update_prefixes_and_titles() {
    assert_eq!(pad_right("main", 6), "main  ");
    assert_eq!(pad_right("extras", 4), "extras");
    assert_eq!(pad_right("ü", 3), "ü  ");
    assert_eq!(bucket_prefix("main", 6), "🪣 main  ");
    assert_eq!(scoop_prefix(6), "🍨 Scoop ");
    assert_eq!(scoop_prefix(0), "🍨 Scoop");
    assert_eq!(changes_title("extras", 2), Some("extras changes:".to_string()));
    assert_eq!(changes_title("extras", 0), None);
}

#[test]
fn credits_scroll_accumulates_time() {
    let mut s = Scroll::new(5, 1);
    assert!(!s.frame(300_000_000).popped);
    assert!(!s.frame(300_000_000).popped);
    assert_eq!(s.timer.map(|t| t.current), Some(600_000_000));
    assert!(s.frame(300_000_000).popped);
    assert_eq!(s.timer.map(|t| t.current), Some(0));
}

#[test]
fn credits_item_lines() {
    let sfsu = vec![("jules".to_string(), "https://github.com/jules".to_string())];
    let sprinkles = vec![];
    let lines = credit_items(8, &sfsu, &sprinkles, &Some(vec![("serde".to_string(), "1.0".to_string())]));
    assert_eq!(
        lines,
        vec![
            "",
            "",
            "💖 Many thanks to all our incredible contributors 💖",
            "",
            "🛹 In sfsu 🛹",
            "",
            "jules (https://github.com/jules)",
            "",
            "🍨 And in sprinkles 🍨",
            "",
            "",
            "📦 And all the incredible 1 crates we use 📦",
            "",
            "serde - 1.0",
        ]
    );
    assert_eq!(credit_items(3, &sfsu, &sprinkles, &None).len(), 8);
}
