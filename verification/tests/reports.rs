use sfsu::commands::app::purge::{purge_plan, purge_prompt};
use sfsu::commands::bucket::{manifest_file_name, package_names, unused_buckets};
use sfsu::commands::checkup::{Diagnostics, Helper, LongPathsStatus};
use sfsu::commands::outdated::{outdated_bucket_line, outdated_list, OutdatedApp};
use sfsu::commands::status::{apps_to_report, buckets_summary, outdated_buckets, scoop_summary, AppStatus};
use sfsu::listing::{dedup, sort_by_name, Listed};

fn status(name: &str, current: &str, available: &str, missing: &[&str], info: Option<&str>) -> AppStatus {
    AppStatus {
        name: name.to_string(),
        current: current.to_string(),
        available: available.to_string(),
        missing_dependencies: missing.iter().map(|s| s.to_string()).collect(),
        info: info.map(|s| s.to_string()),
    }
}

fn outdated(name: &str, current: &str, available: &str) -> OutdatedApp {
    OutdatedApp { name: name.to_string(), current: current.to_string(), available: available.to_string() }
}

fn names<T: Listed>(items: &[T]) -> Vec<String> {
    items.iter().map(|i| i.name().to_string()).collect()
}

#[test]
fn status_lists_only_apps_worth_reporting() {
    let apps = vec![
        status("zig", "0.11", "0.12", &[], None),
        status("git", "2.40", "2.40", &[], None),
        status("7zip", "23.01", "23.01", &["vcredist"], None),
        status("curl", "8.0", "8.0", &[], Some("Held package")),
        status("nodejs", "20", "20", &[], Some("Install failed")),
    ];
    let listed = apps_to_report(apps, false);
    assert_eq!(names(&listed), vec!["7zip", "curl", "nodejs", "zig"]);
}

#[test]
fn status_ignores_held_apps_with_nothing_else() {
    let apps = vec![
        status("curl", "8.0", "8.0", &[], Some("Held package")),
        status("wget", "1.0", "1.0", &["openssl"], Some("Held package")),
    ];
    let listed = apps_to_report(apps, true);
    assert_eq!(names(&listed), vec!["wget"]);
}

#[test]
fn status_drops_repeats_that_follow() {
    let apps = vec![
        status("zig", "0.11", "0.12", &[], None),
        status("zig", "0.11", "0.12", &[], None),
        status("abc", "1", "2", &[], None),
        status("zig", "0.11", "0.12", &[], None),
    ];
    let listed = apps_to_report(apps, false);
    assert_eq!(names(&listed), vec!["abc", "zig", "zig"]);
}

#[test]
fn dedup_keeps_first_of_each_run() {
    let items = vec![outdated("a", "1", "2"), outdated("a", "1", "2"), outdated("a", "1", "3"), outdated("b", "1", "2")];
    let kept = dedup(items);
    assert_eq!(kept.len(), 3);
    assert_eq!(kept[1].available, "3");
}

#[test]
fn sort_by_name_is_stable_both_ways() {
    let items = vec![outdated("b", "1", "x"), outdated("a", "1", "y"), outdated("b", "2", "z"), outdated("c", "1", "w")];
    let up = sort_by_name(items, false);
    assert_eq!(names(&up), vec!["a", "b", "b", "c"]);
    assert_eq!(up[1].current, "1");
    assert_eq!(up[2].current, "2");
    let down = sort_by_name(up, true);
    assert_eq!(names(&down), vec!["c", "b", "b", "a"]);
    assert_eq!(down[1].current, "1");
}

#[test]
fn outdated_apps_descend_by_name() {
    let listed = outdated_list(vec![outdated("git", "1", "2"), outdated("git", "1", "2"), outdated("zig", "1", "2"), outdated("curl", "1", "2")]);
    assert_eq!(names(&listed), vec!["zig", "git", "curl"]);
    let apart = outdated_list(vec![outdated("git", "1", "2"), outdated("zig", "1", "2"), outdated("git", "1", "2")]);
    assert_eq!(names(&apart), vec!["zig", "git", "git"]);
}

#[test]
fn outdated_bucket_lines() {
    assert_eq!(outdated_bucket_line("extras"), "❌ `extras` bucket is out of date");
}

#[test]
fn buckets_behind_are_those_checked_outdated() {
    let checks = vec![
        ("main".to_string(), Some(true)),
        ("extras".to_string(), Some(false)),
        ("broken".to_string(), None),
        ("games".to_string(), Some(true)),
    ];
    assert_eq!(outdated_buckets(&checks), vec!["main", "games"]);
}

#[test]
fn bucket_and_scoop_summaries() {
    assert_eq!(buckets_summary(0, true), "All buckets up to date.");
    assert_eq!(buckets_summary(0, false), "All buckets up to date.");
    assert_eq!(buckets_summary(12, true), "12 outdated buckets:");
    assert_eq!(buckets_summary(3, false), "Bucket(s) are out of date. Run `scoop update` to get the latest changes.");
    assert_eq!(scoop_summary(true), "Scoop is out of date. Run `scoop update` to get the latest changes.");
    assert_eq!(scoop_summary(false), "Scoop app is up to date.");
}

#[test]
fn checkup_reports_each_finding() {
    let diagnostics = Diagnostics {
        git_installed: false,
        main_bucket: true,
        windows_developer: true,
        long_paths: LongPathsStatus::Disabled,
        scoop_ntfs: true,
        missing_helpers: vec![Helper { name: "7zip".to_string(), packages: vec!["7zip".to_string(), "7zip19.00-helper".to_string()] }],
    };
    let lines = diagnostics.checkup_report();
    assert_eq!(lines.len(), 10);
    assert_eq!(lines[0], "❌ Git is not installed");
    assert_eq!(lines[2], "\tRun `scoop install git` to install it");
    assert_eq!(lines[3], "✅ Main bucket is installed");
    assert_eq!(lines[4], "✅ Windows Developer Mode is enabled");
    assert_eq!(lines[5], "❌ Long paths are disabled");
    assert_eq!(lines[7], "✅ NTFS is the filesystem of the Scoop directory");
    assert_eq!(lines[8], "❌ Missing helper: 7zip");
    assert_eq!(lines[9], "\tInstall it with: `scoop install 7zip` or `scoop install 7zip19.00-helper`");
}

#[test]
fn doctor_reports_three_findings() {
    let diagnostics = Diagnostics {
        git_installed: true,
        main_bucket: false,
        windows_developer: false,
        long_paths: LongPathsStatus::OldWindows,
        scoop_ntfs: false,
        missing_helpers: vec![],
    };
    assert_eq!(
        diagnostics.doctor_report(),
        vec![
            "❌ Main bucket is not installed",
            "\tRun `scoop bucket add main` to install it",
            "❌ Windows Developer Mode is not enabled",
            "\tWindows Developer Mode is not enabled. Operations relevant to symlinks may fail without proper rights",
            "❌ This version of Windows does not support long paths",
        ]
    );
    let healthy = Diagnostics {
        git_installed: true,
        main_bucket: true,
        windows_developer: true,
        long_paths: LongPathsStatus::Enabled,
        scoop_ntfs: true,
        missing_helpers: vec![],
    };
    assert_eq!(healthy.checkup_report().len(), 5);
}

#[test]
fn purge_plan_skips_repeats_and_missing_folders() {
    let apps = vec![
        ("main".to_string(), "git".to_string(), true),
        ("extras".to_string(), "vscode".to_string(), false),
        ("main".to_string(), "git".to_string(), true),
        ("extras".to_string(), "git".to_string(), true),
    ];
    let (targets, missing) = purge_plan(&apps);
    assert_eq!(targets, vec![("main".to_string(), "git".to_string()), ("extras".to_string(), "git".to_string())]);
    assert_eq!(missing, vec!["vscode"]);
}

#[test]
fn purge_prompts() {
    assert_eq!(purge_prompt(1), "Are you sure you want to purge the persist folder for this app?");
    assert_eq!(purge_prompt(3), "Are you sure you want to purge the persist folder for 3 apps?");
}

#[test]
fn unused_buckets_are_those_no_app_comes_from() {
    let buckets = vec!["main".to_string(), "extras".to_string(), "games".to_string()];
    let used = vec!["main".to_string(), "main".to_string(), "versions".to_string()];
    assert_eq!(unused_buckets(&buckets, &used), vec!["extras", "games"]);
}

#[test]
fn manifest_files_and_package_names() {
    assert_eq!(manifest_file_name("7zip"), "7zip.json");
    let files = vec!["7zip.json".to_string(), "vcredist2022.json".to_string(), "a.b.json".to_string(), ".hidden".to_string()];
    assert_eq!(package_names(&files), vec!["7zip", "vcredist2022", "a.b", ".hidden"]);
}
