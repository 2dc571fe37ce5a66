use sfsu::cache::{cache_file_name, next_read, progress_message, ReadStep};
use sfsu::commands::app::cleanup::{cleanup_removals, file_stem, old_versions, stale_cache_files, CacheEntry, CacheEntryError, UrlHash};
use sfsu::commands::cache::{checked_total_size, get_known_info, match_files, sort_entries, total_size, CacheEntry as ListedEntry, NoCacheEntries};
use sfsu::sizes::Size;

#[test]
fn parse_path_reads_name_version_hash() {
    let entry = CacheEntry::parse_path("C:/scoop/cache/7zip#23.01#abcdef1.msi").unwrap();
    assert_eq!(entry.name, "7zip");
    assert_eq!(entry.version, "23.01");
    assert!(matches!(entry.url_hash, UrlHash::Valid(chars) if chars == ['a', 'b', 'c', 'd', 'e', 'f', '1']));
    assert_eq!(entry.url_hash.to_string(), "abcdef1");
}

#[test]
fn parse_path_keeps_odd_hashes() {
    let entry = CacheEntry::parse_path("git#2.40.0#deadbeefcafe.zip").unwrap();
    assert_eq!(entry.name, "git");
    assert_eq!(entry.version, "2.40.0");
    assert!(matches!(entry.url_hash, UrlHash::Invalid(ref s) if s == "deadbeefcafe"));
    assert_eq!(entry.url_hash.to_string(), "deadbeefcafe");
}

#[test]
fn parse_path_takes_third_field_only() {
    let entry = CacheEntry::parse_file_name("app#1.0#1234567#extra.7z").unwrap();
    assert_eq!(entry.name, "app");
    assert_eq!(entry.version, "1.0");
    assert_eq!(entry.url_hash.to_string(), "1234567");
    assert!(matches!(entry.url_hash, UrlHash::Valid(_)));
}

#[test]
fn parse_path_errors() {
    assert_eq!(CacheEntry::parse_path("/").err(), Some(CacheEntryError::NoFileStem));
    assert_eq!(CacheEntry::parse_path("dir/app.zip").err(), Some(CacheEntryError::NoVersion));
    assert_eq!(CacheEntry::parse_path("dir/app#1.0.zip").err(), Some(CacheEntryError::NoHash));
    assert_eq!(CacheEntry::parse_file_name("app#1#").unwrap().url_hash.to_string(), "");
    assert_eq!(CacheEntry::parse_file_name("app#1.0#").err(), Some(CacheEntryError::NoHash));
}

#[test]
fn parse_path_uses_final_component() {
    let entry = CacheEntry::parse_path("cache#dir/app#2#aaaaaaa.exe").unwrap();
    assert_eq!(entry.name, "app");
    assert_eq!(entry.version, "2");
}

#[test]
fn cache_entry_from_str() {
    let entry: CacheEntry = "python#3.12.0#0123456.exe".parse().unwrap();
    assert_eq!(entry.name, "python");
    assert!("nohash".parse::<CacheEntry>().is_err());
}

#[test]
fn file_stems() {
    assert_eq!(file_stem("foo.rs"), "foo");
    assert_eq!(file_stem("foo.tar.gz"), "foo.tar");
    assert_eq!(file_stem(".bashrc"), ".bashrc");
    assert_eq!(file_stem("foo"), "foo");
    assert_eq!(file_stem("foo."), "foo");
    assert_eq!(file_stem(".foo.bar"), ".foo");
}

#[test]
fn stale_entries() {
    let entry = CacheEntry::parse_file_name("app#1.0#1234567.zip").unwrap();
    assert!(entry.is_stale_for(&Some("app".to_string()), "2.0"));
    assert!(!entry.is_stale_for(&Some("app".to_string()), "1.0"));
    assert!(!entry.is_stale_for(&Some("other".to_string()), "2.0"));
    assert!(!entry.is_stale_for(&None, "2.0"));
}

#[test]
fn known_info_of_file_names() {
    assert_eq!(
        get_known_info("app#1.0#abc.zip"),
        Some(("app".to_string(), "1.0".to_string(), "abc.zip".to_string()))
    );
    assert_eq!(get_known_info("app#1.0"), None);
    assert_eq!(get_known_info("loose.txt"), None);
}

#[test]
fn listed_entries_from_files() {
    let entry = ListedEntry::from_file("c/app#1#h.zip".to_string(), "app#1#h.zip", Size::new(10));
    assert!(matches!(&entry, ListedEntry::Known { name, version, hash, .. } if name == "app" && version == "1" && hash == "h.zip"));
    assert_eq!(entry.file_path(), "c/app#1#h.zip");
    assert_eq!(entry.size().bytes(), 10);
    let loose = ListedEntry::from_file("c/readme".to_string(), "readme", Size::new(3));
    assert!(matches!(loose, ListedEntry::Loose { .. }));
    assert_eq!(loose.size().bytes(), 3);
}

#[test]
fn listed_entries_are_sorted() {
    let files = vec![
        ("c/zeta".to_string(), "zeta".to_string(), Size::new(1)),
        ("c/b#1#h".to_string(), "b#1#h".to_string(), Size::new(2)),
        ("c/a#2#h".to_string(), "a#2#h".to_string(), Size::new(3)),
        ("c/alpha".to_string(), "alpha".to_string(), Size::new(4)),
    ];
    let entries = ListedEntry::from_files(files).unwrap();
    let paths: Vec<&str> = entries.iter().map(|e| e.file_path()).collect();
    assert_eq!(paths, vec!["c/a#2#h", "c/b#1#h", "c/alpha", "c/zeta"]);
    assert_eq!(total_size(&entries).bytes(), 10);
}

#[test]
fn no_files_no_entries() {
    assert_eq!(ListedEntry::from_files(vec![]).err(), Some(NoCacheEntries));
}

#[test]
fn sorting_orders_by_path_then_size() {
    let entries = vec![
        ListedEntry::Loose { file_path: "x".to_string(), size: Size::new(5) },
        ListedEntry::Loose { file_path: "x".to_string(), size: Size::new(2) },
        ListedEntry::Loose { file_path: "w".to_string(), size: Size::new(9) },
    ];
    let sorted = sort_entries(entries);
    let keys: Vec<(String, u64)> = sorted.iter().map(|e| (e.file_path().to_string(), e.size().bytes())).collect();
    assert_eq!(keys, vec![("w".to_string(), 9), ("x".to_string(), 2), ("x".to_string(), 5)]);
    assert!(sorted[0].sorts_before(&sorted[1]));
    assert!(!sorted[2].sorts_before(&sorted[1]));
}

#[test]
fn cache_names_read_back() {
    let name = cache_file_name("7zip", "23.01", "https://7-zip.org/a/7z2301.msi");
    assert_eq!(name, "7zip#23.01#https://7-zip.org/a/7z2301.msi");
    assert_eq!(
        get_known_info(&name),
        Some(("7zip".to_string(), "23.01".to_string(), "https://7-zip.org/a/7z2301.msi".to_string()))
    );
    let name = cache_file_name("app", "1", "https://x.org/f.zip#/dl.7z");
    assert_eq!(get_known_info(&name).unwrap().2, "https://x.org/f.zip");
}

#[test]
fn progress_labels() {
    assert_eq!(progress_message("app#1.0#abc_setup.exe"), "setup.exe");
    assert_eq!(progress_message("a_b_c"), "c");
    assert_eq!(progress_message("plain.zip"), "plain.zip");
    assert_eq!(progress_message("trailing_"), "");
}

#[test]
fn sizes_add() {
    assert_eq!(Size::new(3).plus(Size::new(4)).bytes(), 7);
    assert_eq!(total_size(&vec![]).bytes(), 0);
}

#[test]
fn old_versions_are_all_but_current() {
    let versions = vec!["1.0".to_string(), "1.1".to_string(), "current".to_string(), "2.0".to_string()];
    assert_eq!(old_versions(versions, "2.0"), vec!["1.0".to_string(), "1.1".to_string(), "current".to_string()]);
    assert!(old_versions(vec!["2.0".to_string()], "2.0").is_empty());
}

#[test]
fn match_files_keeps_files_a_pattern_matches() {
    let files = vec![
        ("c/git#2.40#abc.zip".to_string(), "git#2.40#abc.zip".to_string(), Size::new(10)),
        ("c/7zip#23#def.msi".to_string(), "7zip#23#def.msi".to_string(), Size::new(5)),
        ("c/notes.txt".to_string(), "notes.txt".to_string(), Size::new(1)),
    ];
    let patterns = vec!["(".to_string(), "^git".to_string(), "txt$".to_string()];
    let entries = match_files(&patterns, files).unwrap();
    assert_eq!(entries.len(), 2);
    assert!(matches!(&entries[0], ListedEntry::Known { name, .. } if name == "git"));
    assert!(matches!(&entries[1], ListedEntry::Loose { file_path, .. } if file_path == "c/notes.txt"));
}

#[test]
fn match_files_fails_when_nothing_matches() {
    let files = vec![("c/git#2.40#abc.zip".to_string(), "git#2.40#abc.zip".to_string(), Size::new(10))];
    assert!(matches!(match_files(&vec!["^zig".to_string()], files), Err(NoCacheEntries)));
    let files = vec![("c/git#2.40#abc.zip".to_string(), "git#2.40#abc.zip".to_string(), Size::new(10))];
    assert!(matches!(match_files(&vec!["[".to_string()], files), Err(NoCacheEntries)));
}

#[test]
fn checked_total_size_adds_or_reports_overflow() {
    let entries = vec![
        ListedEntry::from_file("a".to_string(), "a", Size::new(7)),
        ListedEntry::from_file("b".to_string(), "b", Size::new(8)),
    ];
    assert_eq!(checked_total_size(&entries).map(|s| s.bytes()), Some(15));
    let huge = vec![
        ListedEntry::from_file("a".to_string(), "a", Size::new(u64::MAX)),
        ListedEntry::from_file("b".to_string(), "b", Size::new(1)),
    ];
    assert!(checked_total_size(&huge).is_none());
}

#[test]
fn downloads_read_whole_chunks_then_the_rest() {
    assert_eq!(next_read(4096, 0), ReadStep::Chunk);
    assert_eq!(next_read(4096, 3072), ReadStep::Chunk);
    assert_eq!(next_read(4096, 4096), ReadStep::Rest);
    assert_eq!(next_read(1500, 1024), ReadStep::Rest);
    assert_eq!(next_read(0, 0), ReadStep::Rest);
}

#[test]
fn stale_cache_files_are_other_versions_of_the_app() {
    let files = vec![
        ("c/git#2.39#abcdef1.zip".to_string(), "git#2.39#abcdef1.zip".to_string()),
        ("c/git#2.40#abcdef2.zip".to_string(), "git#2.40#abcdef2.zip".to_string()),
        ("c/gitui#1.0#abcdef3.zip".to_string(), "gitui#1.0#abcdef3.zip".to_string()),
        ("c/notes.txt".to_string(), "notes.txt".to_string()),
        ("c/git#2.38#x.7z".to_string(), "git#2.38#x.7z".to_string()),
    ];
    assert_eq!(
        stale_cache_files(&files, &Some("git".to_string()), "2.40"),
        vec!["c/git#2.39#abcdef1.zip".to_string(), "c/git#2.38#x.7z".to_string()]
    );
    assert!(stale_cache_files(&files, &None, "2.40").is_empty());
}

#[test]
fn cleanup_removes_nothing_in_a_dry_run() {
    let cache = vec!["c/git#1#a.zip".to_string()];
    let dirs = vec!["apps/git/1".to_string()];
    assert_eq!(cleanup_removals(true, true, cache.clone(), dirs.clone()), (vec![], vec![]));
    assert_eq!(cleanup_removals(true, false, cache.clone(), dirs.clone()), (cache.clone(), dirs.clone()));
    assert_eq!(cleanup_removals(false, false, cache, dirs.clone()), (vec![], dirs));
}

#[test]
fn parse_path_reads_last_component() {
    let entry = CacheEntry::parse_path("scoop/cache/7zip#23.01#abcdef1.msi").unwrap();
    assert_eq!(entry.name, "7zip");
    assert_eq!(CacheEntry::parse_path("cache/app.zip").err(), Some(CacheEntryError::NoVersion));
}
