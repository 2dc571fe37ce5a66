use sfsu::commands::search::{bucket_title, search_results, search_scope, search_target_of, MatchCriteria, MatchedManifest};
use sfsu::pattern::Pattern;

#[test]
fn patterns_compile_or_fail() {
    assert!(Pattern::new("(?i)fire.*").is_some());
    assert!(Pattern::new("fire(").is_none());
    assert_eq!(Pattern::new("abc").unwrap().as_str(), "abc");
}

#[test]
fn patterns_match() {
    let p = Pattern::new("(?i)^git").unwrap();
    assert!(p.is_match("Git"));
    assert!(p.is_match("github-cli"));
    assert!(!p.is_match("lazygit"));
}

#[test]
fn criteria_match_names_and_binaries() {
    let p = Pattern::new("code").unwrap();
    let bins = vec!["code.exe".to_string(), "bin/vscode.cmd".to_string(), "other.exe".to_string()];
    let c = MatchCriteria::matches("vscode", &p, || bins.clone(), true, true);
    assert!(c.name);
    assert_eq!(c.bins, vec!["code.exe".to_string(), "bin/vscode.cmd".to_string()]);
    let c = MatchCriteria::matches("vscode", &p, || bins.clone(), false, true);
    assert!(!c.name);
    assert_eq!(c.bins.len(), 2);
    let c = MatchCriteria::matches("firefox", &p, || -> Vec<String> { panic!("binaries listed though not searched") }, true, false);
    assert!(!c.name);
    assert!(c.bins.is_empty());
    let c = MatchCriteria::new();
    assert!(!c.name && c.bins.is_empty());
}

#[test]
fn matched_manifests_listing() {
    let p = Pattern::new("git").unwrap();
    let m = MatchedManifest::new(
        "git".into(),
        "main".into(),
        "2.40".into(),
        &p,
        MatchCriteria::matches("git", &p, Vec::new, true, true),
        false,
    );
    assert!(m.exact_match);
    assert_eq!(m.title(), "git (2.40) ");
    assert!(m.should_match(false));
    assert!(!m.should_match(true));
    let m = MatchedManifest::new(
        "lazygit".into(),
        "extras".into(),
        "1".into(),
        &p,
        MatchCriteria::matches("lazygit", &p, Vec::new, false, true),
        true,
    );
    assert!(!m.exact_match);
    assert!(!m.should_match(false));
    assert_eq!(m.title(), "lazygit (1) [installed] ");
}

#[test]
fn search_targets() {
    assert_eq!(search_target_of("main/git", None, false), (Some("main".to_string()), "(?i)git".to_string()));
    assert_eq!(
        search_target_of("main/git", Some("extras".to_string()), true),
        (Some("extras".to_string()), "git".to_string())
    );
    assert_eq!(search_target_of("git", Some("main".to_string()), true), (Some("main".to_string()), "git".to_string()));
    assert_eq!(search_target_of("a/b/c", None, true), (Some("a".to_string()), "b/c".to_string()));
}

#[test]
fn search_titles() {
    assert_eq!(bucket_title("main"), "'main' bucket:");
}

#[test]
fn search_scopes() {
    let all = vec!["main".to_string(), "extras".to_string()];
    assert_eq!(search_scope(Some("extras".to_string()), true, all.clone()), vec!["extras"]);
    assert_eq!(search_scope(Some("nope".to_string()), false, all.clone()), all);
    assert_eq!(search_scope(None, true, all.clone()), all);
}

fn found(name: &str, installed: bool, name_matched: bool) -> MatchedManifest {
    MatchedManifest {
        name: name.into(),
        bucket: "b".into(),
        version: "1".into(),
        installed,
        name_matched,
        bins: vec![],
        exact_match: false,
    }
}

#[test]
fn search_results_keep_listed_and_sort_by_title() {
    let results = search_results(
        vec![
            ("main".to_string(), vec![found("git", false, true), found("gitx", false, false)]),
            ("empty".to_string(), vec![found("nope", true, false)]),
            ("extras".to_string(), vec![found("lazygit", true, true)]),
            ("a!".to_string(), vec![found("x", false, true)]),
            ("a".to_string(), vec![found("y", false, true)]),
        ],
        false,
    );
    let names: Vec<&str> = results.iter().map(|(b, _)| b.as_str()).collect();
    assert_eq!(names, vec!["a!", "a", "extras", "main"]);
    assert_eq!(results[3].1.len(), 1);
    assert_eq!(results[3].1[0].name, "git");
    let installed_only = search_results(vec![("main".to_string(), vec![found("git", false, true)])], true);
    assert!(installed_only.is_empty());
}

#[test]
fn result_sections() {
    let mut m = found("git", true, true);
    m.exact_match = true;
    let plain = m.to_section();
    assert_eq!(plain.name, "git");
    assert!(plain.bold_name);
    assert_eq!(plain.title_rest, " (1) [installed] ");
    assert!(plain.children.is_none());
    let mut m = found("lazygit", false, false);
    m.bins = vec!["lg.exe".to_string(), "lazygit.exe".to_string()];
    let section = m.to_section();
    assert!(!section.bold_name);
    assert_eq!(section.title_rest, " (1) ");
    assert_eq!(section.children, Some(vec!["lg.exe".to_string(), "lazygit.exe".to_string()]));
}
