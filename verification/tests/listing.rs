use sfsu::commands::app::list::{sort_list, Info, SortBy};
use sfsu::commands::uninstall::{
    refusal, uninstall_plan, uninstaller_choice, uninstaller_outcome, verdict, ReferenceKind, UninstallStep, UninstallVerdict,
    UninstallerChoice, INVALID_REFERENCE, SCOOP_UNSUPPORTED,
};
use std::cmp::Ordering;

fn info(name: &str, version: &str) -> Info {
    Info {
        name: name.into(),
        version: version.into(),
        source: "main".into(),
        updated: "2024-01-01".into(),
        notes: String::new(),
    }
}

#[test]
fn sort_by_name_ignores_case() {
    let a = info("Alpha", "1");
    let b = info("beta", "1");
    assert_eq!(SortBy::Name.sort(&a, &b, false), Ordering::Less);
    assert_eq!(SortBy::Name.sort(&a, &b, true), Ordering::Greater);
    assert_eq!(SortBy::Name.sort(&info("GIT", "1"), &info("git", "2"), false), Ordering::Equal);
}

#[test]
fn sort_by_other_fields() {
    let a = info("a", "1.10");
    let b = info("b", "1.9");
    assert_eq!(SortBy::Version.sort(&a, &b, false), Ordering::Less);
    assert_eq!(SortBy::Source.sort(&a, &b, false), Ordering::Equal);
    assert_eq!(SortBy::Notes.sort(&a, &b, true), Ordering::Equal);
    let mut c = info("c", "1");
    c.updated = "2025-01-01".into();
    assert_eq!(SortBy::Updated.sort(&c, &a, false), Ordering::Greater);
}

#[test]
fn sort_swapping_reverses() {
    let a = info("a", "2");
    let b = info("b", "1");
    for by in [SortBy::Name, SortBy::Version, SortBy::Source, SortBy::Updated, SortBy::Notes] {
        assert_eq!(by.sort(&a, &b, true), by.sort(&b, &a, true).reverse());
        assert_eq!(by.sort(&a, &b, false), by.sort(&a, &b, true).reverse());
    }
}

#[test]
fn uninstall_verdicts() {
    assert_eq!(verdict(ReferenceKind::Name, "git", true), UninstallVerdict::Accept);
    assert_eq!(verdict(ReferenceKind::BucketNamePair, "scoop", true), UninstallVerdict::ScoopUnsupported);
    assert_eq!(verdict(ReferenceKind::Name, "git", false), UninstallVerdict::NotInstalled);
    assert_eq!(verdict(ReferenceKind::Url, "git", true), UninstallVerdict::InvalidReference);
    assert_eq!(verdict(ReferenceKind::File, "scoop", false), UninstallVerdict::InvalidReference);
}

#[test]
fn uninstall_refusals() {
    assert_eq!(refusal(UninstallVerdict::Accept, "git"), None);
    assert_eq!(refusal(UninstallVerdict::NotInstalled, "git"), Some("'git' not installed".to_string()));
    assert_eq!(refusal(UninstallVerdict::ScoopUnsupported, "scoop"), Some(SCOOP_UNSUPPORTED.to_string()));
    assert_eq!(refusal(UninstallVerdict::InvalidReference, "x"), Some(INVALID_REFERENCE.to_string()));
}

#[test]
fn list_sorts_names_descending_when_asked() {
    let apps = vec![info("git", "1"), info("Zig", "2"), info("7zip", "3"), info("curl", "4")];
    let listed = sort_list(apps, SortBy::Name, true);
    let names: Vec<&str> = listed.iter().map(|a| a.name.as_str()).collect();
    assert_eq!(names, vec!["Zig", "git", "curl", "7zip"]);
}

#[test]
fn list_sorts_versions_ascending_by_default() {
    let apps = vec![info("a", "2.0"), info("b", "10.1"), info("c", "1.5")];
    let listed = sort_list(apps, SortBy::Version, false);
    let versions: Vec<&str> = listed.iter().map(|a| a.version.as_str()).collect();
    assert_eq!(versions, vec!["1.5", "10.1", "2.0"]);
}

#[test]
fn uninstall_steps() {
    assert_eq!(uninstaller_choice(true, true), UninstallerChoice::File);
    assert_eq!(uninstaller_choice(false, true), UninstallerChoice::Script);
    assert_eq!(uninstaller_choice(false, false), UninstallerChoice::Nothing);
    assert_eq!(
        uninstall_plan(false, true, false, true, UninstallerChoice::Script, "git", "C:/apps/git/2.40"),
        vec![
            UninstallStep::UnlinkCurrent,
            UninstallStep::RunPreUninstall,
            UninstallStep::RunUninstaller(UninstallerChoice::Script)
        ]
    );
    assert_eq!(
        uninstall_plan(true, true, true, true, UninstallerChoice::File, "git", "C:/apps/git/2.40"),
        vec![UninstallStep::Stop("git is running. Please stop it before uninstalling".to_string())]
    );
    assert_eq!(uninstall_plan(true, true, false, true, UninstallerChoice::File, "git", "C:/apps/git/2.40"), vec![]);
    assert_eq!(
        uninstall_plan(false, false, false, false, UninstallerChoice::File, "git", "C:/apps/git/2.40"),
        vec![
            UninstallStep::UnlinkCurrent,
            UninstallStep::Stop("Access Denied: C:/apps/git/2.40. Try again, or fix permissions on the directory".to_string())
        ]
    );
    assert_eq!(uninstall_plan(true, false, false, true, UninstallerChoice::Nothing, "a", "b"), vec![]);
}

#[test]
fn uninstaller_exit_codes() {
    assert_eq!(uninstaller_outcome(Some(0), "done"), Ok(()));
    assert_eq!(uninstaller_outcome(Some(3), "oops"), Err("uninstall.ps1 exited with code 3.\nOutput:\noops".to_string()));
    assert_eq!(
        uninstaller_outcome(Some(i32::MIN), ""),
        Err("uninstall.ps1 exited with code -2147483648.\nOutput:\n".to_string())
    );
    assert_eq!(uninstaller_outcome(None, "x"), Err("uninstall.ps1 exited without a status code.\nOutput:\nx".to_string()));
}
