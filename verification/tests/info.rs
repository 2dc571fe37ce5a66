use sfsu::commands::info::{
    binaries_text, found_message, installed_by_name, no_package_message, updated_info, AliasArray, StringArray,
};

#[test]
fn single_binary() {
    let bin = AliasArray::NestedArray(StringArray::String("7z.exe".into()));
    assert_eq!(binaries_text(&bin), "7z.exe");
}

#[test]
fn list_of_binaries() {
    let bin = AliasArray::NestedArray(StringArray::StringArray(vec!["a.exe".into(), "b.exe".into(), "c.exe".into()]));
    assert_eq!(binaries_text(&bin), "a.exe | b.exe | c.exe");
    let empty = AliasArray::NestedArray(StringArray::StringArray(vec![]));
    assert_eq!(binaries_text(&empty), "");
}

#[test]
fn binaries_with_aliases() {
    let bin = AliasArray::AliasArray(vec![
        StringArray::String("git.exe".into()),
        StringArray::StringArray(vec!["bin/git-bash.exe".into(), "git-bash".into()]),
    ]);
    assert_eq!(binaries_text(&bin), "git.exe | bin/git-bash.exe");
}

#[test]
fn installed_lookup_by_directory_name() {
    let dirs = vec!["git".to_string(), "7zip".to_string(), "python.old".to_string()];
    assert!(installed_by_name(&dirs, "git"));
    assert!(installed_by_name(&dirs, "python"));
    assert!(!installed_by_name(&dirs, "curl"));
    assert!(!installed_by_name(&vec![], "git"));
}

#[test]
fn updated_information() {
    let git = Some((Some("2024-01-01".to_string()), Some("someone".to_string())));
    assert_eq!(updated_info(true, git.clone(), Some("x".to_string())), (None, None));
    assert_eq!(updated_info(false, git, Some("x".to_string())), (Some("2024-01-01".to_string()), Some("someone".to_string())));
    assert_eq!(updated_info(false, None, Some("x".to_string())), (Some("x".to_string()), None));
    assert_eq!(updated_info(false, None, None), (None, None));
}

#[test]
fn info_messages() {
    assert_eq!(found_message(3, false, "git"), Some("Found 3 packages, matching \"git\":".to_string()));
    assert_eq!(found_message(3, true, "git"), None);
    assert_eq!(found_message(1, false, "git"), None);
    assert_eq!(no_package_message("zig"), "No package found with the name \"zig\"");
}
