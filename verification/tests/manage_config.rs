use sfsu::commands::manage_config::{string_to_value, ConfigError, ConfigValue, ManageConfig};
use sfsu::config::Scoop;

fn config() -> Scoop {
    Scoop {
        last_update: Some("2024-01-01 00:00:00 +00:00".to_string()),
        scoop_repo: Some("https://github.com/ScoopInstaller/Scoop".to_string()),
        scoop_branch: "master".to_string(),
        root_path: None,
    }
}

#[test]
fn test_remove() {
    let mut config = config();

    config.scoop_branch = "develop".into();

    let mut manage_config = ManageConfig::new(&mut config);

    manage_config.remove("scoop_branch").unwrap();

    // Master used here is the default value
    assert_eq!(config.scoop_branch, "master".to_string());
}

#[test]
fn test_set() {
    let mut config = config();

    config.scoop_branch = "master".into();

    assert_eq!(config.scoop_branch, "master".to_string());

    let mut manage_config = ManageConfig::new(&mut config);

    manage_config.set("scoop_branch", ConfigValue::String("develop".into())).unwrap();

    assert_eq!(config.scoop_branch, "develop".to_string());
}

#[test]
fn remove_optional_fields() {
    let mut config = config();
    let mut manage = ManageConfig::new(&mut config);
    manage.remove("last_update").unwrap();
    manage.remove("scoop_repo").unwrap();
    manage.remove("not_a_field").unwrap();
    assert_eq!(config.last_update, None);
    assert_eq!(config.scoop_repo, None);
    assert_eq!(config.scoop_branch, "master");
}

#[test]
fn set_optional_fields() {
    let mut config = config();
    let mut manage = ManageConfig::new(&mut config);
    manage.set("root_path", ConfigValue::String("D:/scoop".into())).unwrap();
    manage.set("last_update", ConfigValue::Null).unwrap();
    assert_eq!(config.root_path.as_deref(), Some("D:/scoop"));
    assert_eq!(config.last_update, None);
}

#[test]
fn set_rejects_wrong_types() {
    let mut config = config();
    let mut manage = ManageConfig::new(&mut config);
    assert_eq!(manage.set("scoop_repo", ConfigValue::Bool(true)), Err(ConfigError::InvalidType));
    assert_eq!(manage.set("scoop_branch", ConfigValue::Null), Err(ConfigError::InvalidType));
    assert_eq!(manage.set("root_path", string_to_value("12")), Err(ConfigError::InvalidType));
    assert_eq!(config.scoop_repo.as_deref(), Some("https://github.com/ScoopInstaller/Scoop"));
    assert_eq!(config.scoop_branch, "master");
    assert_eq!(config.root_path, None);
}

#[test]
fn set_unknown_field_changes_nothing() {
    let mut config = config();
    let mut manage = ManageConfig::new(&mut config);
    assert_eq!(manage.set("aria2-enabled", ConfigValue::Bool(true)), Ok(()));
    assert_eq!(config.scoop_branch, "master");
    assert!(config.root_path.is_none());
}

#[test]
fn set_then_remove_restores_default() {
    let mut config = config();
    let mut manage = ManageConfig::new(&mut config);
    manage.set("scoop_branch", string_to_value("develop")).unwrap();
    manage.remove("scoop_branch").unwrap();
    assert_eq!(config.scoop_branch, "master");
}

#[test]
fn command_line_values() {
    assert!(matches!(string_to_value("true"), ConfigValue::Bool(true)));
    assert!(matches!(string_to_value("false"), ConfigValue::Bool(false)));
    assert!(matches!(string_to_value("42"), ConfigValue::Number(n) if n.as_u64() == Some(42)));
    assert!(matches!(string_to_value("-1.5"), ConfigValue::Number(_)));
    assert!(matches!(string_to_value("1e999"), ConfigValue::String(_)));
    assert!(matches!(string_to_value("True"), ConfigValue::String(ref s) if s == "True"));
    assert!(matches!(string_to_value("12abc"), ConfigValue::String(ref s) if s == "12abc"));
    assert!(matches!(string_to_value(""), ConfigValue::String(ref s) if s.is_empty()));
}

#[test]
fn removing_twice_is_removing_once() {
    let mut config = config();
    let mut manage = ManageConfig::new(&mut config);
    manage.remove("scoop_repo").unwrap();
    manage.remove("scoop_repo").unwrap();
    assert_eq!(config.scoop_repo, None);
    assert!(config.last_update.is_some());
}
