use portal_session::config::Config;

fn strings(items: &[&str]) -> Vec<String> {
    items.iter().map(|s| s.to_string()).collect()
}

#[test]
fn config_without_a_file_is_fresh() {
    let config = Config::init("1.2.0", None);
    assert!(!config.update);
    assert_eq!(config.version, "1.2.0");
    assert_eq!(config.username, "");
    assert_eq!(config.password, "");
    assert!(!config.has_credentials());
}

#[test]
fn config_from_an_empty_file_is_fresh() {
    let config = Config::init("1.2.0", Some(Vec::new()));
    assert!(!config.update);
    assert_eq!(config.username, "");
    assert_eq!(config.password, "");
}

#[test]
fn config_reads_user_name_and_password() {
    let config = Config::init("1.2.0", Some(strings(&["1.2.0", "alice", "secret"])));
    assert!(!config.update);
    assert_eq!(config.version, "1.2.0");
    assert_eq!(config.username, "alice");
    assert_eq!(config.password, "secret");
    assert!(config.has_credentials());
}

#[test]
fn config_ignores_lines_after_the_password() {
    let config =
        Config::init("1.2.0", Some(strings(&["1.2.0", "alice", "secret", "extra", "more"])));
    assert_eq!(config.username, "alice");
    assert_eq!(config.password, "secret");
}

#[test]
fn config_with_missing_lines_has_empty_fields() {
    let config = Config::init("1.2.0", Some(strings(&["1.2.0"])));
    assert!(!config.update);
    assert_eq!(config.username, "");
    assert_eq!(config.password, "");
    let config = Config::init("1.2.0", Some(strings(&["1.2.0", "alice"])));
    assert_eq!(config.username, "alice");
    assert_eq!(config.password, "");
    assert!(!config.has_credentials());
}

#[test]
fn config_of_another_version_is_stale() {
    let config = Config::init("1.2.0", Some(strings(&["1.1.0", "alice", "secret"])));
    assert!(config.update);
    assert_eq!(config.version, "1.2.0");
    assert_eq!(config.username, "");
    assert_eq!(config.password, "");
}

#[test]
fn config_needs_both_fields_to_have_credentials() {
    let mut config = Config::init("1.2.0", None);
    config.remember("alice".to_string(), String::new());
    assert!(!config.has_credentials());
    config.remember(String::new(), "secret".to_string());
    assert!(!config.has_credentials());
    config.remember("alice".to_string(), "secret".to_string());
    assert!(config.has_credentials());
    config.forget();
    assert!(!config.has_credentials());
    assert_eq!(config.username, "");
    assert_eq!(config.password, "");
    assert_eq!(config.version, "1.2.0");
}

#[test]
fn config_saves_three_lines() {
    let mut config = Config::init("1.2.0", None);
    assert_eq!(config.save(), "1.2.0\n\n\n");
    config.remember("alice".to_string(), "secret".to_string());
    assert_eq!(config.save(), "1.2.0\nalice\nsecret\n");
}

#[test]
fn config_stamp_is_the_version_line() {
    let config = Config::init("1.2.0", Some(strings(&["1.2.0", "alice", "secret"])));
    assert_eq!(config.stamp(), "1.2.0\n");
}

#[test]
fn saved_config_reads_back() {
    let mut config = Config::init("0.3.1", None);
    config.remember("élève".to_string(), "mot de passe".to_string());
    let text = config.save();
    let lines: Vec<String> = text.lines().map(|l| l.to_string()).collect();
    let again = Config::init("0.3.1", Some(lines));
    assert!(!again.update);
    assert_eq!(again.username, "élève");
    assert_eq!(again.password, "mot de passe");
}
