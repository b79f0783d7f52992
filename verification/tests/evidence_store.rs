use gateway_core::ChallengeType;
use gateway_core::HarRegistry;
use gateway_core::init_har;

fn default_registry() -> HarRegistry {
    let (chat3, _) = init_har(&None, "/home/u", ChallengeType::Chat3.default_filename(), false, false);
    let (chat4, _) = init_har(&None, "/home/u", ChallengeType::Chat4.default_filename(), false, false);
    let (auth0, _) = init_har(&None, "/home/u", ChallengeType::Auth0.default_filename(), false, false);
    let (platform, _) = init_har(&None, "/home/u", ChallengeType::Platform.default_filename(), false, false);
    HarRegistry::new(chat3, chat4, auth0, platform)
}

#[test]
fn default_file_missing_created_not_fresh() {
    let (har, create) = init_har(&None, "/home/u", ".chat3.openai.com.har", false, false);
    assert!(create);
    assert!(!har.state);
    assert_eq!(har.path, "/home/u/.chat3.openai.com.har");
}

#[test]
fn default_file_empty_not_fresh() {
    let (har, create) = init_har(&None, "/home/u", ".chat3.openai.com.har", true, false);
    assert!(!create);
    assert!(!har.state);
}

#[test]
fn default_file_nonempty_fresh() {
    let (har, create) = init_har(&None, "/home/u", ".chat3.openai.com.har", true, true);
    assert!(!create);
    assert!(har.state);
}

#[test]
fn configured_path_always_fresh() {
    let configured = Some("/tmp/own.har".to_string());
    let (har, create) = init_har(&configured, "/home/u", ".chat3.openai.com.har", false, false);
    assert!(!create);
    assert!(har.state);
    assert_eq!(har.path, "/tmp/own.har");
}

#[test]
fn every_type_resolves_a_path() {
    let reg = default_registry();
    let types = [
        ChallengeType::Chat3,
        ChallengeType::Chat4,
        ChallengeType::Auth0,
        ChallengeType::Platform,
    ];
    let mut paths: Vec<String> = Vec::new();
    for t in types.iter() {
        let (_, path) = reg.path_for(t);
        assert!(path.starts_with("/home/u/."));
        assert!(path.ends_with(".har"));
        assert!(!paths.contains(&path));
        paths.push(path);
    }
}

#[test]
fn modify_event_flips_freshness_and_reports_path() {
    let mut reg = default_registry();
    assert!(!reg.path_for(&ChallengeType::Chat4).0);
    let invalidated = reg.handle_watch_event(&ChallengeType::Chat4, true);
    assert_eq!(invalidated, Some("/home/u/.chat4.openai.com.har".to_string()));
    let (fresh, _) = reg.path_for(&ChallengeType::Chat4);
    assert!(fresh);
    // the other records are untouched
    assert!(!reg.path_for(&ChallengeType::Chat3).0);
    assert!(!reg.path_for(&ChallengeType::Auth0).0);
    assert!(!reg.path_for(&ChallengeType::Platform).0);
}

#[test]
fn non_modify_event_changes_nothing() {
    let mut reg = default_registry();
    let invalidated = reg.handle_watch_event(&ChallengeType::Chat3, false);
    assert_eq!(invalidated, None);
    assert!(!reg.path_for(&ChallengeType::Chat3).0);
}
