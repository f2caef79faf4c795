use zot::cli::Cli;
use zot::config::{extract_profile_user_id, profile_url, resolve_user_id, Config, ConfigStep, LibraryScope};
use zot::error::ZotError;
use zot::parse::ProfileEnv;

#[test]
fn extracts_profile_id() {
    let html = r#"
            <script>
                window.zoteroData = {"profileUserID":6333263,"apiKey":""};
            </script>
        "#;
    assert_eq!(extract_profile_user_id(html).as_deref(), Some("6333263"));
}

#[test]
fn rejects_missing_profile_id() {
    assert_eq!(extract_profile_user_id("<html></html>"), None);
}

#[test]
fn local_profile_defaults_to_users_zero() {
    let cli = Cli::try_parse_from(&["zot", "--local", "collections"], &ProfileEnv::empty()).expect("command line");
    let config = match Config::from_profile(&cli.profile).expect("config") {
        ConfigStep::Done(config) => config,
        other => panic!("unexpected step: {other:?}"),
    };
    assert!(config.local);
    assert!(matches!(config.library, LibraryScope::User(id) if id == "0"));
    assert_eq!(config.api_base.text, "http://localhost:23119/api");
    assert!(config.api_key.is_none());
}

#[test]
fn profile_id_after_whitespace_and_missing_digits() {
    assert_eq!(extract_profile_user_id("{\"profileUserID\":  \n 42,").as_deref(), Some("42"));
    assert_eq!(extract_profile_user_id("{\"profileUserID\": \"x\"}"), None);
    assert_eq!(resolve_user_id("someone", "{\"profileUserID\":7}").expect("id"), "7");
    let err = resolve_user_id("someone", "<html></html>").expect_err("no id");
    assert_eq!(err.message(), "could not find profile user id for someone");
}

#[test]
fn chooses_the_library_the_profile_names() {
    let cli = Cli::try_parse_from(&["zot", "--group-id", "99", "--api-key", "KEY", "items"], &ProfileEnv::empty())
        .expect("command line");
    let config = match Config::from_profile(&cli.profile).expect("config") {
        ConfigStep::Done(config) => config,
        other => panic!("unexpected step: {other:?}"),
    };
    assert!(!config.local);
    assert!(matches!(&config.library, LibraryScope::Group(id) if id == "99"));
    assert_eq!(config.api_key.as_deref(), Some("KEY"));
    assert_eq!(config.api_base.host.as_deref(), Some("api.zotero.org"));
    assert_eq!(config.library_prefix(), "groups/99");
    assert_eq!(config.library_url("items/top"), "https://api.zotero.org/groups/99/items/top");
    assert_eq!(config.absolute_url("items/new"), "https://api.zotero.org/items/new");

    let cli = Cli::try_parse_from(&["zot", "--username", "someone", "items"], &ProfileEnv::empty()).expect("command line");
    match Config::from_profile(&cli.profile).expect("step") {
        ConfigStep::ResolveUsername(name) => assert_eq!(name, "someone"),
        other => panic!("unexpected step: {other:?}"),
    }
    assert_eq!(profile_url("someone"), "https://www.zotero.org/someone");

    let cli = Cli::try_parse_from(&["zot", "items"], &ProfileEnv::empty()).expect("command line");
    assert_eq!(Config::from_profile(&cli.profile).unwrap_err(), ZotError::MissingLibraryId);
}

#[test]
fn refuses_an_api_base_that_is_not_a_url() {
    let cli = Cli::try_parse_from(&["zot", "--user-id", "1", "--api-base", "not a url", "items"], &ProfileEnv::empty())
        .expect("command line");
    match Config::from_profile(&cli.profile) {
        Err(ZotError::InvalidUrl(message)) => assert!(!message.is_empty()),
        other => panic!("unexpected result: {other:?}"),
    }
}
