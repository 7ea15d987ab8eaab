use std::path::PathBuf;

use turbo_config::{LoadError, RepoConfig, RepoConfigLoader, RepoConfigValue};

fn no_environment() -> Vec<(String, String)> {
    Vec::new()
}

fn loader() -> RepoConfigLoader {
    RepoConfigLoader::new(PathBuf::from("turborepo/config.json"))
}

#[test]
fn test_repo_config_with_team_and_api_flags() {
    let document = "{\"teamId\": \"123\"}\n";

    let config = loader()
        .with_team_slug(Some("my-team-slug".into()))
        .with_api(Some("http://my-login-url".into()))
        .load(Some(document), &no_environment())
        .unwrap();

    assert_eq!(config.team_id(), None);
    assert_eq!(config.team_slug(), Some("my-team-slug"));
    assert_eq!(config.api_url(), "http://my-login-url");
}

#[test]
fn test_team_override_clears_id() {
    let document = "{\"teamId\": \"123\"}\n";
    let loader = loader().with_team_slug(Some("foo".into()));

    let config = loader.load(Some(document), &no_environment()).unwrap();
    assert_eq!(config.team_slug(), Some("foo"));
    assert_eq!(config.team_id(), None);
}

#[test]
fn test_set_team_clears_id() {
    // The slug is never written in camel case, but it is read in any case.
    let document = "{\"teamSlug\": \"my-team\"}\n";
    let loader = loader();

    let mut config = loader.clone().load(Some(document), &no_environment()).unwrap();
    let written = config.set_team_id(Some("my-team-id".into())).unwrap();

    let new_config = loader.load(Some(written.as_str()), &no_environment()).unwrap();
    assert_eq!(new_config.team_slug(), None);
    assert_eq!(new_config.team_id(), Some("my-team-id"));
}

#[test]
fn test_repo_env_variable() {
    let document = "{\"teamslug\": \"other-team\"}\n";
    let login_url = "http://my-login-url";
    let api_url = "http://my-api";
    let team_id = "123";
    let team_slug = "my-team";
    let config = loader()
        .with_environment({
            let mut env: Vec<(String, String)> = Vec::new();
            env.push(("TURBO_API".into(), api_url.into()));
            env.push(("TURBO_LOGIN".into(), login_url.into()));
            env.push(("TURBO_TEAM".into(), team_slug.into()));
            env.push(("TURBO_TEAMID".into(), team_id.into()));
            Some(env)
        })
        .load(Some(document), &no_environment())
        .unwrap();

    assert_eq!(config.login_url(), login_url);
    assert_eq!(config.api_url(), api_url);
    assert_eq!(config.team_id(), Some(team_id));
    assert_eq!(config.team_slug(), Some(team_slug));
}

#[test]
fn missing_document_gives_defaults() {
    let config = loader().load(None, &no_environment()).unwrap();
    assert_eq!(config.api_url(), "https://vercel.com/api");
    assert_eq!(config.login_url(), "https://vercel.com");
    assert_eq!(config.team_slug(), None);
    assert_eq!(config.team_id(), None);
    assert_eq!(config.disk_config(), &RepoConfigValue::empty());
    assert_eq!(config.path(), &PathBuf::from("turborepo/config.json"));
}

#[test]
fn empty_object_is_an_empty_payload() {
    let config = loader().load(Some("{}"), &no_environment()).unwrap();
    assert_eq!(config.disk_config(), &RepoConfigValue::empty());
    assert_eq!(config.api_url(), "https://vercel.com/api");
}

#[test]
fn disk_values_are_used_when_nothing_overlays_them() {
    let document = "{\"apiurl\": \"http://disk-api\", \"loginurl\": \"http://disk-login\", \
                    \"teamslug\": \"disk-team\", \"unknown\": 7}";
    let config = loader().load(Some(document), &no_environment()).unwrap();
    assert_eq!(config.api_url(), "http://disk-api");
    assert_eq!(config.login_url(), "http://disk-login");
    assert_eq!(config.team_slug(), Some("disk-team"));
    assert_eq!(config.team_id(), None);
}

#[test]
fn keys_are_matched_without_regard_to_case() {
    let document = "{\"ApiUrl\": \"http://a\", \"LOGINURL\": \"http://l\", \"teamId\": \"9\"}";
    let config = loader().load(Some(document), &no_environment()).unwrap();
    assert_eq!(config.api_url(), "http://a");
    assert_eq!(config.login_url(), "http://l");
    assert_eq!(config.team_id(), Some("9"));
    assert_eq!(config.disk_config().teamid, Some("9".to_string()));
}

#[test]
fn null_is_absent_and_empty_string_is_a_value() {
    let document = "{\"teamid\": null, \"teamslug\": \"\"}";
    let config = loader().load(Some(document), &no_environment()).unwrap();
    assert_eq!(config.team_id(), None);
    assert_eq!(config.team_slug(), Some(""));
}

#[test]
fn scalars_are_read_as_strings() {
    let config = loader().load(Some("{\"teamid\": 123}"), &no_environment()).unwrap();
    assert_eq!(config.team_id(), Some("123"));
}

#[test]
fn invalid_json_is_malformed_input() {
    let result = loader().load(Some("{\"teamid\": "), &no_environment());
    assert_eq!(result, Err(LoadError::MalformedInput));
}

#[test]
fn wrong_field_type_is_malformed_input() {
    let result = loader().load(Some("{\"teamid\": [\"a\"]}"), &no_environment());
    assert_eq!(result, Err(LoadError::MalformedInput));
    let result = loader().load(Some("{\"apiurl\": {\"a\": 1}}"), &no_environment());
    assert_eq!(result, Err(LoadError::MalformedInput));
}

#[test]
fn override_beats_environment_beats_disk() {
    let document = "{\"apiurl\": \"disk\", \"loginurl\": \"disk\", \"teamslug\": \"disk\"}";
    let env: Vec<(String, String)> = vec![
        ("TURBO_API".to_string(), "env".to_string()),
        ("TURBO_LOGIN".to_string(), "env".to_string()),
    ];
    let config = loader()
        .with_api(Some("flag".into()))
        .with_environment(Some(env))
        .load(Some(document), &no_environment())
        .unwrap();
    assert_eq!(config.api_url(), "flag");
    assert_eq!(config.login_url(), "env");
    assert_eq!(config.team_slug(), Some("disk"));
}

#[test]
fn process_environment_is_used_when_none_is_injected() {
    let process: Vec<(String, String)> = vec![
        ("TURBO_TEAM".to_string(), "from-process".to_string()),
        ("PATH".to_string(), "/bin".to_string()),
    ];
    let config = loader().load(None, &process).unwrap();
    assert_eq!(config.team_slug(), Some("from-process"));

    let injected: Vec<(String, String)> = Vec::new();
    let config = loader().with_environment(Some(injected)).load(None, &process).unwrap();
    assert_eq!(config.team_slug(), None);
}

#[test]
fn team_slug_override_clears_environment_team_id() {
    let env: Vec<(String, String)> = vec![("TURBO_TEAMID".to_string(), "env-id".to_string())];
    let config = loader()
        .with_team_slug(Some("flag-team".into()))
        .with_environment(Some(env))
        .load(Some("{\"teamid\": \"disk-id\"}"), &no_environment())
        .unwrap();
    assert_eq!(config.team_id(), None);
    assert_eq!(config.team_slug(), Some("flag-team"));
    assert_eq!(config.disk_config().teamid, Some("disk-id".to_string()));
}

#[test]
fn disk_shadow_holds_only_the_document() {
    let env: Vec<(String, String)> = vec![
        ("TURBO_API".to_string(), "http://env-api".to_string()),
        ("TURBO_TEAM".to_string(), "env-team".to_string()),
    ];
    let config = loader()
        .with_login(Some("http://flag-login".into()))
        .with_environment(Some(env))
        .load(Some("{\"teamid\": \"disk-id\"}"), &no_environment())
        .unwrap();
    let expected = RepoConfigValue {
        apiurl: None,
        loginurl: None,
        teamslug: None,
        teamid: Some("disk-id".to_string()),
    };
    assert_eq!(config.disk_config(), &expected);
    assert_eq!(
        config.write_to_disk().unwrap(),
        "{\n  \"apiurl\": null,\n  \"loginurl\": null,\n  \"teamslug\": null,\n  \"teamid\": \"disk-id\"\n}"
    );
}

#[test]
fn resolve_takes_the_payload_as_read() {
    let disk = RepoConfigValue {
        apiurl: Some("http://disk-api".to_string()),
        loginurl: None,
        teamslug: Some("disk-team".to_string()),
        teamid: Some("disk-id".to_string()),
    };
    let config: RepoConfig = loader()
        .with_login(Some("http://flag-login".into()))
        .resolve(disk.clone(), &no_environment());
    assert_eq!(config.api_url(), "http://disk-api");
    assert_eq!(config.login_url(), "http://flag-login");
    assert_eq!(config.team_slug(), Some("disk-team"));
    assert_eq!(config.team_id(), Some("disk-id"));
    assert_eq!(config.disk_config(), &disk);
}

#[test]
fn set_team_id_changes_both_payloads() {
    let env: Vec<(String, String)> = vec![("TURBO_TEAM".to_string(), "env-team".to_string())];
    let mut config = loader()
        .with_api(Some("http://flag-api".into()))
        .with_environment(Some(env))
        .load(Some("{\"teamslug\": \"disk-team\", \"loginurl\": \"http://l\"}"), &no_environment())
        .unwrap();
    assert_eq!(config.team_slug(), Some("env-team"));

    let written = config.set_team_id(Some("first".into())).unwrap();
    assert_eq!(config.team_slug(), None);
    assert_eq!(config.team_id(), Some("first"));
    assert_eq!(config.disk_config().teamslug, None);
    assert_eq!(config.disk_config().teamid, Some("first".to_string()));
    assert_eq!(config.api_url(), "http://flag-api");
    assert_eq!(
        written,
        "{\n  \"apiurl\": null,\n  \"loginurl\": \"http://l\",\n  \"teamslug\": null,\n  \"teamid\": \"first\"\n}"
    );

    config.set_team_id(Some("second".into())).unwrap();
    assert_eq!(config.team_id(), Some("second"));
    assert_eq!(config.team_slug(), None);

    let written = config.set_team_id(None).unwrap();
    assert_eq!(config.team_id(), None);
    assert_eq!(config.team_slug(), None);
    assert_eq!(config.disk_config().teamid, None);
    assert_eq!(
        written,
        "{\n  \"apiurl\": null,\n  \"loginurl\": \"http://l\",\n  \"teamslug\": null,\n  \"teamid\": null\n}"
    );
}

#[test]
fn written_strings_are_escaped_and_read_back() {
    let mut config = loader().load(None, &no_environment()).unwrap();
    let id = "a\"b\\c\nd";
    let written = config.set_team_id(Some(id.into())).unwrap();
    assert_eq!(
        written,
        "{\n  \"apiurl\": null,\n  \"loginurl\": null,\n  \"teamslug\": null,\n  \"teamid\": \"a\\\"b\\\\c\\nd\"\n}"
    );
    let reloaded = loader().load(Some(written.as_str()), &no_environment()).unwrap();
    assert_eq!(reloaded.team_id(), Some(id));
    assert_eq!(reloaded.disk_config(), config.disk_config());
}

#[test]
fn later_spelling_of_a_key_wins() {
    let config = loader()
        .load(Some("{\"teamid\": \"a\", \"TeamId\": \"b\"}"), &no_environment())
        .unwrap();
    assert_eq!(config.team_id(), Some("b"));
    let config = loader()
        .load(Some("{\"TeamId\": \"b\", \"teamid\": \"a\"}"), &no_environment())
        .unwrap();
    assert_eq!(config.team_id(), Some("a"));
    let config = loader()
        .load(Some("{\"TEAMID\": \"c\", \"TeamId\": \"b\", \"teamid\": \"a\", \"teamId\": \"d\"}"), &no_environment())
        .unwrap();
    assert_eq!(config.team_id(), Some("d"));
}

#[test]
fn document_that_is_no_object_is_malformed_input() {
    assert_eq!(loader().load(Some("[1, 2]"), &no_environment()), Err(LoadError::MalformedInput));
    assert_eq!(loader().load(Some("\"text\""), &no_environment()), Err(LoadError::MalformedInput));
    assert_eq!(loader().load(Some("null"), &no_environment()), Err(LoadError::MalformedInput));
}

#[test]
fn set_team_id_after_a_layered_load_persists_disk_values_only() {
    let env: Vec<(String, String)> = vec![("TURBO_TEAM".to_string(), "env-team".to_string())];
    let mut config = loader()
        .with_api(Some("http://flag".into()))
        .with_login(Some("http://flag-login".into()))
        .with_environment(Some(env))
        .load(Some("{\"apiurl\": \"http://disk\"}"), &no_environment())
        .unwrap();
    let written = config.set_team_id(Some("t".into())).unwrap();

    let reloaded = loader()
        .with_environment(Some(Vec::new()))
        .load(Some(written.as_str()), &no_environment())
        .unwrap();
    assert_eq!(reloaded.api_url(), "http://disk");
    assert_eq!(reloaded.login_url(), "https://vercel.com");
    assert_eq!(reloaded.team_slug(), None);
    assert_eq!(reloaded.team_id(), Some("t"));
}

#[test]
fn set_team_id_succeeds_on_every_value() {
    let mut config = loader().load(Some("{\"teamslug\": \"s\"}"), &no_environment()).unwrap();
    assert!(config.set_team_id(None).is_ok());
    assert!(config.set_team_id(Some(String::new())).is_ok());
    assert_eq!(config.team_id(), Some(""));
    assert!(config.set_team_id(Some("\u{0}\"\\".into())).is_ok());
    assert!(config.write_to_disk().is_ok());
}

#[test]
fn document_keys_with_subscripts_are_unknown_keys() {
    let config = loader()
        .load(Some("{\"a[-1]\": 1, \"teamId\": \"7\"}"), &no_environment())
        .unwrap();
    assert_eq!(config.team_id(), Some("7"));
}
