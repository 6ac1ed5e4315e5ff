use sideko::config::get_api_key;
use sideko::config::get_base_url;
use sideko::config::get_config_path;
use sideko::config::get_default_config_path;
use sideko::config::resolve_value;
use sideko::config::set_env_lines;
use sideko::config::store_lookup_to_option;
use sideko::config::url_ends_with_v1;
use sideko::config::ConfigError;
use sideko::config::ConfigKey;
use sideko::config::StoreLookup;
use sideko::config::DEFAULT_BASE_URL;

#[test]
fn env_var_names_are_fixed() {
    assert_eq!(ConfigKey::ApiKey.env_var_name(), "SIDEKO_API_KEY");
    assert_eq!(ConfigKey::ApiBaseUrl.env_var_name(), "SIDEKO_BASE_URL");
    assert_eq!(ConfigKey::ConfigPath.env_var_name(), "SIDEKO_CONFIG_PATH");
}

#[test]
fn env_value_wins_over_store_value() {
    let r = resolve_value(
        Some(String::from("from-env")),
        Some(String::from("from-store")),
    );
    assert_eq!(r, Some(String::from("from-env")));
}

#[test]
fn store_value_used_when_env_absent() {
    let r = resolve_value(None, Some(String::from("from-store")));
    assert_eq!(r, Some(String::from("from-store")));
    assert_eq!(resolve_value(None, None), None);
}

#[test]
fn api_key_prefers_environment() {
    let r = get_api_key(Some(String::from("sk-test")));
    assert_eq!(r, Some(String::from("sk-test")));
}

#[test]
fn store_lookup_degrades_to_absent() {
    assert_eq!(
        store_lookup_to_option(StoreLookup::Found(String::from("v"))),
        Some(String::from("v"))
    );
    assert_eq!(store_lookup_to_option(StoreLookup::Absent), None);
    assert_eq!(store_lookup_to_option(StoreLookup::Failed), None);
}

#[test]
fn base_url_defaults_to_production() {
    assert_eq!(get_base_url(None), DEFAULT_BASE_URL);
    assert_eq!(
        get_base_url(Some(String::from("http://localhost:8080/v1"))),
        "http://localhost:8080/v1"
    );
}

#[test]
fn base_url_suffix_check() {
    assert!(url_ends_with_v1("https://api.sideko.dev/v1"));
    assert!(!url_ends_with_v1("https://api.sideko.dev"));
    assert!(!url_ends_with_v1("v1"));
    assert!(url_ends_with_v1("/v1"));
}

#[test]
fn config_path_prefers_override() {
    let r = get_config_path(
        Some(String::from("/tmp/cfg")),
        Some(String::from("/home/u")),
    );
    assert_eq!(r, Ok(String::from("/tmp/cfg")));
}

#[test]
fn default_config_path_under_home() {
    assert_eq!(
        get_default_config_path(Some(String::from("/home/u"))),
        Ok(String::from("/home/u/.sideko"))
    );
    assert_eq!(
        get_default_config_path(Some(String::from("/home/u/"))),
        Ok(String::from("/home/u/.sideko"))
    );
    assert_eq!(
        get_default_config_path(Some(String::from(""))),
        Ok(String::from(".sideko"))
    );
    assert_eq!(
        get_default_config_path(None),
        Err(ConfigError::HomeNotSet)
    );
}

#[test]
fn setting_a_key_appends_a_line() {
    let lines: Vec<String> = vec![String::from("OTHER=1")];
    let out = set_env_lines(ConfigKey::ApiKey, "abc123", &lines);
    assert_eq!(
        out,
        vec![
            String::from("OTHER=1"),
            String::from("SIDEKO_API_KEY=abc123")
        ]
    );
}

#[test]
fn setting_a_key_replaces_the_line() {
    let lines: Vec<String> = vec![
        String::from("SIDEKO_API_KEY=old"),
        String::from("OTHER=1"),
    ];
    let out = set_env_lines(ConfigKey::ApiKey, "new", &lines);
    assert_eq!(
        out,
        vec![String::from("SIDEKO_API_KEY=new"), String::from("OTHER=1")]
    );
}

#[test]
fn setting_twice_leaves_one_line() {
    let lines: Vec<String> = vec![String::from("OTHER=1")];
    let once = set_env_lines(ConfigKey::ApiKey, "abc123", &lines);
    let twice = set_env_lines(ConfigKey::ApiKey, "abc123", &once);
    assert_eq!(once, twice);
    let matching: Vec<&String> = twice
        .iter()
        .filter(|l| l.starts_with("SIDEKO_API_KEY="))
        .collect();
    assert_eq!(matching.len(), 1);
}

#[test]
fn values_are_shell_quoted() {
    let lines: Vec<String> = Vec::new();
    let out = set_env_lines(ConfigKey::ApiKey, "has space", &lines);
    assert_eq!(out, vec![String::from("SIDEKO_API_KEY='has space'")]);
}

#[test]
fn keys_do_not_match_other_keys_lines() {
    let lines: Vec<String> = vec![String::from("SIDEKO_BASE_URL=x")];
    let out = set_env_lines(ConfigKey::ApiKey, "k", &lines);
    assert_eq!(
        out,
        vec![
            String::from("SIDEKO_BASE_URL=x"),
            String::from("SIDEKO_API_KEY=k")
        ]
    );
}

#[test]
fn lines_split_and_join_round_trip() {
    let content = "A=1\nB=2\n\nC=3";
    let lines = sideko::config::split_lines(content);
    assert_eq!(
        lines,
        vec![
            String::from("A=1"),
            String::from("B=2"),
            String::from(""),
            String::from("C=3")
        ]
    );
    assert_eq!(sideko::config::join_lines(&lines), content);
    assert_eq!(sideko::config::split_lines(""), vec![String::from("")]);
}

#[test]
fn setting_in_whole_content_replaces_or_appends() {
    let content = "SIDEKO_API_KEY=old\nOTHER=1";
    let updated = sideko::config::set_env_content(ConfigKey::ApiKey, "new", content);
    assert_eq!(updated, "SIDEKO_API_KEY=new\nOTHER=1");
    let appended = sideko::config::set_env_content(ConfigKey::ApiBaseUrl, "http://x/v1", &updated);
    assert_eq!(
        appended,
        "SIDEKO_API_KEY=new\nOTHER=1\nSIDEKO_BASE_URL=http://x/v1"
    );
}

#[test]
fn setting_whole_content_twice_is_idempotent() {
    let content = "OTHER=1";
    let once = sideko::config::set_env_content(ConfigKey::ApiKey, "abc123", content);
    let twice = sideko::config::set_env_content(ConfigKey::ApiKey, "abc123", &once);
    assert_eq!(once, twice);
    assert_eq!(once, "OTHER=1\nSIDEKO_API_KEY=abc123");
}
