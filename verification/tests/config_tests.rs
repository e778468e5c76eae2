use cbzcal::config::{
    check_config_permissions, choose_config_path, config_format, config_search_paths,
    default_session_cache_path, normalize_path, resolve_credential_pair, AppConfig, BackendKind,
    ConfigFormat, CredentialSource, CybozuHtmlConfig, EnvSnapshot, EnvVar, FixtureConfig,
};

fn no_env() -> EnvSnapshot {
    EnvSnapshot { vars: Vec::new(), current_dir: None }
}

fn env_of(pairs: &[(&str, &str)]) -> EnvSnapshot {
    EnvSnapshot {
        vars: pairs
            .iter()
            .map(|(n, v)| EnvVar { name: n.to_string(), value: v.to_string(), unicode: true })
            .collect(),
        current_dir: Some("/work".to_string()),
    }
}

fn cybozu(base_url: &str) -> CybozuHtmlConfig {
    CybozuHtmlConfig {
        base_url: base_url.to_string(),
        office_login_url: None,
        office_login_post_url: None,
        session_cache_path: None,
        basic_username_env: None,
        basic_password_env: None,
        basic_username: None,
        basic_password: None,
        office_username_env: None,
        office_password_env: None,
        office_username: None,
        office_password: None,
        user_agent: None,
    }
}

#[test]
fn inline_credentials_are_resolved() {
    let config = CybozuHtmlConfig {
        base_url: "https://example.cybozu.com/o/ag.cgi".to_string(),
        office_login_url: None,
        office_login_post_url: None,
        session_cache_path: None,
        basic_username_env: None,
        basic_password_env: None,
        basic_username: Some("basic-user".to_string()),
        basic_password: Some("basic-pass".to_string()),
        office_username_env: None,
        office_password_env: None,
        office_username: Some("office-user".to_string()),
        office_password: Some("office-pass".to_string()),
        user_agent: None,
    };
    let env = no_env();

    let basic = config
        .resolve_basic_credentials(&env)
        .expect("resolve basic")
        .expect("basic creds");
    let office = config
        .resolve_office_credentials(&env)
        .expect("resolve office")
        .expect("office creds");

    assert_eq!(basic.username, "basic-user");
    assert_eq!(basic.password, "basic-pass");
    assert_eq!(basic.source, CredentialSource::Inline);
    assert_eq!(office.username, "office-user");
    assert_eq!(office.password, "office-pass");
    assert_eq!(office.source, CredentialSource::Inline);
}

#[test]
fn environment_credentials_take_precedence_over_inline() {
    let env = env_of(&[("U", "env-user"), ("P", "env-pass")]);
    let pair = resolve_credential_pair(
        &Some("U".to_string()),
        &Some("P".to_string()),
        &Some("inline-user".to_string()),
        &Some("inline-pass".to_string()),
        &env,
    )
    .expect("resolve")
    .expect("pair");
    assert_eq!(pair.username, "env-user");
    assert_eq!(pair.password, "env-pass");
    assert_eq!(
        pair.source,
        CredentialSource::Env { username_env: "U".to_string(), password_env: "P".to_string() }
    );
}

#[test]
fn half_configured_credentials_are_refused() {
    let env = env_of(&[("U", "env-user")]);
    assert_eq!(
        resolve_credential_pair(&Some("U".to_string()), &Some("P".to_string()), &None, &None, &env)
            .unwrap_err(),
        "環境変数 U / P はどちらか一方しか設定されていません"
    );
    assert_eq!(
        resolve_credential_pair(&Some("U".to_string()), &None, &None, &None, &env).unwrap_err(),
        "環境変数名はユーザー名とパスワードを両方指定してください"
    );
    assert_eq!(
        resolve_credential_pair(&None, &None, &Some("u".to_string()), &None, &env).unwrap_err(),
        "設定ファイル内の資格情報はユーザー名とパスワードを両方指定してください"
    );
    assert!(resolve_credential_pair(&None, &None, &None, &None, &env).expect("ok").is_none());
}

#[test]
fn unset_variables_fall_back_to_inline_values() {
    let env = no_env();
    let pair = resolve_credential_pair(
        &Some("U".to_string()),
        &Some("P".to_string()),
        &Some("u".to_string()),
        &Some("p".to_string()),
        &env,
    )
    .expect("resolve")
    .expect("pair");
    assert_eq!(pair.source, CredentialSource::Inline);
    assert_eq!(pair.username, "u");
}

#[test]
fn backend_kind_names() {
    assert_eq!(BackendKind::Fixture.as_str(), "fixture");
    assert_eq!(BackendKind::CybozuHtml.as_str(), "cybozu-html");
}

#[test]
fn paths_are_normalized_like_components() {
    assert_eq!(normalize_path("/tmp/a/../b/./c.json"), "/tmp/b/c.json");
    assert_eq!(normalize_path("a//b/"), "a/b");
    assert_eq!(normalize_path("../x"), "x");
    assert_eq!(normalize_path("/"), "/");
}

#[test]
fn relative_paths_are_taken_against_the_config_directory() {
    let mut config = AppConfig {
        backend: BackendKind::CybozuHtml,
        fixture: Some(FixtureConfig { path: "../fixtures/local.json".to_string() }),
        cybozu_html: Some(CybozuHtmlConfig {
            session_cache_path: Some("../state/cookies.json".to_string()),
            ..cybozu("https://example.cybozu.com/o/ag.cgi")
        }),
        events_cache_path: None,
        ollama: None,
    };
    config.resolve_relative_paths("/tmp/t/config/cbzcal.toml");
    assert_eq!(config.fixture.as_ref().unwrap().path, "/tmp/t/fixtures/local.json");
    assert_eq!(
        config.cybozu_html.as_ref().unwrap().session_cache_path.as_deref(),
        Some("/tmp/t/state/cookies.json")
    );

    let mut absolute = AppConfig {
        backend: BackendKind::Fixture,
        fixture: Some(FixtureConfig { path: "/data/calendar.json".to_string() }),
        cybozu_html: None,
        events_cache_path: None,
        ollama: None,
    };
    absolute.resolve_relative_paths("cbzcal.toml");
    assert_eq!(absolute.fixture.unwrap().path, "/data/calendar.json");

    let mut bare = AppConfig {
        backend: BackendKind::Fixture,
        fixture: Some(FixtureConfig { path: "./calendar.json".to_string() }),
        cybozu_html: None,
        events_cache_path: None,
        ollama: None,
    };
    bare.resolve_relative_paths(".cbzcal.yml");
    assert_eq!(bare.fixture.unwrap().path, "calendar.json");
}

#[test]
fn default_session_cache_path_uses_xdg_state_home() {
    let env = env_of(&[("HOME", "/home/u"), ("XDG_STATE_HOME", "/state")]);
    assert_eq!(default_session_cache_path(&env), "/state/cbzcal/session-cookies.json");
    let home_only = env_of(&[("HOME", "/home/u")]);
    assert_eq!(
        default_session_cache_path(&home_only),
        "/home/u/.local/state/cbzcal/session-cookies.json"
    );
    let nothing = env_of(&[]);
    assert_eq!(default_session_cache_path(&nothing), "/work/cbzcal/session-cookies.json");
    assert_eq!(default_session_cache_path(&no_env()), "./cbzcal/session-cookies.json");
    let configured = CybozuHtmlConfig {
        session_cache_path: Some("/x/cookies.json".to_string()),
        ..cybozu("https://example.cybozu.com/o/ag.cgi")
    };
    assert_eq!(configured.session_cache_path(&env), "/x/cookies.json");
}

#[test]
fn config_is_looked_for_in_order() {
    let env = env_of(&[("HOME", "/home/u")]);
    assert_eq!(
        config_search_paths("/work", &env),
        vec![
            "/work/.cbzcal.toml".to_string(),
            "/work/.cbzcal.yml".to_string(),
            "/home/u/.config/cbzcal/config.toml".to_string(),
            "/home/u/.config/cbzcal/config.yml".to_string(),
            "/home/u/.cbzcal.toml".to_string(),
            "/home/u/.cbzcal.yml".to_string(),
        ]
    );
    let xdg = env_of(&[("XDG_CONFIG_HOME", "/xdg")]);
    assert_eq!(
        config_search_paths("/work", &xdg),
        vec![
            "/work/.cbzcal.toml".to_string(),
            "/work/.cbzcal.yml".to_string(),
            "/xdg/cbzcal/config.toml".to_string(),
            "/xdg/cbzcal/config.yml".to_string(),
        ]
    );
}

#[test]
fn first_existing_candidate_is_chosen() {
    let candidates = vec!["a.toml".to_string(), "a.yml".to_string(), "b.toml".to_string()];
    assert_eq!(choose_config_path(&candidates, &vec![false, true, true]).unwrap(), "a.yml");
    assert_eq!(
        choose_config_path(&candidates, &vec![false, false, false]).unwrap_err(),
        "設定ファイルが見つかりませんでした。探索先: a.toml, a.yml, b.toml. `--config` を指定するか .cbzcal.yml / .cbzcal.toml を作成してください"
    );
}

#[test]
fn only_private_permissions_are_accepted() {
    assert!(check_config_permissions("c.toml", 0o100600).is_ok());
    assert!(check_config_permissions("c.toml", 0o400).is_ok());
    let error = check_config_permissions("c.toml", 0o100644).unwrap_err();
    assert!(error.contains("0400 または 0600"));
    assert_eq!(
        error,
        "設定ファイル c.toml の権限は 0400 または 0600 である必要があります: 現在 644"
    );
    assert!(check_config_permissions("c.toml", 0).unwrap_err().ends_with("現在 0"));
}

#[test]
fn config_format_follows_the_extension() {
    assert_eq!(config_format("/a/.cbzcal.yml"), Ok(ConfigFormat::Yaml));
    assert_eq!(config_format("x.yaml"), Ok(ConfigFormat::Yaml));
    assert_eq!(config_format("/a/b/config.toml"), Ok(ConfigFormat::Toml));
    assert_eq!(
        config_format("/a/.cbzcal").unwrap_err(),
        "設定ファイル形式を判別できません: /a/.cbzcal (.yml/.yaml/.toml を使ってください)"
    );
    assert!(config_format("config.json").is_err());
    assert!(config_format("..").is_err());
}

#[test]
fn login_needs_office_credentials() {
    let mut config = cybozu("https://example.cybozu.com/o/ag.cgi");
    assert_eq!(
        config.require_office_credentials(&no_env()).unwrap_err(),
        "Cybozu ログイン資格情報がありません"
    );
    config.office_username = Some("user".to_string());
    config.office_password = Some("pass".to_string());
    let pair = config.require_office_credentials(&no_env()).expect("credentials");
    assert_eq!(pair.username, "user");
    assert_eq!(pair.password, "pass");
}
