use cbzcal::config::{
    config_search_paths, AppConfig, BackendKind, ConfigFormat, CybozuHtmlConfig, EnvSnapshot, EnvVar,
    FixtureConfig,
};
use cbzcal::loading::ConfigLoad;

fn env_of(pairs: &[(&str, &str)]) -> EnvSnapshot {
    EnvSnapshot {
        vars: pairs
            .iter()
            .map(|(n, v)| EnvVar { name: n.to_string(), value: v.to_string(), unicode: true })
            .collect(),
        current_dir: Some("/work".to_string()),
    }
}

fn fixture_config(path: &str) -> AppConfig {
    AppConfig {
        backend: BackendKind::Fixture,
        fixture: Some(FixtureConfig { path: path.to_string() }),
        cybozu_html: None,
        events_cache_path: None,
        ollama: None,
    }
}

fn cybozu_config(session_cache_path: Option<&str>) -> AppConfig {
    AppConfig {
        backend: BackendKind::CybozuHtml,
        fixture: None,
        cybozu_html: Some(CybozuHtmlConfig {
            base_url: "https://example.cybozu.com/o/ag.cgi".to_string(),
            office_login_url: Some("https://example.cybozu.com/login".to_string()),
            office_login_post_url: Some("https://example.cybozu.com/api/auth/redirect.do".to_string()),
            session_cache_path: session_cache_path.map(|p| p.to_string()),
            basic_username_env: None,
            basic_password_env: None,
            basic_username: None,
            basic_password: None,
            office_username_env: None,
            office_password_env: None,
            office_username: None,
            office_password: None,
            user_agent: None,
        }),
        events_cache_path: None,
        ollama: None,
    }
}

/// Runs a load from the permission check on, with the given answers.
fn finish(path: &str, mode: u32, raw: &str, parsed: AppConfig) -> ConfigLoad {
    let state = AppConfig::load(path.to_string()).mode_read(Ok(mode));
    let state = match state {
        ConfigLoad::ReadFile { .. } => state.file_read(Ok(raw.to_string())),
        other => return other,
    };
    match state {
        ConfigLoad::Parse { .. } => state.parsed(Ok(parsed)),
        other => other,
    }
}

#[test]
fn explicit_path_is_checked_first() {
    match AppConfig::load_with_resolution(Some("/etc/cbzcal.toml".to_string()), "", &env_of(&[])) {
        ConfigLoad::CheckMode { path } => assert_eq!(path, "/etc/cbzcal.toml"),
        other => panic!("unexpected {other:?}"),
    }
}

#[test]
fn without_a_path_the_usual_places_are_searched() {
    let env = env_of(&[("HOME", "/home/u")]);
    match AppConfig::load_with_resolution(None, "/work", &env) {
        ConfigLoad::FindFile { candidates } => {
            assert_eq!(candidates, config_search_paths("/work", &env));
            assert_eq!(candidates[0], "/work/.cbzcal.toml");
        }
        other => panic!("unexpected {other:?}"),
    }
}

#[test]
fn first_existing_candidate_is_taken() {
    let env = env_of(&[("HOME", "/home/u")]);
    let state = AppConfig::load_with_resolution(None, "/work", &env);
    let candidates = config_search_paths("/work", &env);
    let mut found = vec![false; candidates.len()];
    found[1] = true;
    found[3] = true;
    match state.files_found(found) {
        ConfigLoad::CheckMode { path } => assert_eq!(path, candidates[1]),
        other => panic!("unexpected {other:?}"),
    }
}

#[test]
fn no_candidate_gives_the_search_list() {
    let env = env_of(&[]);
    let state = AppConfig::load_with_resolution(None, "/work", &env);
    let n = config_search_paths("/work", &env).len();
    match state.files_found(vec![false; n]) {
        ConfigLoad::Failed(m) => {
            assert!(m.starts_with("設定ファイルが見つかりませんでした。探索先: /work/.cbzcal.toml, /work/.cbzcal.yml"));
        }
        other => panic!("unexpected {other:?}"),
    }
}

#[test]
fn world_readable_config_is_refused() {
    match AppConfig::load("/tmp/cbzcal.toml".to_string()).mode_read(Ok(0o100644)) {
        ConfigLoad::Failed(m) => assert_eq!(
            m,
            "設定ファイル /tmp/cbzcal.toml の権限は 0400 または 0600 である必要があります: 現在 644"
        ),
        other => panic!("unexpected {other:?}"),
    }
}

#[test]
fn unreadable_metadata_stops_the_load() {
    match AppConfig::load("/tmp/cbzcal.toml".to_string()).mode_read(Err("no such file".to_string())) {
        ConfigLoad::Failed(m) => assert_eq!(m, "no such file"),
        other => panic!("unexpected {other:?}"),
    }
}

#[test]
fn read_only_config_goes_on_to_reading() {
    match AppConfig::load("/tmp/cbzcal.yml".to_string()).mode_read(Ok(0o400)) {
        ConfigLoad::ReadFile { path } => assert_eq!(path, "/tmp/cbzcal.yml"),
        other => panic!("unexpected {other:?}"),
    }
}

#[test]
fn yaml_text_is_handed_to_the_yaml_parser() {
    let state = AppConfig::load("/tmp/cbzcal.yaml".to_string()).mode_read(Ok(0o600));
    match state.file_read(Ok("backend: fixture\n".to_string())) {
        ConfigLoad::Parse { path, format, raw } => {
            assert_eq!(path, "/tmp/cbzcal.yaml");
            assert_eq!(format, ConfigFormat::Yaml);
            assert_eq!(raw, "backend: fixture\n");
        }
        other => panic!("unexpected {other:?}"),
    }
}

#[test]
fn unknown_extension_is_refused_after_reading() {
    let state = AppConfig::load("/tmp/cbzcal.json".to_string()).mode_read(Ok(0o600));
    match state.file_read(Ok("{}".to_string())) {
        ConfigLoad::Failed(m) => assert_eq!(
            m,
            "設定ファイル形式を判別できません: /tmp/cbzcal.json (.yml/.yaml/.toml を使ってください)"
        ),
        other => panic!("unexpected {other:?}"),
    }
}

#[test]
fn parse_error_stops_the_load() {
    let state = AppConfig::load("/tmp/cbzcal.toml".to_string()).mode_read(Ok(0o600));
    let state = state.file_read(Ok("backend = ".to_string()));
    match state.parsed(Err("設定ファイルを解釈できません: /tmp/cbzcal.toml".to_string())) {
        ConfigLoad::Failed(m) => assert_eq!(m, "設定ファイルを解釈できません: /tmp/cbzcal.toml"),
        other => panic!("unexpected {other:?}"),
    }
}

#[test]
fn loaded_fixture_path_is_resolved_against_config_directory() {
    let raw = "backend = \"fixture\"\n\n[fixture]\npath = \"../fixtures/local.json\"\n";
    match finish("/tmp/x/config/cbzcal.toml", 0o600, raw, fixture_config("../fixtures/local.json")) {
        ConfigLoad::Loaded(loaded) => {
            assert_eq!(loaded.path, "/tmp/x/config/cbzcal.toml");
            assert_eq!(loaded.config.fixture.expect("fixture").path, "/tmp/x/fixtures/local.json");
        }
        other => panic!("unexpected {other:?}"),
    }
}

#[test]
fn loaded_session_cache_path_is_resolved_and_login_urls_kept() {
    match finish("/tmp/x/config/cbzcal.toml", 0o600, "", cybozu_config(Some("../state/cookies.json"))) {
        ConfigLoad::Loaded(loaded) => {
            let cybozu = loaded.config.cybozu_html.expect("cybozu-html");
            assert_eq!(cybozu.session_cache_path.as_deref(), Some("/tmp/x/state/cookies.json"));
            assert_eq!(cybozu.office_login_url.as_deref(), Some("https://example.cybozu.com/login"));
            assert_eq!(
                cybozu.office_login_post_url.as_deref(),
                Some("https://example.cybozu.com/api/auth/redirect.do")
            );
        }
        other => panic!("unexpected {other:?}"),
    }
}

#[test]
fn absolute_fixture_path_is_kept_on_load() {
    match finish("/tmp/x/cbzcal.toml", 0o400, "", fixture_config("/data/events.json")) {
        ConfigLoad::Loaded(loaded) => {
            assert_eq!(loaded.config.fixture.expect("fixture").path, "/data/events.json");
        }
        other => panic!("unexpected {other:?}"),
    }
}
