use cbzcal::config::{AppConfig, BackendKind, CybozuHtmlConfig, EnvSnapshot, EnvVar, FixtureConfig};
use cbzcal::doctor::{generate_report, DoctorCheck, DoctorReport};

fn no_env() -> EnvSnapshot {
    EnvSnapshot { vars: Vec::new(), current_dir: None }
}

fn cybozu_config(basic: Option<(&str, &str)>, office: Option<(&str, &str)>) -> CybozuHtmlConfig {
    CybozuHtmlConfig {
        base_url: "https://example.cybozu.com/o/ag.cgi".to_string(),
        office_login_url: None,
        office_login_post_url: None,
        session_cache_path: None,
        basic_username_env: None,
        basic_password_env: None,
        basic_username: basic.map(|b| b.0.to_string()),
        basic_password: basic.map(|b| b.1.to_string()),
        office_username_env: None,
        office_password_env: None,
        office_username: office.map(|o| o.0.to_string()),
        office_password: office.map(|o| o.1.to_string()),
        user_agent: None,
    }
}

fn check<'a>(report: &'a DoctorReport, key: &str) -> &'a DoctorCheck {
    report.checks.iter().find(|check| check.key == key).expect("check")
}

#[test]
fn doctor_warns_when_login_endpoints_are_not_explicitly_configured() {
    let config = AppConfig {
        backend: BackendKind::CybozuHtml,
        fixture: None,
        cybozu_html: Some(cybozu_config(None, None)),
        events_cache_path: None,
        ollama: None,
    };

    let report = config.doctor_report("/tmp/cbzcal.toml", &no_env());
    let login_url_check = check(&report, "office-login-url");
    let login_post_check = check(&report, "office-login-post-url");

    assert_eq!(login_url_check.level, "warn");
    assert!(login_url_check.detail.contains("https://example.cybozu.com/login"));
    assert_eq!(login_post_check.level, "warn");
    assert!(login_post_check
        .detail
        .contains("https://example.cybozu.com/api/auth/redirect.do"));
}

#[test]
fn doctor_warns_when_using_inline_credentials() {
    let config = AppConfig {
        backend: BackendKind::CybozuHtml,
        fixture: None,
        cybozu_html: Some(cybozu_config(
            Some(("basic-user", "basic-pass")),
            Some(("office-user", "office-pass")),
        )),
        events_cache_path: None,
        ollama: None,
    };

    let report = config.doctor_report("/tmp/.cbzcal.toml", &no_env());
    let basic = check(&report, "basic-auth");
    let office = check(&report, "office-login");

    assert_eq!(basic.level, "warn");
    assert!(basic.detail.contains("平文資格情報"));
    assert_eq!(office.level, "warn");
    assert!(office.detail.contains("平文資格情報"));
}

#[test]
fn fixture_config_is_ready() {
    let config = AppConfig {
        backend: BackendKind::Fixture,
        fixture: Some(FixtureConfig { path: "/tmp/calendar.json".to_string() }),
        cybozu_html: None,
        events_cache_path: None,
        ollama: None,
    };
    let report = generate_report(&config, "/tmp/.cbzcal.yml", &no_env());
    assert!(report.ready);
    assert_eq!(report.backend, "fixture");
    assert_eq!(report.checks.len(), 2);
    assert_eq!(report.checks[0].detail, "設定ファイルを読み込みました: /tmp/.cbzcal.yml");
    assert_eq!(report.checks[1].detail, "fixture バックエンドを使用します: /tmp/calendar.json");
    assert!(report.next_steps.is_empty());
}

#[test]
fn missing_section_is_an_error() {
    let config = AppConfig { backend: BackendKind::CybozuHtml, fixture: None, cybozu_html: None, events_cache_path: None, ollama: None };
    let report = generate_report(&config, "/c.toml", &no_env());
    assert!(!report.ready);
    assert_eq!(report.checks[1].level, "error");
    assert_eq!(report.checks[1].detail, "[cybozu-html] セクションがありません");
}

#[test]
fn cybozu_report_lists_every_check_in_order() {
    let env = EnvSnapshot {
        vars: vec![
            EnvVar { name: "BU".to_string(), value: "x".to_string(), unicode: true },
            EnvVar { name: "BP".to_string(), value: "y".to_string(), unicode: true },
        ],
        current_dir: None,
    };
    let mut c = cybozu_config(None, None);
    c.basic_username_env = Some("BU".to_string());
    c.basic_password_env = Some("BP".to_string());
    c.office_username_env = Some("OU".to_string());
    c.office_password_env = Some("OP".to_string());
    c.session_cache_path = Some("/s/cookies.json".to_string());
    c.office_login_url = Some("https://example.cybozu.com/login".to_string());
    let config = AppConfig { backend: BackendKind::CybozuHtml, fixture: None, cybozu_html: Some(c), events_cache_path: None, ollama: None };
    let report = generate_report(&config, "/c.toml", &env);
    let keys: Vec<&str> = report.checks.iter().map(|c| c.key.as_str()).collect();
    assert_eq!(
        keys,
        vec![
            "config",
            "base-url",
            "office-login-url",
            "office-login-post-url",
            "session-cache",
            "basic-auth",
            "office-login",
            "html-contract"
        ]
    );
    assert_eq!(check(&report, "base-url").level, "ok");
    assert_eq!(
        check(&report, "office-login-url").detail,
        "Cybozu ログイン画面 URL を確認しました: https://example.cybozu.com/login"
    );
    assert_eq!(check(&report, "session-cache").detail, "セッション Cookie キャッシュを使用します: /s/cookies.json");
    assert_eq!(check(&report, "basic-auth").level, "ok");
    assert_eq!(
        check(&report, "basic-auth").detail,
        "Basic 認証 は環境変数 BU / BP から利用可能です"
    );
    assert_eq!(check(&report, "office-login").level, "error");
    assert_eq!(
        check(&report, "office-login").detail,
        "Cybozu ログイン の環境変数 OU / OP が見つかりません"
    );
    assert!(!report.ready);
    assert_eq!(report.next_steps.len(), 3);
}

#[test]
fn base_url_outside_ag_cgi_is_a_warning_and_garbage_an_error() {
    let mut c = cybozu_config(None, None);
    c.base_url = "https://example.cybozu.com/other".to_string();
    let config = AppConfig { backend: BackendKind::CybozuHtml, fixture: None, cybozu_html: Some(c), events_cache_path: None, ollama: None };
    let report = generate_report(&config, "/c.toml", &no_env());
    assert_eq!(check(&report, "base-url").level, "warn");

    let mut bad = cybozu_config(None, None);
    bad.base_url = "not a url".to_string();
    let config = AppConfig { backend: BackendKind::CybozuHtml, fixture: None, cybozu_html: Some(bad), events_cache_path: None, ollama: None };
    let report = generate_report(&config, "/c.toml", &no_env());
    assert_eq!(check(&report, "base-url").level, "error");
    assert!(check(&report, "base-url").detail.starts_with("URL を解釈できません: "));
    assert!(check(&report, "office-login-url").detail.contains("base_url から推定できない"));
}

#[test]
fn report_is_ready_only_without_errors() {
    let ok = DoctorReport::new(
        "/c",
        "fixture",
        vec![DoctorCheck::ok("a", "x".to_string()), DoctorCheck::warn("b", "y".to_string())],
        Vec::new(),
    );
    assert!(ok.ready);
    let bad = DoctorReport::new(
        "/c",
        "fixture",
        vec![DoctorCheck::ok("a", "x".to_string()), DoctorCheck::error("b", "y".to_string())],
        Vec::new(),
    );
    assert!(!bad.ready);
}
