//! The `doctor` report: what is checked in a configuration and in what order.
use vstd::prelude::*;
use crate::config::{
    string_views,
    backend_name, env_is_set, opt_view, session_path_spec, AppConfig, BackendKind,
    CybozuHtmlConfig, EnvSnapshot,
};
use crate::text::{chars_of, ends_with, push_str, string_of};
use crate::urls::{parse_url, url_parts_of, url_with_path, url_with_path_of};

verus! {

/// One finding: its key, its level (`ok`, `warn` or `error`) and what it says.
#[derive(Debug)]
pub struct DoctorCheck {
    pub key: String,
    pub level: &'static str,
    pub detail: String,
}

/// All findings about a configuration, and what to do next.
#[derive(Debug)]
pub struct DoctorReport {
    pub config_path: String,
    pub backend: String,
    pub ready: bool,
    pub checks: Vec<DoctorCheck>,
    pub next_steps: Vec<String>,
}

/// A finding as plain values: key, level, detail.
pub type CheckView = (Seq<char>, Seq<char>, Seq<char>);

pub open spec fn check_view(c: DoctorCheck) -> CheckView {
    (c.key@, c.level@, c.detail@)
}

pub open spec fn checks_view(v: Seq<DoctorCheck>) -> Seq<CheckView> {
    v.map_values(|c: DoctorCheck| check_view(c))
}


/// No finding is an error.
pub open spec fn all_clear(checks: Seq<CheckView>) -> bool {
    forall|i: int| 0 <= i < checks.len() ==> checks[i].1 != "error"@
}

impl DoctorCheck {
    /// A finding of level `ok`.
    pub fn ok(key: &str, detail: String) -> (r: DoctorCheck)
        ensures
            check_view(r) == (key@, "ok"@, detail@),
    {
        DoctorCheck { key: key.to_string(), level: "ok", detail }
    }

    /// A finding of level `warn`.
    pub fn warn(key: &str, detail: String) -> (r: DoctorCheck)
        ensures
            check_view(r) == (key@, "warn"@, detail@),
    {
        DoctorCheck { key: key.to_string(), level: "warn", detail }
    }

    /// A finding of level `error`.
    pub fn error(key: &str, detail: String) -> (r: DoctorCheck)
        ensures
            check_view(r) == (key@, "error"@, detail@),
    {
        DoctorCheck { key: key.to_string(), level: "error", detail }
    }
}

fn is_error_level(level: &'static str) -> (r: bool)
    ensures
        r == (level@ == "error"@),
{
    crate::text::str_eq(level, "error")
}

impl DoctorReport {
    /// A report; it is ready when no finding is an error.
    pub fn new(config_path: &str, backend: &str, checks: Vec<DoctorCheck>, next_steps: Vec<String>) -> (r: DoctorReport)
        ensures
            r.config_path@ == config_path@,
            r.backend@ == backend@,
            r.ready == all_clear(checks_view(checks@)),
            r.checks@ == checks@,
            r.next_steps@ == next_steps@,
    {
        let mut ready = true;
        let mut i: usize = 0;
        while i < checks.len()
            invariant
                i <= checks@.len(),
                ready == forall|j: int| 0 <= j < i ==> checks@[j].level@ != "error"@,
            decreases checks.len() - i,
        {
            if is_error_level(checks[i].level) {
                ready = false;
            }
            i = i + 1;
        }
        proof {
            let cv = checks_view(checks@);
            if ready {
                assert forall|j: int| 0 <= j < cv.len() implies cv[j].1 != "error"@ by {
                    assert(cv[j] == check_view(checks@[j]));
                }
            } else {
                let j = choose|j: int| 0 <= j < checks@.len() && checks@[j].level@ == "error"@;
                assert(cv[j] == check_view(checks@[j]));
            }
        }
        DoctorReport {
            config_path: config_path.to_string(),
            backend: backend.to_string(),
            ready,
            checks,
            next_steps,
        }
    }
}

// ---------------------------------------------------------------------
// Credential findings
// ---------------------------------------------------------------------
/// The finding for a credential pair: its level and text.
pub open spec fn env_pair_check(
    label: Seq<char>,
    username_env: Option<Seq<char>>,
    password_env: Option<Seq<char>>,
    inline_username: Option<Seq<char>>,
    inline_password: Option<Seq<char>>,
    env: EnvSnapshot,
) -> (Seq<char>, Seq<char>) {
    let inline_ready = inline_username is Some && inline_password is Some;
    match (username_env, password_env) {
        (Some(u), Some(p)) => {
            let names = " の環境変数 "@ + u + " / "@ + p;
            let u_set = env_is_set(env.vars@, u);
            let p_set = env_is_set(env.vars@, p);
            if u_set && p_set {
                ("ok"@, label + " は環境変数 "@ + u + " / "@ + p + " から利用可能です"@)
            } else if !u_set && !p_set {
                if inline_ready {
                    (
                        "warn"@,
                        label + names
                            + " は未設定ですが、設定ファイル内の資格情報を fallback として使えます"@,
                    )
                } else {
                    ("error"@, label + names + " が見つかりません"@)
                }
            } else if inline_ready {
                (
                    "warn"@,
                    label + names
                        + " は片方だけ設定されています。今回は設定ファイル内の資格情報を fallback として使えます"@,
                )
            } else {
                ("error"@, label + names + " はどちらか一方しか設定されていません"@)
            }
        },
        (None, None) => match (inline_username, inline_password) {
            (Some(_), Some(_)) => (
                "warn"@,
                label + " は設定ファイル内の平文資格情報を使います。一時検証向けです"@,
            ),
            (None, None) => (
                "warn"@,
                label
                    + " は未設定です。必要なら環境変数名または設定ファイル内の資格情報を両方設定してください"@,
            ),
            _ => (
                "error"@,
                label + " は設定ファイル内でもユーザー名とパスワードを両方設定してください"@,
            ),
        },
        _ => if inline_ready {
            (
                "warn"@,
                label
                    + " の環境変数名は片方だけ設定されています。今回は設定ファイル内の資格情報を fallback として使えます"@,
            )
        } else {
            ("error"@, label + " はユーザー名とパスワードの環境変数名を両方設定してください"@)
        },
    }
}

fn push_check(checks: &mut Vec<DoctorCheck>, key: &str, level: u8, detail: Vec<char>)
    requires
        level < 3,
    ensures
        checks_view(final(checks)@) == checks_view(old(checks)@).push(
            (
                key@,
                if level == 0 {
                    "ok"@
                } else if level == 1 {
                    "warn"@
                } else {
                    "error"@
                },
                detail@,
            ),
        ),
{
    let d = string_of(detail.as_slice());
    let c = if level == 0 {
        DoctorCheck::ok(key, d)
    } else if level == 1 {
        DoctorCheck::warn(key, d)
    } else {
        DoctorCheck::error(key, d)
    };
    let ghost before = checks@;
    checks.push(c);
    assert(checks_view(checks@) =~= checks_view(before).push(check_view(c)));
}

/// Adds the finding for a credential pair. Whether each named variable is
/// set is read from `env`.
pub fn push_env_pair_checks(
    checks: &mut Vec<DoctorCheck>,
    key: &str,
    label: &str,
    username_env: &Option<String>,
    password_env: &Option<String>,
    inline_username: &Option<String>,
    inline_password: &Option<String>,
    env: &EnvSnapshot,
)
    ensures
        checks_view(final(checks)@) == checks_view(old(checks)@).push(
            {
                let f = env_pair_check(
                    label@,
                    opt_view(*username_env),
                    opt_view(*password_env),
                    opt_view(*inline_username),
                    opt_view(*inline_password),
                    *env,
                );
                (key@, f.0, f.1)
            },
        ),
{
    let inline_ready = inline_username.is_some() && inline_password.is_some();
    let mut d = chars_of(label);
    match (username_env, password_env) {
        (Some(u), Some(p)) => {
            let u_set = env.is_set(u.as_str());
            let p_set = env.is_set(p.as_str());
            if u_set && p_set {
                push_str(&mut d, " は環境変数 ");
                push_str(&mut d, u.as_str());
                push_str(&mut d, " / ");
                push_str(&mut d, p.as_str());
                push_str(&mut d, " から利用可能です");
                assert(d@ =~= label@ + " は環境変数 "@ + u@ + " / "@ + p@ + " から利用可能です"@);
                push_check(checks, key, 0, d);
            } else {
                push_str(&mut d, " の環境変数 ");
                push_str(&mut d, u.as_str());
                push_str(&mut d, " / ");
                push_str(&mut d, p.as_str());
                let ghost names = d@;
                assert(names =~= label@ + (" の環境変数 "@ + u@ + " / "@ + p@));
                if !u_set && !p_set {
                    if inline_ready {
                        push_str(
                            &mut d,
                            " は未設定ですが、設定ファイル内の資格情報を fallback として使えます",
                        );
                        assert(d@ =~= names
                            + " は未設定ですが、設定ファイル内の資格情報を fallback として使えます"@);
                        push_check(checks, key, 1, d);
                    } else {
                        push_str(&mut d, " が見つかりません");
                        assert(d@ =~= names + " が見つかりません"@);
                        push_check(checks, key, 2, d);
                    }
                } else if inline_ready {
                    push_str(
                        &mut d,
                        " は片方だけ設定されています。今回は設定ファイル内の資格情報を fallback として使えます",
                    );
                    assert(d@ =~= names
                        + " は片方だけ設定されています。今回は設定ファイル内の資格情報を fallback として使えます"@);
                    push_check(checks, key, 1, d);
                } else {
                    push_str(&mut d, " はどちらか一方しか設定されていません");
                    assert(d@ =~= names + " はどちらか一方しか設定されていません"@);
                    push_check(checks, key, 2, d);
                }
            }
        },
        (None, None) => match (inline_username, inline_password) {
            (Some(_), Some(_)) => {
                push_str(&mut d, " は設定ファイル内の平文資格情報を使います。一時検証向けです");
                push_check(checks, key, 1, d);
            },
            (None, None) => {
                push_str(
                    &mut d,
                    " は未設定です。必要なら環境変数名または設定ファイル内の資格情報を両方設定してください",
                );
                push_check(checks, key, 1, d);
            },
            _ => {
                push_str(
                    &mut d,
                    " は設定ファイル内でもユーザー名とパスワードを両方設定してください",
                );
                push_check(checks, key, 2, d);
            },
        },
        _ => if inline_ready {
            push_str(
                &mut d,
                " の環境変数名は片方だけ設定されています。今回は設定ファイル内の資格情報を fallback として使えます",
            );
            push_check(checks, key, 1, d);
        } else {
            push_str(&mut d, " はユーザー名とパスワードの環境変数名を両方設定してください");
            push_check(checks, key, 2, d);
        },
    }
}

// ---------------------------------------------------------------------
// URL findings
// ---------------------------------------------------------------------
/// The finding for an optional login URL: the configured one checked, or
/// the inferred one suggested.
pub open spec fn optional_url_check(
    label: Seq<char>,
    configured: Option<Seq<char>>,
    inferred: Option<Seq<char>>,
) -> (Seq<char>, Seq<char>) {
    match configured {
        Some(url) => match url_parts_of(url) {
            Ok(_) => (
                "ok"@,
                match inferred {
                    Some(i) => if i != url {
                        label + " を確認しました: "@ + url + " (推定値: "@ + i + ")"@
                    } else {
                        label + " を確認しました: "@ + url
                    },
                    None => label + " を確認しました: "@ + url,
                },
            ),
            Err(e) => ("error"@, label + " を解釈できません: "@ + e),
        },
        None => (
            "warn"@,
            match inferred {
                Some(u) => label + " は未設定です。観測上は "@ + u
                    + " を使う見込みですが、設定に明示しておく方が安全です"@,
                None => label
                    + " は未設定です。base_url から推定できない場合は設定に明示してください"@,
            },
        ),
    }
}

/// Adds the finding for an optional login URL.
pub fn push_optional_url_check(
    checks: &mut Vec<DoctorCheck>,
    key: &str,
    label: &str,
    configured_url: &Option<String>,
    inferred_url: &Option<String>,
)
    ensures
        checks_view(final(checks)@) == checks_view(old(checks)@).push(
            {
                let f = optional_url_check(label@, opt_view(*configured_url), opt_view(*inferred_url));
                (key@, f.0, f.1)
            },
        ),
{
    let mut d = chars_of(label);
    match configured_url {
        Some(url) => match parse_url(url.as_str()) {
            Ok(_) => {
                push_str(&mut d, " を確認しました: ");
                push_str(&mut d, url.as_str());
                match inferred_url {
                    Some(i) => if !crate::text::str_eq(i.as_str(), url.as_str()) {
                        push_str(&mut d, " (推定値: ");
                        push_str(&mut d, i.as_str());
                        push_str(&mut d, ")");
                    },
                    None => {},
                }
                push_check(checks, key, 0, d);
            },
            Err(e) => {
                push_str(&mut d, " を解釈できません: ");
                push_str(&mut d, e.as_str());
                push_check(checks, key, 2, d);
            },
        },
        None => {
            match inferred_url {
                Some(u) => {
                    push_str(&mut d, " は未設定です。観測上は ");
                    push_str(&mut d, u.as_str());
                    push_str(&mut d, " を使う見込みですが、設定に明示しておく方が安全です");
                },
                None => {
                    push_str(
                        &mut d,
                        " は未設定です。base_url から推定できない場合は設定に明示してください",
                    );
                },
            }
            push_check(checks, key, 1, d);
        },
    }
}

// ---------------------------------------------------------------------
// The report
// ---------------------------------------------------------------------
/// A finding under a key.
pub open spec fn keyed(key: Seq<char>, f: (Seq<char>, Seq<char>)) -> CheckView {
    (key, f.0, f.1)
}

/// The finding for the base URL: it must parse, and should end in `/o/ag.cgi`.
pub open spec fn base_url_check(base: Seq<char>) -> (Seq<char>, Seq<char>) {
    match url_parts_of(base) {
        Ok(parts) => if ends_with(parts.2, "/o/ag.cgi"@) {
            ("ok"@, "対象 URL を確認しました: "@ + base)
        } else {
            ("warn"@, "URL は解釈できましたが、末尾が `/o/ag.cgi` ではありません: "@ + base)
        },
        Err(e) => ("error"@, "URL を解釈できません: "@ + e),
    }
}

pub open spec fn html_contract_text() -> Seq<char> {
    "cybozu-html バックエンドは `events list`、通常予定の `events add` / `events clone`、通常予定と繰り返し予定の `events update` / `events delete` まで確認済みです。残りの拡張は参加者・設備・複数日・繰り返し clone です。"@
}

/// The findings for a Cybozu section, in order.
pub open spec fn cybozu_checks(c: CybozuHtmlConfig, env: EnvSnapshot) -> Seq<CheckView> {
    seq![
        keyed("base-url"@, base_url_check(c.base_url@)),
        keyed(
            "office-login-url"@,
            optional_url_check(
                "Cybozu ログイン画面 URL"@,
                opt_view(c.office_login_url),
                url_with_path_of(c.base_url@, "/login"@),
            ),
        ),
        keyed(
            "office-login-post-url"@,
            optional_url_check(
                "Cybozu ログイン POST 先"@,
                opt_view(c.office_login_post_url),
                url_with_path_of(c.base_url@, "/api/auth/redirect.do"@),
            ),
        ),
        (
            "session-cache"@,
            "ok"@,
            "セッション Cookie キャッシュを使用します: "@ + session_path_spec(c, env),
        ),
        keyed(
            "basic-auth"@,
            env_pair_check(
                "Basic 認証"@,
                opt_view(c.basic_username_env),
                opt_view(c.basic_password_env),
                opt_view(c.basic_username),
                opt_view(c.basic_password),
                env,
            ),
        ),
        keyed(
            "office-login"@,
            env_pair_check(
                "Cybozu ログイン"@,
                opt_view(c.office_username_env),
                opt_view(c.office_password_env),
                opt_view(c.office_username),
                opt_view(c.office_password),
                env,
            ),
        ),
        ("html-contract"@, "warn"@, html_contract_text()),
    ]
}

/// All findings for a configuration read from `config_path`, in order.
pub open spec fn report_checks(config: AppConfig, config_path: Seq<char>, env: EnvSnapshot) -> Seq<
    CheckView,
> {
    let first = seq![("config"@, "ok"@, "設定ファイルを読み込みました: "@ + config_path)];
    match config.backend {
        BackendKind::Fixture => first.push(
            match config.fixture {
                Some(f) => ("backend"@, "ok"@, "fixture バックエンドを使用します: "@ + f.path@),
                None => ("backend"@, "error"@, "[fixture] セクションがありません"@),
            },
        ),
        BackendKind::CybozuHtml => match config.cybozu_html {
            Some(c) => first + cybozu_checks(c, env),
            None => first.push(("backend"@, "error"@, "[cybozu-html] セクションがありません"@)),
        },
    }
}

/// The next steps: three for a Cybozu section, none otherwise.
pub open spec fn report_next_steps(config: AppConfig) -> Seq<Seq<char>> {
    if config.backend == BackendKind::CybozuHtml && config.cybozu_html is Some {
        seq![
            "docs/03-development-flow.md の Phase 1 に従って画面契約を採取する"@,
            "採取したフォーム項目・hidden 値・遷移を docs/01-research.md に追記する"@,
            "採取結果をもとに src/backend/cybozu_html.rs の add/update/clone/delete 拡張を埋める"@,
        ]
    } else {
        Seq::empty()
    }
}

/// The report a configuration gets.
pub open spec fn report_matches(r: DoctorReport, config: AppConfig, config_path: Seq<char>, env: EnvSnapshot) -> bool {
    &&& r.config_path@ == config_path
    &&& r.backend@ == backend_name(config.backend)
    &&& checks_view(r.checks@) == report_checks(config, config_path, env)
    &&& string_views(r.next_steps@) == report_next_steps(config)
    &&& r.ready == all_clear(report_checks(config, config_path, env))
}

fn prefixed(prefix: &str, text: &str) -> (r: Vec<char>)
    ensures
        r@ == prefix@ + text@,
{
    let mut d = chars_of(prefix);
    push_str(&mut d, text);
    d
}

fn base_url_finding(checks: &mut Vec<DoctorCheck>, base: &str)
    ensures
        checks_view(final(checks)@) == checks_view(old(checks)@).push(
            keyed("base-url"@, base_url_check(base@)),
        ),
{
    match parse_url(base) {
        Ok(parts) => {
            let path = chars_of(parts.path.as_str());
            let tail = chars_of("/o/ag.cgi");
            if crate::text::ends_with_exec(path.as_slice(), tail.as_slice()) {
                push_check(checks, "base-url", 0, prefixed("対象 URL を確認しました: ", base));
            } else {
                push_check(
                    checks,
                    "base-url",
                    1,
                    prefixed("URL は解釈できましたが、末尾が `/o/ag.cgi` ではありません: ", base),
                );
            }
        },
        Err(e) => push_check(
            checks,
            "base-url",
            2,
            prefixed("URL を解釈できません: ", e.as_str()),
        ),
    }
}

fn cybozu_findings(checks: &mut Vec<DoctorCheck>, c: &CybozuHtmlConfig, env: &EnvSnapshot)
    ensures
        checks_view(final(checks)@) == checks_view(old(checks)@) + cybozu_checks(*c, *env),
{
    let ghost start = checks_view(checks@);
    base_url_finding(checks, c.base_url.as_str());
    let inferred_login = url_with_path(c.base_url.as_str(), "/login");
    push_optional_url_check(
        checks,
        "office-login-url",
        "Cybozu ログイン画面 URL",
        &c.office_login_url,
        &inferred_login,
    );
    let inferred_post = url_with_path(c.base_url.as_str(), "/api/auth/redirect.do");
    push_optional_url_check(
        checks,
        "office-login-post-url",
        "Cybozu ログイン POST 先",
        &c.office_login_post_url,
        &inferred_post,
    );
    let cache = c.session_cache_path(env);
    push_check(
        checks,
        "session-cache",
        0,
        prefixed("セッション Cookie キャッシュを使用します: ", cache.as_str()),
    );
    push_env_pair_checks(
        checks,
        "basic-auth",
        "Basic 認証",
        &c.basic_username_env,
        &c.basic_password_env,
        &c.basic_username,
        &c.basic_password,
        env,
    );
    push_env_pair_checks(
        checks,
        "office-login",
        "Cybozu ログイン",
        &c.office_username_env,
        &c.office_password_env,
        &c.office_username,
        &c.office_password,
        env,
    );
    let contract = chars_of(
        "cybozu-html バックエンドは `events list`、通常予定の `events add` / `events clone`、通常予定と繰り返し予定の `events update` / `events delete` まで確認済みです。残りの拡張は参加者・設備・複数日・繰り返し clone です。",
    );
    push_check(checks, "html-contract", 1, contract);
    assert(checks_view(checks@) =~= start + cybozu_checks(*c, *env));
}

/// The `doctor` report for a configuration read from `config_path`.
pub fn generate_report(config: &AppConfig, config_path: &str, env: &EnvSnapshot) -> (r: DoctorReport)
    ensures
        report_matches(r, *config, config_path@, *env),
{
    let mut checks: Vec<DoctorCheck> = Vec::new();
    let mut next_steps: Vec<String> = Vec::new();
    assert(checks_view(checks@) =~= Seq::<CheckView>::empty());
    push_check(&mut checks, "config", 0, prefixed("設定ファイルを読み込みました: ", config_path));
    let ghost first = checks_view(checks@);
    assert(first =~= seq![("config"@, "ok"@, "設定ファイルを読み込みました: "@ + config_path@)]);
    match config.backend {
        BackendKind::Fixture => match &config.fixture {
            Some(f) => push_check(
                &mut checks,
                "backend",
                0,
                prefixed("fixture バックエンドを使用します: ", f.path.as_str()),
            ),
            None => push_check(&mut checks, "backend", 2, chars_of("[fixture] セクションがありません")),
        },
        BackendKind::CybozuHtml => match &config.cybozu_html {
            Some(c) => {
                cybozu_findings(&mut checks, c, env);
                next_steps.push(
                    "docs/03-development-flow.md の Phase 1 に従って画面契約を採取する".to_string(),
                );
                next_steps.push(
                    "採取したフォーム項目・hidden 値・遷移を docs/01-research.md に追記する".to_string(),
                );
                next_steps.push(
                    "採取結果をもとに src/backend/cybozu_html.rs の add/update/clone/delete 拡張を埋める".to_string(),
                );
            },
            None => push_check(
                &mut checks,
                "backend",
                2,
                chars_of("[cybozu-html] セクションがありません"),
            ),
        },
    }
    assert(string_views(next_steps@) =~= report_next_steps(*config));
    let name = config.backend.as_str();
    DoctorReport::new(config_path, name, checks, next_steps)
}

impl AppConfig {
    /// The `doctor` report for this configuration, read from `config_path`.
    pub fn doctor_report(&self, config_path: &str, env: &EnvSnapshot) -> (r: DoctorReport)
        ensures
            report_matches(r, *self, config_path@, *env),
    {
        generate_report(self, config_path, env)
    }
}

/// A configuration for the fixture backend that has its `[fixture]`
/// section is ready: none of its findings is an error.
pub proof fn law_fixture_config_is_ready(config: AppConfig, config_path: Seq<char>, env: EnvSnapshot)
    requires
        config.backend == BackendKind::Fixture,
        config.fixture is Some,
    ensures
        all_clear(report_checks(config, config_path, env)),
{
    let c = report_checks(config, config_path, env);
    assert(c.len() == 2);
    assert(c[0].1 == "ok"@);
    assert(c[1].1 == "ok"@);
    assert("ok"@ != "error"@) by {
        reveal_strlit("ok");
        reveal_strlit("error");
    }
}

/// A configuration that names a backend without its section is not ready.
pub proof fn law_missing_section_is_not_ready(config: AppConfig, config_path: Seq<char>, env: EnvSnapshot)
    requires
        (config.backend == BackendKind::Fixture && config.fixture is None) || (config.backend
            == BackendKind::CybozuHtml && config.cybozu_html is None),
    ensures
        !all_clear(report_checks(config, config_path, env)),
{
    let c = report_checks(config, config_path, env);
    assert(c[1].1 == "error"@);
}

} // verus!
