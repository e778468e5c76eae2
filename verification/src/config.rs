//! The configuration file's model: which backend, where its data lives and
//! how the Cybozu credentials are found.
use vstd::prelude::*;
use crate::text::{
    chars_of, digit_char, digit_char_exec, join, join_chars, push_all, push_str, split_chars,
    split_on, starts_with, str_eq, string_of, views,
};

verus! {

/// The kind of calendar backend.
#[derive(Clone, Copy, Debug, PartialEq, Eq, Structural)]
pub enum BackendKind {
    Fixture,
    CybozuHtml,
}

/// The configuration name of a backend kind.
pub open spec fn backend_name(k: BackendKind) -> Seq<char> {
    match k {
        BackendKind::Fixture => "fixture"@,
        BackendKind::CybozuHtml => "cybozu-html"@,
    }
}

impl BackendKind {
    /// `fixture` or `cybozu-html`.
    pub fn as_str(&self) -> (r: &'static str)
        ensures
            r@ == backend_name(*self),
    {
        match self {
            BackendKind::Fixture => "fixture",
            BackendKind::CybozuHtml => "cybozu-html",
        }
    }
}

/// The local JSON file that the fixture backend keeps its events in.
#[derive(Clone, Debug)]
pub struct FixtureConfig {
    pub path: String,
}

/// Where the Cybozu Office instance is and how to log in to it.
#[derive(Clone, Debug)]
pub struct CybozuHtmlConfig {
    pub base_url: String,
    pub office_login_url: Option<String>,
    pub office_login_post_url: Option<String>,
    pub session_cache_path: Option<String>,
    pub basic_username_env: Option<String>,
    pub basic_password_env: Option<String>,
    pub basic_username: Option<String>,
    pub basic_password: Option<String>,
    pub office_username_env: Option<String>,
    pub office_password_env: Option<String>,
    pub office_username: Option<String>,
    pub office_password: Option<String>,
    pub user_agent: Option<String>,
}

/// The whole configuration file.
#[derive(Clone, Debug)]
pub struct AppConfig {
    pub backend: BackendKind,
    pub fixture: Option<FixtureConfig>,
    pub cybozu_html: Option<CybozuHtmlConfig>,
    /// Where listings are cached; the default lies under the state directory.
    pub events_cache_path: Option<String>,
    /// The language model that turns requests into plans.
    pub ollama: Option<OllamaConfig>,
}

/// Where the Ollama server is and which model it runs.
#[derive(Clone, Debug)]
pub struct OllamaConfig {
    pub base_url: Option<String>,
    pub model: Option<String>,
}

/// The Ollama server used where none is configured.
pub open spec fn default_ollama_url() -> Seq<char> {
    "http://localhost:11434"@
}

/// The model used where none is configured.
pub open spec fn default_ollama_model() -> Seq<char> {
    "qwen2.5:7b"@
}

impl OllamaConfig {
    /// No server or model configured.
    pub fn unset() -> (r: OllamaConfig)
        ensures
            r.base_url is None && r.model is None,
    {
        OllamaConfig { base_url: None, model: None }
    }

    /// The configured server, else the local default.
    pub fn base_url(&self) -> (r: String)
        ensures
            r@ == match self.base_url {
                Some(u) => u@,
                None => default_ollama_url(),
            },
    {
        match &self.base_url {
            Some(u) => u.clone(),
            None => "http://localhost:11434".to_string(),
        }
    }

    /// The configured model, else the default one.
    pub fn model(&self) -> (r: String)
        ensures
            r@ == match self.model {
                Some(m) => m@,
                None => default_ollama_model(),
            },
    {
        match &self.model {
            Some(m) => m.clone(),
            None => "qwen2.5:7b".to_string(),
        }
    }
}

/// A configuration and the file it was read from.
#[derive(Debug)]
pub struct LoadedConfig {
    pub path: String,
    pub config: AppConfig,
}

/// Where a user name and password were taken from.
#[derive(Clone, Debug)]
pub enum CredentialSource {
    Env { username_env: String, password_env: String },
    Inline,
}

/// A user name and password.
#[derive(Clone, Debug)]
pub struct CredentialPair {
    pub username: String,
    pub password: String,
    pub source: CredentialSource,
}

/// A source as plain values: the two variable names, or `None` for inline.
pub open spec fn source_view(s: CredentialSource) -> Option<(Seq<char>, Seq<char>)> {
    match s {
        CredentialSource::Env { username_env, password_env } => Some(
            (username_env@, password_env@),
        ),
        CredentialSource::Inline => None,
    }
}

/// A credential pair as plain values.
pub open spec fn pair_view(p: CredentialPair) -> (Seq<char>, Seq<char>, Option<(Seq<char>, Seq<char>)>) {
    (p.username@, p.password@, source_view(p.source))
}

impl PartialEq for CredentialSource {
    fn eq(&self, other: &CredentialSource) -> (r: bool) {
        match (self, other) {
            (
                CredentialSource::Env { username_env: a, password_env: b },
                CredentialSource::Env { username_env: c, password_env: d },
            ) => str_eq(a.as_str(), c.as_str()) && str_eq(b.as_str(), d.as_str()),
            (CredentialSource::Inline, CredentialSource::Inline) => true,
            _ => false,
        }
    }
}

impl vstd::std_specs::cmp::PartialEqSpecImpl for CredentialSource {
    open spec fn obeys_eq_spec() -> bool {
        true
    }

    open spec fn eq_spec(&self, other: &CredentialSource) -> bool {
        source_view(*self) == source_view(*other)
    }
}

impl PartialEq for CredentialPair {
    fn eq(&self, other: &CredentialPair) -> (r: bool) {
        str_eq(self.username.as_str(), other.username.as_str()) && str_eq(
            self.password.as_str(),
            other.password.as_str(),
        ) && self.source.eq(&other.source)
    }
}

impl vstd::std_specs::cmp::PartialEqSpecImpl for CredentialPair {
    open spec fn obeys_eq_spec() -> bool {
        true
    }

    open spec fn eq_spec(&self, other: &CredentialPair) -> bool {
        pair_view(*self) == pair_view(*other)
    }
}

// ---------------------------------------------------------------------
// The process environment, as read once by the caller
// ---------------------------------------------------------------------
/// One environment variable: its value (converted lossily where it is not
/// Unicode) and whether it was valid Unicode.
#[derive(Clone, Debug)]
pub struct EnvVar {
    pub name: String,
    pub value: String,
    pub unicode: bool,
}

/// The environment variables and working directory that configuration
/// lookups consult.
#[derive(Clone, Debug)]
pub struct EnvSnapshot {
    pub vars: Vec<EnvVar>,
    pub current_dir: Option<String>,
}

/// The first variable of the name.
pub open spec fn env_entry(vars: Seq<EnvVar>, name: Seq<char>) -> Option<EnvVar>
    decreases vars.len(),
{
    if vars.len() == 0 {
        None
    } else if vars[0].name@ == name {
        Some(vars[0])
    } else {
        env_entry(vars.drop_first(), name)
    }
}

/// The variable is set (as `std::env::var_os(..).is_some()`).
pub open spec fn env_is_set(vars: Seq<EnvVar>, name: Seq<char>) -> bool {
    env_entry(vars, name) is Some
}

/// The variable's value where it is set and Unicode (as `std::env::var(..).ok()`).
pub open spec fn env_value(vars: Seq<EnvVar>, name: Seq<char>) -> Option<Seq<char>> {
    match env_entry(vars, name) {
        Some(v) => if v.unicode {
            Some(v.value@)
        } else {
            None
        },
        None => None,
    }
}

/// The variable's value as a path, where it is set.
pub open spec fn env_path(vars: Seq<EnvVar>, name: Seq<char>) -> Option<Seq<char>> {
    match env_entry(vars, name) {
        Some(v) => Some(v.value@),
        None => None,
    }
}

impl EnvSnapshot {
    /// The index of the first variable of the name.
    fn position(&self, name: &str) -> (r: Option<usize>)
        ensures
            match r {
                Some(k) => k < self.vars@.len() && env_entry(self.vars@, name@) == Some(
                    self.vars@[k as int],
                ),
                None => env_entry(self.vars@, name@) is None,
            },
    {
        let mut i: usize = 0;
        assert(self.vars@.skip(0) =~= self.vars@);
        while i < self.vars.len()
            invariant
                i <= self.vars@.len(),
                env_entry(self.vars@, name@) == env_entry(self.vars@.skip(i as int), name@),
            decreases self.vars.len() - i,
        {
            proof {
                assert(self.vars@.skip(i as int).drop_first() =~= self.vars@.skip(i + 1));
                assert(self.vars@.skip(i as int)[0] == self.vars@[i as int]);
            }
            if str_eq(self.vars[i].name.as_str(), name) {
                return Some(i);
            }
            i = i + 1;
        }
        None
    }

    /// Whether the variable is set.
    pub fn is_set(&self, name: &str) -> (r: bool)
        ensures
            r == env_is_set(self.vars@, name@),
    {
        self.position(name).is_some()
    }

    /// The variable's value where it is set and Unicode.
    pub fn value(&self, name: &str) -> (r: Option<String>)
        ensures
            match r {
                Some(v) => env_value(self.vars@, name@) == Some(v@),
                None => env_value(self.vars@, name@) is None,
            },
    {
        match self.position(name) {
            Some(k) => if self.vars[k].unicode {
                Some(self.vars[k].value.clone())
            } else {
                None
            },
            None => None,
        }
    }

    /// The variable's value as a path, where it is set.
    pub fn path(&self, name: &str) -> (r: Option<String>)
        ensures
            match r {
                Some(v) => env_path(self.vars@, name@) == Some(v@),
                None => env_path(self.vars@, name@) is None,
            },
    {
        match self.position(name) {
            Some(k) => Some(self.vars[k].value.clone()),
            None => None,
        }
    }
}

// ---------------------------------------------------------------------
// Credentials
// ---------------------------------------------------------------------
/// A credential as plain values.
pub type CredView = (Seq<char>, Seq<char>, Option<(Seq<char>, Seq<char>)>);

/// The refusal of a login without Cybozu Office credentials.
pub open spec fn missing_office_credentials_message() -> Seq<char> {
    "Cybozu ログイン資格情報がありません"@
}

/// The view of an optional string.
pub open spec fn opt_view(s: Option<String>) -> Option<Seq<char>> {
    match s {
        Some(v) => Some(v@),
        None => None,
    }
}

pub open spec fn env_half_message(username_env: Seq<char>, password_env: Seq<char>) -> Seq<char> {
    "環境変数 "@ + username_env + " / "@ + password_env + " はどちらか一方しか設定されていません"@
}

pub open spec fn inline_half_message() -> Seq<char> {
    "設定ファイル内の資格情報はユーザー名とパスワードを両方指定してください"@
}

pub open spec fn env_names_half_message() -> Seq<char> {
    "環境変数名はユーザー名とパスワードを両方指定してください"@
}

/// The inline pair where both halves are given.
pub open spec fn inline_pair(u: Option<Seq<char>>, p: Option<Seq<char>>) -> Option<CredView> {
    match (u, p) {
        (Some(u), Some(p)) => Some((u, p, None)),
        _ => None,
    }
}

/// The inline pair alone: both halves, neither, or an error for one.
pub open spec fn inline_only(u: Option<Seq<char>>, p: Option<Seq<char>>) -> Result<
    Option<CredView>,
    Seq<char>,
> {
    match (u, p) {
        (Some(u), Some(p)) => Ok(Some((u, p, None))),
        (None, None) => Ok(None),
        _ => Err(inline_half_message()),
    }
}

/// Which credentials a pair of variable names and a pair of inline values
/// give: the variables when both are set; the inline values where the
/// variables are unusable and both inline values are given; nothing when
/// nothing is configured; an error where only one half of a pair is.
pub open spec fn credential_spec(
    username_env: Option<Seq<char>>,
    password_env: Option<Seq<char>>,
    inline_username: Option<Seq<char>>,
    inline_password: Option<Seq<char>>,
    vars: Seq<EnvVar>,
) -> Result<Option<CredView>, Seq<char>> {
    match (username_env, password_env) {
        (Some(ue), Some(pe)) => match (env_value(vars, ue), env_value(vars, pe)) {
            (Some(u), Some(p)) => Ok(Some((u, p, Some((ue, pe))))),
            (None, None) => inline_only(inline_username, inline_password),
            _ => match inline_pair(inline_username, inline_password) {
                Some(c) => Ok(Some(c)),
                None => Err(env_half_message(ue, pe)),
            },
        },
        (None, None) => inline_only(inline_username, inline_password),
        _ => match inline_pair(inline_username, inline_password) {
            Some(c) => Ok(Some(c)),
            None => Err(env_names_half_message()),
        },
    }
}

/// The result of a credential lookup as plain values.
pub open spec fn credential_result_view(r: Result<Option<CredentialPair>, String>) -> Result<
    Option<CredView>,
    Seq<char>,
> {
    match r {
        Ok(Some(p)) => Ok(Some(pair_view(p))),
        Ok(None) => Ok(None),
        Err(m) => Err(m@),
    }
}

fn inline_credential(u: &String, p: &String) -> (r: CredentialPair)
    ensures
        pair_view(r) == (u@, p@, None::<(Seq<char>, Seq<char>)>),
{
    CredentialPair { username: u.clone(), password: p.clone(), source: CredentialSource::Inline }
}

fn inline_only_exec(u: &Option<String>, p: &Option<String>) -> (r: Result<
    Option<CredentialPair>,
    String,
>)
    ensures
        credential_result_view(r) == inline_only(opt_view(*u), opt_view(*p)),
{
    match (u, p) {
        (Some(u), Some(p)) => Ok(Some(inline_credential(u, p))),
        (None, None) => Ok(None),
        _ => Err("設定ファイル内の資格情報はユーザー名とパスワードを両方指定してください".to_string()),
    }
}

/// Finds a user name and password: from the two environment variables
/// when both are set, else from the inline values.
pub fn resolve_credential_pair(
    username_env: &Option<String>,
    password_env: &Option<String>,
    inline_username: &Option<String>,
    inline_password: &Option<String>,
    env: &EnvSnapshot,
) -> (r: Result<Option<CredentialPair>, String>)
    ensures
        credential_result_view(r) == credential_spec(
            opt_view(*username_env),
            opt_view(*password_env),
            opt_view(*inline_username),
            opt_view(*inline_password),
            env.vars@,
        ),
{
    match (username_env, password_env) {
        (Some(ue), Some(pe)) => {
            let u = env.value(ue.as_str());
            let p = env.value(pe.as_str());
            match (u, p) {
                (Some(u), Some(p)) => Ok(
                    Some(
                        CredentialPair {
                            username: u,
                            password: p,
                            source: CredentialSource::Env {
                                username_env: ue.clone(),
                                password_env: pe.clone(),
                            },
                        },
                    ),
                ),
                (None, None) => inline_only_exec(inline_username, inline_password),
                _ => match (inline_username, inline_password) {
                    (Some(iu), Some(ip)) => Ok(Some(inline_credential(iu, ip))),
                    _ => {
                        let mut m = chars_of("環境変数 ");
                        push_str(&mut m, ue.as_str());
                        push_str(&mut m, " / ");
                        push_str(&mut m, pe.as_str());
                        push_str(&mut m, " はどちらか一方しか設定されていません");
                        Err(string_of(m.as_slice()))
                    },
                },
            }
        },
        (None, None) => inline_only_exec(inline_username, inline_password),
        _ => match (inline_username, inline_password) {
            (Some(iu), Some(ip)) => Ok(Some(inline_credential(iu, ip))),
            _ => Err("環境変数名はユーザー名とパスワードを両方指定してください".to_string()),
        },
    }
}

impl CybozuHtmlConfig {
    /// The Basic authentication credentials.
    pub fn resolve_basic_credentials(&self, env: &EnvSnapshot) -> (r: Result<
        Option<CredentialPair>,
        String,
    >)
        ensures
            credential_result_view(r) == credential_spec(
                opt_view(self.basic_username_env),
                opt_view(self.basic_password_env),
                opt_view(self.basic_username),
                opt_view(self.basic_password),
                env.vars@,
            ),
    {
        resolve_credential_pair(
            &self.basic_username_env,
            &self.basic_password_env,
            &self.basic_username,
            &self.basic_password,
            env,
        )
    }

    /// The Cybozu Office login credentials the login probe needs: refused
    /// where they cannot be resolved, or where none are configured.
    pub fn require_office_credentials(&self, env: &EnvSnapshot) -> (r: Result<CredentialPair, String>)
        ensures
            match credential_spec(
                opt_view(self.office_username_env),
                opt_view(self.office_password_env),
                opt_view(self.office_username),
                opt_view(self.office_password),
                env.vars@,
            ) {
                Ok(Some(v)) => r matches Ok(p) && pair_view(p) == v,
                Ok(None) => r matches Err(m) && m@ == missing_office_credentials_message(),
                Err(e) => r matches Err(m) && m@ == e,
            },
    {
        match self.resolve_office_credentials(env) {
            Ok(Some(p)) => Ok(p),
            Ok(None) => Err("Cybozu ログイン資格情報がありません".to_string()),
            Err(e) => Err(e),
        }
    }

    /// The Cybozu Office login credentials.
    pub fn resolve_office_credentials(&self, env: &EnvSnapshot) -> (r: Result<
        Option<CredentialPair>,
        String,
    >)
        ensures
            credential_result_view(r) == credential_spec(
                opt_view(self.office_username_env),
                opt_view(self.office_password_env),
                opt_view(self.office_username),
                opt_view(self.office_password),
                env.vars@,
            ),
    {
        resolve_credential_pair(
            &self.office_username_env,
            &self.office_password_env,
            &self.office_username,
            &self.office_password,
            env,
        )
    }
}

// ---------------------------------------------------------------------
// Paths
// ---------------------------------------------------------------------
/// `base` joined with `rel` as `PathBuf::push` does on Unix: an absolute
/// `rel` replaces `base`; otherwise a `/` is put between them where `base`
/// is not empty and does not end with one.
pub open spec fn join_path(base: Seq<char>, rel: Seq<char>) -> Seq<char> {
    if starts_with(rel, "/"@) || base.len() == 0 {
        rel
    } else if base.last() == '/' {
        base + rel
    } else {
        base + "/"@ + rel
    }
}

/// `/` for an absolute path, else nothing.
pub open spec fn root_prefix(p: Seq<char>) -> Seq<char> {
    if starts_with(p, "/"@) {
        "/"@
    } else {
        Seq::empty()
    }
}

/// A piece between slashes that names no component (empty, or `.`).
pub open spec fn no_component(s: Seq<char>) -> bool {
    s.len() == 0 || s == "."@
}

/// The components of the pieces, `..` resolved against what precedes it
/// (nothing goes above the first component).
pub open spec fn fold_segments(segs: Seq<Seq<char>>) -> Seq<Seq<char>>
    decreases segs.len(),
{
    if segs.len() == 0 {
        Seq::empty()
    } else {
        let acc = fold_segments(segs.drop_last());
        let s = segs.last();
        if no_component(s) {
            acc
        } else if s == ".."@ {
            if acc.len() > 0 {
                acc.drop_last()
            } else {
                acc
            }
        } else {
            acc.push(s)
        }
    }
}

/// The components of the pieces, `..` kept.
pub open spec fn kept_segments(segs: Seq<Seq<char>>) -> Seq<Seq<char>>
    decreases segs.len(),
{
    if segs.len() == 0 {
        Seq::empty()
    } else {
        let acc = kept_segments(segs.drop_last());
        if no_component(segs.last()) {
            acc
        } else {
            acc.push(segs.last())
        }
    }
}

/// A path with `.` dropped and `..` applied to the component before it.
pub open spec fn normalize_path_spec(p: Seq<char>) -> Seq<char> {
    root_prefix(p) + join(fold_segments(split_on(p, '/')), "/"@)
}

/// The directory a relative path in a file is taken against: the file's
/// parent, or `.` for a path with no parent.
pub open spec fn base_dir_spec(p: Seq<char>) -> Seq<char> {
    let k = kept_segments(split_on(p, '/'));
    if k.len() == 0 {
        "."@
    } else {
        root_prefix(p) + join(k.drop_last(), "/"@)
    }
}

/// A path written in the configuration file at `config_path`: kept where
/// absolute, else taken against the file's directory and normalized.
pub open spec fn resolve_against(config_path: Seq<char>, p: Seq<char>) -> Seq<char> {
    if starts_with(p, "/"@) {
        p
    } else {
        normalize_path_spec(join_path(base_dir_spec(config_path), p))
    }
}

/// `base` joined with `rel`.
pub fn join_path_exec(base: &str, rel: &str) -> (r: String)
    ensures
        r@ == join_path(base@, rel@),
{
    let b = chars_of(base);
    let rl = chars_of(rel);
    let slash = chars_of("/");
    proof {
        reveal_strlit("/");
    }
    if crate::text::matches_at_exec(rl.as_slice(), 0, slash.as_slice()) || b.len() == 0 {
        return rel.to_string();
    }
    let mut out = b.clone();
    assert(out@ == b@);
    if b[b.len() - 1] != '/' {
        out.push('/');
    }
    push_all(&mut out, rl.as_slice());
    proof {
        if b@.last() != '/' {
            assert(out@ =~= base@ + "/"@ + rel@);
        } else {
            assert(out@ =~= base@ + rel@);
        }
    }
    string_of(out.as_slice())
}

fn is_dot(s: &Vec<char>) -> (r: bool)
    ensures
        r == (s@ == "."@),
{
    proof {
        reveal_strlit(".");
    }
    if s.len() == 1 && s[0] == '.' {
        assert(s@ =~= "."@);
        true
    } else {
        false
    }
}

fn is_dot_dot(s: &Vec<char>) -> (r: bool)
    ensures
        r == (s@ == ".."@),
{
    proof {
        reveal_strlit("..");
    }
    if s.len() == 2 && s[0] == '.' && s[1] == '.' {
        assert(s@ =~= ".."@);
        true
    } else {
        false
    }
}

/// The pieces of a path with `.` dropped, and `..` either applied or kept.
fn segments_of(parts: &Vec<Vec<char>>, apply_parent: bool) -> (r: Vec<Vec<char>>)
    ensures
        apply_parent ==> views(r@) == fold_segments(views(parts@)),
        !apply_parent ==> views(r@) == kept_segments(views(parts@)),
{
    let mut stack: Vec<Vec<char>> = Vec::new();
    let mut i: usize = 0;
    while i < parts.len()
        invariant
            i <= parts@.len(),
            apply_parent ==> views(stack@) == fold_segments(views(parts@).take(i as int)),
            !apply_parent ==> views(stack@) == kept_segments(views(parts@).take(i as int)),
        decreases parts.len() - i,
    {
        let ghost before = stack@;
        proof {
            assert(views(parts@).take(i + 1).drop_last() =~= views(parts@).take(i as int));
            assert(views(parts@).take(i + 1).last() == parts@[i as int]@);
        }
        let seg = &parts[i];
        if seg.len() == 0 || is_dot(seg) {
        } else if apply_parent && is_dot_dot(seg) {
            if stack.len() > 0 {
                stack.pop();
                assert(views(stack@) =~= views(before).drop_last());
            }
        } else {
            let c = crate::text::copy_chars(seg);
            stack.push(c);
            proof {
                crate::text::lemma_views_push(before, c);
            }
        }
        i = i + 1;
    }
    assert(views(parts@).take(parts@.len() as int) =~= views(parts@));
    stack
}

/// The path with `.` dropped and `..` applied, as a component walk that
/// pushes names and pops for `..`.
pub fn normalize_path(path: &str) -> (r: String)
    ensures
        r@ == normalize_path_spec(path@),
{
    let p = chars_of(path);
    let parts = split_chars(p.as_slice(), '/');
    let segs = segments_of(&parts, true);
    let slash = chars_of("/");
    proof {
        reveal_strlit("/");
    }
    let mut out: Vec<char> = Vec::new();
    if crate::text::matches_at_exec(p.as_slice(), 0, slash.as_slice()) {
        out.push('/');
        assert(out@ =~= "/"@);
    } else {
        assert(out@ =~= Seq::<char>::empty());
    }
    let body = join_chars(segs.as_slice(), slash.as_slice());
    push_all(&mut out, body.as_slice());
    string_of(out.as_slice())
}

/// The directory that relative paths in the file `path` are taken against.
fn base_dir(path: &str) -> (r: String)
    ensures
        r@ == base_dir_spec(path@),
{
    let p = chars_of(path);
    let parts = split_chars(p.as_slice(), '/');
    let mut segs = segments_of(&parts, false);
    if segs.len() == 0 {
        return ".".to_string();
    }
    let ghost all = segs@;
    segs.pop();
    assert(views(segs@) =~= views(all).drop_last());
    let slash = chars_of("/");
    proof {
        reveal_strlit("/");
    }
    let mut out: Vec<char> = Vec::new();
    if crate::text::matches_at_exec(p.as_slice(), 0, slash.as_slice()) {
        out.push('/');
        assert(out@ =~= "/"@);
    } else {
        assert(out@ =~= Seq::<char>::empty());
    }
    let body = join_chars(segs.as_slice(), slash.as_slice());
    push_all(&mut out, body.as_slice());
    string_of(out.as_slice())
}

/// A path from the configuration file at `config_path`, resolved.
pub fn resolve_against_exec(config_path: &str, p: &str) -> (r: String)
    ensures
        r@ == resolve_against(config_path@, p@),
{
    if crate::text::str_starts_with(p, "/") {
        return p.to_string();
    }
    let base = base_dir(config_path);
    let joined = join_path_exec(base.as_str(), p);
    normalize_path(joined.as_str())
}

/// The Cybozu section with only its session cache path possibly changed.
pub open spec fn same_but_cache_path(a: CybozuHtmlConfig, b: CybozuHtmlConfig) -> bool {
    &&& a.base_url == b.base_url
    &&& a.office_login_url == b.office_login_url
    &&& a.office_login_post_url == b.office_login_post_url
    &&& a.basic_username_env == b.basic_username_env
    &&& a.basic_password_env == b.basic_password_env
    &&& a.basic_username == b.basic_username
    &&& a.basic_password == b.basic_password
    &&& a.office_username_env == b.office_username_env
    &&& a.office_password_env == b.office_password_env
    &&& a.office_username == b.office_username
    &&& a.office_password == b.office_password
    &&& a.user_agent == b.user_agent
}

/// `after` is `before` with its fixture path and session cache path, where
/// relative, taken against the directory of the file at `config_path`.
pub open spec fn resolved_paths(before: AppConfig, after: AppConfig, config_path: Seq<char>) -> bool {
    &&& after.backend == before.backend
    &&& after.events_cache_path == before.events_cache_path
    &&& after.ollama == before.ollama
    &&& after.fixture is Some <==> before.fixture is Some
    &&& before.fixture matches Some(f) ==> after.fixture->0.path@ == resolve_against(
        config_path,
        f.path@,
    )
    &&& after.cybozu_html is Some <==> before.cybozu_html is Some
    &&& before.cybozu_html matches Some(c) ==> {
        let n = after.cybozu_html->0;
        &&& same_but_cache_path(c, n)
        &&& n.session_cache_path is Some <==> c.session_cache_path is Some
        &&& c.session_cache_path matches Some(p) ==> n.session_cache_path->0@ == resolve_against(
            config_path,
            p@,
        )
    }
}

impl AppConfig {
    /// Takes the fixture path and the session cache path, where relative,
    /// against the directory of the configuration file.
    pub fn resolve_relative_paths(&mut self, config_path: &str)
        ensures
            resolved_paths(*old(self), *final(self), config_path@),
    {
        match &mut self.fixture {
            Some(f) => {
                let resolved = resolve_against_exec(config_path, f.path.as_str());
                f.path = resolved;
            },
            None => {},
        }
        match &mut self.cybozu_html {
            Some(c) => {
                let resolved = match &c.session_cache_path {
                    Some(p) => Some(resolve_against_exec(config_path, p.as_str())),
                    None => None,
                };
                c.session_cache_path = resolved;
            },
            None => {},
        }
    }
}

// ---------------------------------------------------------------------
// Default locations
// ---------------------------------------------------------------------
/// The directory for state files: `$XDG_STATE_HOME`, else
/// `$HOME/.local/state`, else the working directory, else `.`.
pub open spec fn state_base(env: EnvSnapshot) -> Seq<char> {
    match env_path(env.vars@, "XDG_STATE_HOME"@) {
        Some(x) => x,
        None => match env_path(env.vars@, "HOME"@) {
            Some(h) => join_path(join_path(h, ".local"@), "state"@),
            None => match env.current_dir {
                Some(d) => d@,
                None => "."@,
            },
        },
    }
}

/// `cbzcal/session-cookies.json` under the state directory.
pub open spec fn default_session_cache_spec(env: EnvSnapshot) -> Seq<char> {
    join_path(join_path(state_base(env), "cbzcal"@), "session-cookies.json"@)
}

/// The default place of the session cookie cache.
pub fn default_session_cache_path(env: &EnvSnapshot) -> (r: String)
    ensures
        r@ == default_session_cache_spec(*env),
{
    let base = state_dir(env);
    let dir = join_path_exec(base.as_str(), "cbzcal");
    join_path_exec(dir.as_str(), "session-cookies.json")
}

/// The directory for state files.
fn state_dir(env: &EnvSnapshot) -> (r: String)
    ensures
        r@ == state_base(*env),
{
    match env.path("XDG_STATE_HOME") {
        Some(x) => x,
        None => match env.path("HOME") {
            Some(h) => {
                let local = join_path_exec(h.as_str(), ".local");
                join_path_exec(local.as_str(), "state")
            },
            None => match &env.current_dir {
                Some(d) => d.clone(),
                None => ".".to_string(),
            },
        },
    }
}

/// The session cache path of a Cybozu section: the configured one, else
/// the default one.
pub open spec fn session_path_spec(c: CybozuHtmlConfig, env: EnvSnapshot) -> Seq<char> {
    match c.session_cache_path {
        Some(p) => p@,
        None => default_session_cache_spec(env),
    }
}

impl CybozuHtmlConfig {
    /// The configured session cache path, else the default one.
    pub fn session_cache_path(&self, env: &EnvSnapshot) -> (r: String)
        ensures
            r@ == session_path_spec(*self, *env),
    {
        match &self.session_cache_path {
            Some(p) => p.clone(),
            None => default_session_cache_path(env),
        }
    }
}

/// The configuration directory: `$XDG_CONFIG_HOME`, else `$HOME/.config`.
pub open spec fn config_home(env: EnvSnapshot) -> Option<Seq<char>> {
    match env_path(env.vars@, "XDG_CONFIG_HOME"@) {
        Some(x) => Some(x),
        None => match env_path(env.vars@, "HOME"@) {
            Some(h) => Some(join_path(h, ".config"@)),
            None => None,
        },
    }
}

/// Where a configuration file is looked for, in order: `.cbzcal.toml` and
/// `.cbzcal.yml` in the working directory, `cbzcal/config.toml` and
/// `cbzcal/config.yml` in the configuration directory, `.cbzcal.toml` and
/// `.cbzcal.yml` in the home directory.
pub open spec fn search_paths_spec(cwd: Seq<char>, env: EnvSnapshot) -> Seq<Seq<char>> {
    let local = seq![join_path(cwd, ".cbzcal.toml"@), join_path(cwd, ".cbzcal.yml"@)];
    let xdg = match config_home(env) {
        Some(x) => seq![
            join_path(join_path(x, "cbzcal"@), "config.toml"@),
            join_path(join_path(x, "cbzcal"@), "config.yml"@),
        ],
        None => Seq::empty(),
    };
    let home = match env_path(env.vars@, "HOME"@) {
        Some(h) => seq![join_path(h, ".cbzcal.toml"@), join_path(h, ".cbzcal.yml"@)],
        None => Seq::empty(),
    };
    local + xdg + home
}

/// The views of a list of strings.
pub open spec fn string_views(v: Seq<String>) -> Seq<Seq<char>> {
    v.map_values(|s: String| s@)
}

fn push_joined2(out: &mut Vec<String>, dir: &str, a: &str, b: &str)
    ensures
        string_views(final(out)@) == string_views(old(out)@).push(join_path(dir@, a@)).push(
            join_path(dir@, b@),
        ),
{
    let x = join_path_exec(dir, a);
    let y = join_path_exec(dir, b);
    let ghost before = out@;
    out.push(x);
    out.push(y);
    assert(string_views(out@) =~= string_views(before).push(x@).push(y@));
}

/// The places a configuration file is looked for, given the working directory.
pub fn config_search_paths(cwd: &str, env: &EnvSnapshot) -> (r: Vec<String>)
    ensures
        string_views(r@) == search_paths_spec(cwd@, *env),
{
    let mut paths: Vec<String> = Vec::new();
    assert(string_views(paths@) =~= Seq::<Seq<char>>::empty());
    push_joined2(&mut paths, cwd, ".cbzcal.toml", ".cbzcal.yml");
    let ghost after_local = string_views(paths@);
    let xdg = match env.path("XDG_CONFIG_HOME") {
        Some(x) => Some(x),
        None => match env.path("HOME") {
            Some(h) => Some(join_path_exec(h.as_str(), ".config")),
            None => None,
        },
    };
    match xdg {
        Some(x) => {
            let dir = join_path_exec(x.as_str(), "cbzcal");
            push_joined2(&mut paths, dir.as_str(), "config.toml", "config.yml");
        },
        None => {},
    }
    let ghost after_xdg = string_views(paths@);
    match env.path("HOME") {
        Some(h) => push_joined2(&mut paths, h.as_str(), ".cbzcal.toml", ".cbzcal.yml"),
        None => {},
    }
    proof {
        let local = seq![join_path(cwd@, ".cbzcal.toml"@), join_path(cwd@, ".cbzcal.yml"@)];
        assert(after_local =~= local);
        let xs = match config_home(*env) {
            Some(x) => seq![
                join_path(join_path(x, "cbzcal"@), "config.toml"@),
                join_path(join_path(x, "cbzcal"@), "config.yml"@),
            ],
            None => Seq::<Seq<char>>::empty(),
        };
        assert(after_xdg =~= local + xs);
        let hs = match env_path(env.vars@, "HOME"@) {
            Some(h) => seq![join_path(h, ".cbzcal.toml"@), join_path(h, ".cbzcal.yml"@)],
            None => Seq::<Seq<char>>::empty(),
        };
        assert(string_views(paths@) =~= local + xs + hs);
    }
    paths
}

/// The refusal when no candidate exists.
pub open spec fn not_found_message(candidates: Seq<Seq<char>>) -> Seq<char> {
    "設定ファイルが見つかりませんでした。探索先: "@ + join(candidates, ", "@)
        + ". `--config` を指定するか .cbzcal.yml / .cbzcal.toml を作成してください"@
}

/// The first index at which `found` holds.
pub open spec fn first_found(found: Seq<bool>) -> Option<int>
    decreases found.len(),
{
    if found.len() == 0 {
        None
    } else if found.last() {
        match first_found(found.drop_last()) {
            Some(k) => Some(k),
            None => Some(found.len() - 1),
        }
    } else {
        first_found(found.drop_last())
    }
}

/// The first candidate that is a file; `is_file[i]` says whether
/// `candidates[i]` is one.
pub fn choose_config_path(candidates: &Vec<String>, is_file: &Vec<bool>) -> (r: Result<
    String,
    String,
>)
    requires
        candidates.len() == is_file.len(),
    ensures
        match first_found(is_file@) {
            Some(k) => r matches Ok(p) && p@ == candidates@[k]@,
            None => r matches Err(m) && m@ == not_found_message(string_views(candidates@)),
        },
{
    let mut i: usize = 0;
    while i < candidates.len()
        invariant
            i <= candidates.len() == is_file.len(),
            first_found(is_file@.take(i as int)) is None,
        decreases candidates.len() - i,
    {
        proof {
            assert(is_file@.take(i + 1).drop_last() =~= is_file@.take(i as int));
        }
        if is_file[i] {
            proof {
                lemma_first_found_prefix(is_file@, i as int);
            }
            return Ok(candidates[i].clone());
        }
        i = i + 1;
    }
    assert(is_file@.take(i as int) =~= is_file@);
    let mut parts: Vec<Vec<char>> = Vec::new();
    let mut j: usize = 0;
    while j < candidates.len()
        invariant
            j <= candidates.len(),
            views(parts@) == string_views(candidates@).take(j as int),
        decreases candidates.len() - j,
    {
        let c = chars_of(candidates[j].as_str());
        let ghost before = parts@;
        parts.push(c);
        proof {
            crate::text::lemma_views_push(before, c);
            assert(string_views(candidates@).take(j + 1) =~= string_views(candidates@).take(
                j as int,
            ).push(candidates@[j as int]@));
        }
        j = j + 1;
    }
    assert(string_views(candidates@).take(j as int) =~= string_views(candidates@));
    let sep = chars_of(", ");
    let joined = join_chars(parts.as_slice(), sep.as_slice());
    let mut m = chars_of("設定ファイルが見つかりませんでした。探索先: ");
    push_all(&mut m, joined.as_slice());
    push_str(&mut m, ". `--config` を指定するか .cbzcal.yml / .cbzcal.toml を作成してください");
    Err(string_of(m.as_slice()))
}

/// Where nothing before `i` is found and `i` is, `i` is the first found.
proof fn lemma_first_found_prefix(found: Seq<bool>, i: int)
    requires
        0 <= i < found.len(),
        found[i],
        first_found(found.take(i)) is None,
    ensures
        first_found(found) == Some(i),
    decreases found.len(),
{
    if i == found.len() - 1 {
        assert(found.drop_last() =~= found.take(i));
    } else {
        assert(found.drop_last().take(i) =~= found.take(i));
        lemma_first_found_prefix(found.drop_last(), i);
    }
}

// ---------------------------------------------------------------------
// File checks
// ---------------------------------------------------------------------
/// The octal digits of `n`, without leading zeros.
pub open spec fn octal(n: nat) -> Seq<char>
    decreases n,
{
    if n < 8 {
        seq![digit_char(n as int)]
    } else {
        octal(n / 8) + seq![digit_char((n % 8) as int)]
    }
}

fn octal_chars(n: u32) -> (r: Vec<char>)
    ensures
        r@ == octal(n as nat),
    decreases n,
{
    if n < 8 {
        let v = vec![digit_char_exec(n as u64)];
        assert(v@ =~= seq![digit_char(n as int)]);
        v
    } else {
        let mut v = octal_chars(n / 8);
        v.push(digit_char_exec((n % 8) as u64));
        v
    }
}

/// The refusal of a file that others may read or write.
pub open spec fn permission_message(path: Seq<char>, mode: nat) -> Seq<char> {
    "設定ファイル "@ + path + " の権限は 0400 または 0600 である必要があります: 現在 "@ + octal(mode)
}

/// Accepts a configuration file whose permission bits are exactly owner
/// read, or owner read and write.
pub fn check_config_permissions(path: &str, mode: u32) -> (r: Result<(), String>)
    ensures
        r is Ok <==> (mode % 512 == 256 || mode % 512 == 384),
        r matches Err(m) ==> m@ == permission_message(path@, (mode % 512) as nat),
{
    let bits = mode & 0o777;
    assert(mode & 0o777 == mode % 512) by (bit_vector);
    if bits == 0o400 || bits == 0o600 {
        return Ok(());
    }
    let mut m = chars_of("設定ファイル ");
    push_str(&mut m, path);
    push_str(&mut m, " の権限は 0400 または 0600 である必要があります: 現在 ");
    let digits = octal_chars(bits);
    push_all(&mut m, digits.as_slice());
    Err(string_of(m.as_slice()))
}

/// The syntax of a configuration file.
#[derive(Clone, Copy, Debug, PartialEq, Eq, Structural)]
pub enum ConfigFormat {
    Yaml,
    Toml,
}

/// The last component of a path, unless that is `..` or there is none.
pub open spec fn file_name_spec(p: Seq<char>) -> Option<Seq<char>> {
    let k = kept_segments(split_on(p, '/'));
    if k.len() == 0 || k.last() == ".."@ {
        None
    } else {
        Some(k.last())
    }
}

/// The last position of `c` in `s`.
pub open spec fn last_index_of(s: Seq<char>, c: char) -> Option<int>
    decreases s.len(),
{
    if s.len() == 0 {
        None
    } else if s.last() == c {
        Some(s.len() - 1)
    } else {
        last_index_of(s.drop_last(), c)
    }
}

/// The text after the last `.` of a file name, where that `.` does not
/// open the name (as `Path::extension`).
pub open spec fn extension_spec(p: Seq<char>) -> Option<Seq<char>> {
    match file_name_spec(p) {
        Some(name) => match last_index_of(name, '.') {
            Some(k) => if k == 0 {
                None
            } else {
                Some(name.skip(k + 1))
            },
            None => None,
        },
        None => None,
    }
}

/// The format a file name's extension names.
pub open spec fn format_spec(p: Seq<char>) -> Option<ConfigFormat> {
    match extension_spec(p) {
        Some(e) => if e == "yml"@ || e == "yaml"@ {
            Some(ConfigFormat::Yaml)
        } else if e == "toml"@ {
            Some(ConfigFormat::Toml)
        } else {
            None
        },
        None => None,
    }
}

/// The refusal of a file of another extension.
pub open spec fn format_message(path: Seq<char>) -> Seq<char> {
    "設定ファイル形式を判別できません: "@ + path + " (.yml/.yaml/.toml を使ってください)"@
}

fn last_index_exec(s: &Vec<char>, c: char) -> (r: Option<usize>)
    ensures
        match r {
            Some(k) => last_index_of(s@, c) == Some(k as int) && k < s.len(),
            None => last_index_of(s@, c) is None,
        },
{
    let mut i: usize = s.len();
    assert(s@.take(s.len() as int) =~= s@);
    while i > 0
        invariant
            i <= s.len(),
            last_index_of(s@, c) == last_index_of(s@.take(i as int), c),
        decreases i,
    {
        proof {
            assert(s@.take(i as int).drop_last() =~= s@.take(i - 1));
            assert(s@.take(i as int).last() == s@[i - 1]);
        }
        if s[i - 1] == c {
            return Some(i - 1);
        }
        i = i - 1;
    }
    assert(s@.take(0) =~= Seq::<char>::empty());
    None
}

/// The format of a configuration file, read from its extension:
/// `.yml`/`.yaml` or `.toml`.
pub fn config_format(path: &str) -> (r: Result<ConfigFormat, String>)
    ensures
        match format_spec(path@) {
            Some(f) => r == Ok::<ConfigFormat, String>(f),
            None => r matches Err(m) && m@ == format_message(path@),
        },
{
    let p = chars_of(path);
    let parts = split_chars(p.as_slice(), '/');
    let segs = segments_of(&parts, false);
    let mut found: Option<ConfigFormat> = None;
    if segs.len() > 0 && !is_dot_dot(&segs[segs.len() - 1]) {
        let name = &segs[segs.len() - 1];
        assert(views(segs@).last() == name@);
        match last_index_exec(name, '.') {
            Some(k) => if k > 0 {
                let ext = crate::text::slice_chars(name.as_slice(), k + 1, name.len());
                assert(ext@ =~= name@.skip(k + 1));
                let yml = chars_of("yml");
                let yaml = chars_of("yaml");
                let toml = chars_of("toml");
                if crate::text::chars_eq(ext.as_slice(), yml.as_slice())
                    || crate::text::chars_eq(ext.as_slice(), yaml.as_slice()) {
                    found = Some(ConfigFormat::Yaml);
                } else if crate::text::chars_eq(ext.as_slice(), toml.as_slice()) {
                    found = Some(ConfigFormat::Toml);
                }
            },
            None => {},
        }
    }
    match found {
        Some(f) => Ok(f),
        None => {
            let mut m = chars_of("設定ファイル形式を判別できません: ");
            push_str(&mut m, path);
            push_str(&mut m, " (.yml/.yaml/.toml を使ってください)");
            Err(string_of(m.as_slice()))
        },
    }
}

// ---------------------------------------------------------------------
// Laws
// ---------------------------------------------------------------------
/// Environment variables take precedence: where both named variables are
/// set (as Unicode), the credentials are theirs, whatever the inline values.
pub proof fn law_env_credentials_take_precedence(
    username_env: Seq<char>,
    password_env: Seq<char>,
    inline_username: Option<Seq<char>>,
    inline_password: Option<Seq<char>>,
    vars: Seq<EnvVar>,
)
    requires
        env_value(vars, username_env) is Some,
        env_value(vars, password_env) is Some,
    ensures
        credential_spec(Some(username_env), Some(password_env), inline_username, inline_password, vars)
            == Ok::<Option<CredView>, Seq<char>>(
            Some(
                (
                    env_value(vars, username_env)->0,
                    env_value(vars, password_env)->0,
                    Some((username_env, password_env)),
                ),
            ),
        ),
{
}

/// Inline values are the fallback: with no variable names configured, a
/// complete inline pair is used as it stands.
pub proof fn law_inline_credentials_fallback(username: Seq<char>, password: Seq<char>, vars: Seq<EnvVar>)
    ensures
        credential_spec(None, None, Some(username), Some(password), vars) == Ok::<
            Option<CredView>,
            Seq<char>,
        >(Some((username, password, None))),
{
}

/// An absolute path in the configuration file is kept as it stands.
pub proof fn law_absolute_paths_are_kept(config_path: Seq<char>, p: Seq<char>)
    requires
        starts_with(p, "/"@),
    ensures
        resolve_against(config_path, p) == p,
{
}

/// `cbzcal/events-cache.json` under the state directory.
pub open spec fn default_events_cache_spec(env: EnvSnapshot) -> Seq<char> {
    join_path(join_path(state_base(env), "cbzcal"@), "events-cache.json"@)
}

impl AppConfig {
    /// Where listings are cached: the configured path, else the default one.
    pub fn events_cache_path(&self, env: &EnvSnapshot) -> (r: String)
        ensures
            r@ == match self.events_cache_path {
                Some(p) => p@,
                None => default_events_cache_spec(*env),
            },
    {
        match &self.events_cache_path {
            Some(p) => p.clone(),
            None => {
                let base = state_dir(env);
                let dir = join_path_exec(base.as_str(), "cbzcal");
                join_path_exec(dir.as_str(), "events-cache.json")
            },
        }
    }
}

} // verus!
