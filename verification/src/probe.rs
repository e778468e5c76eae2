//! The decisions of the login probe: which page the first reply is, which
//! endpoints are used, where a redirect leads, and what the report says.
use vstd::prelude::*;
use crate::config::{opt_view, CredentialPair};
use crate::page::{
    authenticated_page_spec, body_hint, body_hint_spec, credential_source_name,
    extract_hidden_input_value, extract_js_redirect_url, extract_query_parameter,
    extract_result_token, extract_title, hidden_value_spec, infer_related_url,
    is_authenticated_page, is_login_page, is_redirect_stub_page, is_schedule_index_page,
    js_redirect_spec, login_page_spec, query_parameter_spec, redirect_stub_spec,
    schedule_index_spec, source_name_spec, title_spec,
};
use crate::page::json_result_token_of;
use crate::text::{chars_of, push_str, string_of};
use crate::urls::url_join_of;

verus! {

/// One reply, after any redirects were followed.
#[derive(Debug)]
pub struct ResponseSnapshot {
    pub status: u16,
    pub url: String,
    pub body: String,
}

/// What the first page of the instance is.
#[derive(Clone, Copy, Debug, PartialEq, Eq, Structural)]
pub enum PageKind {
    Login,
    Authenticated,
    Unknown,
}

/// The login page wins over a page behind the login.
pub open spec fn page_kind_spec(url: Seq<char>, body: Seq<char>) -> PageKind {
    if login_page_spec(url, body) {
        PageKind::Login
    } else if authenticated_page_spec(url, body) {
        PageKind::Authenticated
    } else {
        PageKind::Unknown
    }
}

pub open spec fn page_kind_name(k: PageKind) -> Seq<char> {
    match k {
        PageKind::Login => "login"@,
        PageKind::Authenticated => "authenticated"@,
        PageKind::Unknown => "unknown"@,
    }
}

impl PageKind {
    /// `login`, `authenticated` or `unknown`.
    pub fn as_str(&self) -> (r: &'static str)
        ensures
            r@ == page_kind_name(*self),
    {
        match self {
            PageKind::Login => "login",
            PageKind::Authenticated => "authenticated",
            PageKind::Unknown => "unknown",
        }
    }
}

/// The kind of a reply.
pub fn page_kind(url: &str, body: &str) -> (r: PageKind)
    ensures
        r == page_kind_spec(url@, body@),
{
    if is_login_page(url, body) {
        PageKind::Login
    } else if is_authenticated_page(url, body) {
        PageKind::Authenticated
    } else {
        PageKind::Unknown
    }
}

/// The endpoints the probe talks to.
#[derive(Debug)]
pub struct ProbeEndpoints {
    pub login_post_url: String,
    pub get_token_url: String,
    pub login_json_url: String,
    pub available_days_url: String,
    pub schedule_index_url: String,
}

pub open spec fn endpoints_view(e: ProbeEndpoints) -> Seq<Seq<char>> {
    seq![
        e.login_post_url@,
        e.get_token_url@,
        e.login_json_url@,
        e.available_days_url@,
        e.schedule_index_url@,
    ]
}

/// The endpoints: the login POST target as configured or resolved against
/// the base URL, the three JSON endpoints resolved against it, and the
/// schedule index resolved against it or, failing that, the base URL with
/// `?page=ScheduleIndex`. The first endpoint that cannot be resolved is
/// named in the error.
pub open spec fn endpoints_spec(base: Seq<char>, configured_post: Option<Seq<char>>) -> Result<
    Seq<Seq<char>>,
    Seq<char>,
> {
    let post = match configured_post {
        Some(p) => Some(p),
        None => url_join_of(base, "/api/auth/redirect.do"@),
    };
    let token = url_join_of(base, "/api/auth/getToken.json?_lc=ja"@);
    let login = url_join_of(base, "/api/auth/login.json?_lc=ja"@);
    let days = url_join_of(base, "/api/auth/availableDays.json?_lc=ja"@);
    let schedule = match url_join_of(base, "/o/ag.cgi?page=ScheduleIndex"@) {
        Some(s) => s,
        None => base + "?page=ScheduleIndex"@,
    };
    if post is None {
        Err("Cybozu ログイン POST 先を確定できません"@)
    } else if token is None {
        Err("getToken URL を確定できません"@)
    } else if login is None {
        Err("login.json URL を確定できません"@)
    } else if days is None {
        Err("availableDays URL を確定できません"@)
    } else {
        Ok(seq![post->0, token->0, login->0, days->0, schedule])
    }
}

/// The endpoints the probe uses for the instance at `base_url`.
pub fn probe_endpoints(base_url: &str, configured_post: &Option<String>) -> (r: Result<
    ProbeEndpoints,
    String,
>)
    ensures
        match r {
            Ok(e) => endpoints_spec(base_url@, opt_view(*configured_post)) == Ok::<
                Seq<Seq<char>>,
                Seq<char>,
            >(endpoints_view(e)),
            Err(m) => endpoints_spec(base_url@, opt_view(*configured_post)) == Err::<
                Seq<Seq<char>>,
                Seq<char>,
            >(m@),
        },
{
    let post = match configured_post {
        Some(p) => Some(p.clone()),
        None => infer_related_url(base_url, "/api/auth/redirect.do"),
    };
    let token = infer_related_url(base_url, "/api/auth/getToken.json?_lc=ja");
    let login = infer_related_url(base_url, "/api/auth/login.json?_lc=ja");
    let days = infer_related_url(base_url, "/api/auth/availableDays.json?_lc=ja");
    let schedule = match infer_related_url(base_url, "/o/ag.cgi?page=ScheduleIndex") {
        Some(s) => s,
        None => {
            let mut v = chars_of(base_url);
            push_str(&mut v, "?page=ScheduleIndex");
            string_of(v.as_slice())
        },
    };
    match (post, token, login, days) {
        (Some(p), Some(t), Some(l), Some(d)) => {
            let e = ProbeEndpoints {
                login_post_url: p,
                get_token_url: t,
                login_json_url: l,
                available_days_url: d,
                schedule_index_url: schedule,
            };
            assert(endpoints_view(e) =~= seq![p@, t@, l@, d@, schedule@]);
            Ok(e)
        },
        (None, _, _, _) => Err("Cybozu ログイン POST 先を確定できません".to_string()),
        (_, None, _, _) => Err("getToken URL を確定できません".to_string()),
        (_, _, None, _) => Err("login.json URL を確定できません".to_string()),
        (_, _, _, None) => Err("availableDays URL を確定できません".to_string()),
    }
}

/// The `redirect` value of the login page: its hidden input, else the
/// query parameter of its address.
pub open spec fn redirect_value_spec(url: Seq<char>, body: Seq<char>) -> Result<
    Seq<char>,
    Seq<char>,
> {
    match hidden_value_spec(body, "redirect"@) {
        Some(v) => Ok(v),
        None => match query_parameter_spec(url, "redirect"@) {
            Some(v) => Ok(v),
            None => Err("ログイン画面の redirect 値を取得できません"@),
        },
    }
}

/// The `redirect` value the login form posts.
pub fn login_redirect_value(page: &ResponseSnapshot) -> (r: Result<String, String>)
    ensures
        match r {
            Ok(v) => redirect_value_spec(page.url@, page.body@) == Ok::<Seq<char>, Seq<char>>(
                v@,
            ),
            Err(m) => redirect_value_spec(page.url@, page.body@) == Err::<
                Seq<char>,
                Seq<char>,
            >(m@),
        },
{
    match extract_hidden_input_value(page.body.as_str(), "redirect") {
        Some(v) => Ok(v),
        None => match extract_query_parameter(page.url.as_str(), "redirect") {
            Some(v) => Ok(v),
            None => Err("ログイン画面の redirect 値を取得できません".to_string()),
        },
    }
}

/// The API token that `getToken.json` answered with.
pub fn login_token(reply: &ResponseSnapshot) -> (r: Result<String, String>)
    ensures
        match json_result_token_of(reply.body@) {
            Some(t) => r matches Ok(v) && v@ == t,
            None => r matches Err(m) && m@ == "getToken.json から token を取得できません"@,
        },
{
    match extract_result_token(reply.body.as_str()) {
        Some(t) => Ok(t),
        None => Err("getToken.json から token を取得できません".to_string()),
    }
}

// ---------------------------------------------------------------------
// Following redirects
// ---------------------------------------------------------------------
/// The most requests one fetch makes while following redirects.
pub const MAX_REQUESTS: u32 = 10;

/// What to do after a reply while following redirects.
#[derive(Debug)]
pub enum FollowAction {
    /// Request this address next.
    Request(String),
    /// The reply is the page.
    Finish,
    /// Give up, for this reason.
    Fail(String),
}

/// Where a reply sends the client: the `Location` of a redirection status
/// resolved against the reply's address, or the target of a script
/// redirect stub; `Err` where a redirection cannot be followed; `None`
/// where the reply is the page.
pub open spec fn next_hop_spec(
    is_redirection: bool,
    location: Option<Seq<char>>,
    url: Seq<char>,
    body: Seq<char>,
) -> Result<Option<Seq<char>>, Seq<char>> {
    if is_redirection {
        match location {
            None => Err("redirect location がありません"@),
            Some(l) => match url_join_of(url, l) {
                Some(u) => Ok(Some(u)),
                None => Err("redirect URL を解決できません"@),
            },
        }
    } else if redirect_stub_spec(body) && js_redirect_spec(url, body) is Some {
        Ok(js_redirect_spec(url, body))
    } else {
        Ok(None)
    }
}

/// The step after the `sent`-th request: follow, finish, or fail, and fail
/// where a further request would pass the limit.
pub open spec fn follow_spec(
    sent: u32,
    is_redirection: bool,
    location: Option<Seq<char>>,
    url: Seq<char>,
    body: Seq<char>,
) -> Result<Option<Seq<char>>, Seq<char>> {
    match next_hop_spec(is_redirection, location, url, body) {
        Ok(Some(u)) => if sent >= MAX_REQUESTS {
            Err("redirect が多すぎます"@)
        } else {
            Ok(Some(u))
        },
        other => other,
    }
}

pub open spec fn action_view(a: FollowAction) -> Result<Option<Seq<char>>, Seq<char>> {
    match a {
        FollowAction::Request(u) => Ok(Some(u@)),
        FollowAction::Finish => Ok(None),
        FollowAction::Fail(m) => Err(m@),
    }
}

/// Decides the next step of a fetch that follows redirects: `sent` requests
/// were made, and the last reply had the given status class, `Location`
/// header (where it was readable text), address and body.
pub fn follow_step(
    sent: u32,
    is_redirection: bool,
    location: &Option<String>,
    url: &str,
    body: &str,
) -> (r: FollowAction)
    ensures
        action_view(r) == follow_spec(sent, is_redirection, opt_view(*location), url@, body@),
{
    let next = if is_redirection {
        match location {
            None => return FollowAction::Fail("redirect location がありません".to_string()),
            Some(l) => match infer_related_url(url, l.as_str()) {
                Some(u) => u,
                None => return FollowAction::Fail("redirect URL を解決できません".to_string()),
            },
        }
    } else if is_redirect_stub_page(body) {
        match extract_js_redirect_url(url, body) {
            Some(u) => u,
            None => return FollowAction::Finish,
        }
    } else {
        return FollowAction::Finish;
    };
    if sent >= MAX_REQUESTS {
        FollowAction::Fail("redirect が多すぎます".to_string())
    } else {
        FollowAction::Request(next)
    }
}

/// The `Location` of a reply to the login POST, resolved against the
/// reply's address; `None` where it is missing or cannot be resolved.
pub fn redirect_location(url: &str, location: &Option<String>) -> (r: Option<String>)
    ensures
        opt_view(r) == match location {
            Some(l) => url_join_of(url@, l@),
            None => None,
        },
{
    match location {
        Some(l) => infer_related_url(url, l.as_str()),
        None => None,
    }
}

// ---------------------------------------------------------------------
// Outcomes
// ---------------------------------------------------------------------
/// Where the login went after `redirect.do`.
#[derive(Debug)]
pub struct LoginStep {
    pub final_url: String,
    pub body_hint: String,
    pub succeeded: bool,
    pub note: Option<String>,
}

/// The login went to a page: it succeeded where that page is behind the login.
pub fn step_after_redirect(page: &ResponseSnapshot) -> (r: LoginStep)
    ensures
        r.final_url@ == page.url@,
        r.body_hint@ == body_hint_spec(page.body@),
        r.succeeded == authenticated_page_spec(page.url@, page.body@),
        r.note is None,
{
    LoginStep {
        final_url: page.url.clone(),
        body_hint: body_hint(page.body.as_str()),
        succeeded: is_authenticated_page(page.url.as_str(), page.body.as_str()),
        note: None,
    }
}

/// Following the login's redirect failed with `error`.
pub fn step_redirect_failed(location: &str, error: &str) -> (r: LoginStep)
    ensures
        r.final_url@ == location@,
        r.body_hint@ == Seq::<char>::empty(),
        !r.succeeded,
        r.note matches Some(n) && n@ == "redirect 後の追跡に失敗しました: "@ + error@,
{
    let mut n = chars_of("redirect 後の追跡に失敗しました: ");
    push_str(&mut n, error);
    LoginStep {
        final_url: location.to_string(),
        body_hint: String::new(),
        succeeded: false,
        note: Some(string_of(n.as_slice())),
    }
}

/// `redirect.do` answered with no usable `Location`.
pub fn step_without_location(login_post_url: &str) -> (r: LoginStep)
    ensures
        r.final_url@ == login_post_url@,
        r.body_hint@ == Seq::<char>::empty(),
        !r.succeeded,
        r.note matches Some(n) && n@ == "redirect.do の Location を取得できませんでした"@,
{
    LoginStep {
        final_url: login_post_url.to_string(),
        body_hint: String::new(),
        succeeded: false,
        note: Some("redirect.do の Location を取得できませんでした".to_string()),
    }
}

/// What the login part of the probe found.
#[derive(Debug)]
pub struct LoginOutcome {
    pub login_page_url: String,
    pub login_page_title: Option<String>,
    pub login_body_hint: String,
    pub final_url_after_login: String,
    pub get_token_status: u16,
    pub login_json_status: u16,
    pub available_days_status: u16,
    pub get_token_body_hint: String,
    pub login_json_body_hint: String,
    pub available_days_body_hint: String,
    pub login_status: u16,
    pub login_succeeded: bool,
    pub note: Option<String>,
}

/// The outcome where the first page was the login page and the login went
/// through its JSON endpoints and `redirect.do` (answered with `login_status`).
pub fn outcome_after_login(
    initial: &ResponseSnapshot,
    get_token: &ResponseSnapshot,
    login_json: &ResponseSnapshot,
    available_days: &ResponseSnapshot,
    login_status: u16,
    step: LoginStep,
) -> (r: LoginOutcome)
    ensures
        r.login_page_url@ == initial.url@,
        opt_view(r.login_page_title) == title_spec(initial.body@),
        r.login_body_hint@ == step.body_hint@,
        r.final_url_after_login@ == step.final_url@,
        r.get_token_status == get_token.status,
        r.login_json_status == login_json.status,
        r.available_days_status == available_days.status,
        r.get_token_body_hint@ == body_hint_spec(get_token.body@),
        r.login_json_body_hint@ == body_hint_spec(login_json.body@),
        r.available_days_body_hint@ == body_hint_spec(available_days.body@),
        r.login_status == login_status,
        r.login_succeeded == step.succeeded,
        r.note == step.note,
{
    LoginOutcome {
        login_page_url: initial.url.clone(),
        login_page_title: extract_title(initial.body.as_str()),
        login_body_hint: step.body_hint,
        final_url_after_login: step.final_url,
        get_token_status: get_token.status,
        login_json_status: login_json.status,
        available_days_status: available_days.status,
        get_token_body_hint: body_hint(get_token.body.as_str()),
        login_json_body_hint: body_hint(login_json.body.as_str()),
        available_days_body_hint: body_hint(available_days.body.as_str()),
        login_status,
        login_succeeded: step.succeeded,
        note: step.note,
    }
}

/// The note for a first page that needs no login.
pub open spec fn no_login_note(kind: PageKind) -> Seq<char> {
    if kind == PageKind::Authenticated {
        "初回アクセスで認証済みページに到達しました"@
    } else {
        "初回ページが login/authenticated のどちらにも判定できませんでした"@
    }
}

/// `o` is the outcome where the first page, of kind `kind`, was no login
/// page: no request is made, and the login counts as done only where the
/// page is behind the login.
pub open spec fn no_login_outcome(o: LoginOutcome, kind: PageKind, initial: ResponseSnapshot) -> bool {
    &&& o.login_page_url@ == initial.url@
    &&& opt_view(o.login_page_title) == title_spec(initial.body@)
    &&& o.login_body_hint@ == body_hint_spec(initial.body@)
    &&& o.final_url_after_login@ == initial.url@
    &&& o.get_token_status == 0 && o.login_json_status == 0 && o.available_days_status == 0
    &&& o.get_token_body_hint@ == Seq::<char>::empty()
    &&& o.login_json_body_hint@ == Seq::<char>::empty()
    &&& o.available_days_body_hint@ == Seq::<char>::empty()
    &&& o.login_status == initial.status
    &&& o.login_succeeded == (kind == PageKind::Authenticated)
    &&& o.note matches Some(n) && n@ == no_login_note(kind)
}

/// The outcome where the first page was no login page.
pub fn outcome_without_login(kind: PageKind, initial: &ResponseSnapshot) -> (r: LoginOutcome)
    requires
        kind != PageKind::Login,
    ensures
        no_login_outcome(r, kind, *initial),
{
    let authenticated = kind == PageKind::Authenticated;
    let note = if authenticated {
        "初回アクセスで認証済みページに到達しました".to_string()
    } else {
        "初回ページが login/authenticated のどちらにも判定できませんでした".to_string()
    };
    LoginOutcome {
        login_page_url: initial.url.clone(),
        login_page_title: extract_title(initial.body.as_str()),
        login_body_hint: body_hint(initial.body.as_str()),
        final_url_after_login: initial.url.clone(),
        get_token_status: 0,
        login_json_status: 0,
        available_days_status: 0,
        get_token_body_hint: String::new(),
        login_json_body_hint: String::new(),
        available_days_body_hint: String::new(),
        login_status: initial.status,
        login_succeeded: authenticated,
        note: Some(note),
    }
}

/// What follows the first page of the probe.
#[derive(Debug)]
pub enum AfterInitial {
    /// Log in, posting this `redirect` value with the credentials.
    LogIn { redirect: String },
    /// No login is made; this is the login's outcome.
    Done(LoginOutcome),
}

/// Decides what follows the first page: on a login page, logging in with
/// the page's `redirect` value, refused where the page has none; on any
/// other page, the outcome without a login.
pub fn after_initial_page(initial: &ResponseSnapshot) -> (r: Result<AfterInitial, String>)
    ensures
        page_kind_spec(initial.url@, initial.body@) == PageKind::Login ==> match redirect_value_spec(
            initial.url@,
            initial.body@,
        ) {
            Ok(v) => r matches Ok(AfterInitial::LogIn { redirect }) && redirect@ == v,
            Err(m) => r matches Err(x) && x@ == m,
        },
        page_kind_spec(initial.url@, initial.body@) != PageKind::Login ==> (r matches Ok(
            AfterInitial::Done(o),
        ) && no_login_outcome(o, page_kind_spec(initial.url@, initial.body@), *initial)),
{
    let kind = page_kind(initial.url.as_str(), initial.body.as_str());
    if kind == PageKind::Login {
        match login_redirect_value(initial) {
            Ok(redirect) => Ok(AfterInitial::LogIn { redirect }),
            Err(m) => Err(m),
        }
    } else {
        Ok(AfterInitial::Done(outcome_without_login(kind, initial)))
    }
}

/// What the schedule index check found.
#[derive(Debug)]
pub struct ScheduleOutcome {
    pub status: u16,
    pub final_url: String,
    pub title: Option<String>,
    pub accessible: bool,
    pub body_hint: String,
}

/// The schedule index as fetched after a successful login.
pub fn schedule_outcome(page: &ResponseSnapshot) -> (r: ScheduleOutcome)
    ensures
        r.status == page.status,
        r.final_url@ == page.url@,
        opt_view(r.title) == title_spec(page.body@),
        r.accessible == schedule_index_spec(page.url@, page.body@),
        r.body_hint@ == body_hint_spec(page.body@),
{
    ScheduleOutcome {
        status: page.status,
        final_url: page.url.clone(),
        title: extract_title(page.body.as_str()),
        accessible: is_schedule_index_page(page.url.as_str(), page.body.as_str()),
        body_hint: body_hint(page.body.as_str()),
    }
}

/// `s` records that no schedule index was fetched from `url`.
pub open spec fn schedule_unchecked(s: ScheduleOutcome, url: Seq<char>) -> bool {
    &&& s.status == 0
    &&& s.final_url@ == url
    &&& s.title is None
    &&& !s.accessible
    &&& s.body_hint@ == Seq::<char>::empty()
}

/// No schedule index is fetched where the login did not succeed.
pub fn schedule_not_checked(schedule_index_url: &str) -> (r: ScheduleOutcome)
    ensures
        schedule_unchecked(r, schedule_index_url@),
{
    ScheduleOutcome {
        status: 0,
        final_url: schedule_index_url.to_string(),
        title: None,
        accessible: false,
        body_hint: String::new(),
    }
}

/// What follows the login.
#[derive(Debug)]
pub enum AfterLogin {
    /// Fetch the schedule index at this URL.
    FetchSchedule(String),
    /// Nothing is fetched; this is the schedule check's outcome.
    Done(ScheduleOutcome),
}

/// Decides what follows the login: the schedule index is fetched only
/// after a successful login.
pub fn after_login(outcome: &LoginOutcome, schedule_index_url: &str) -> (r: AfterLogin)
    ensures
        outcome.login_succeeded ==> (r matches AfterLogin::FetchSchedule(u) && u@
            == schedule_index_url@),
        !outcome.login_succeeded ==> (r matches AfterLogin::Done(s) && schedule_unchecked(
            s,
            schedule_index_url@,
        )),
{
    if outcome.login_succeeded {
        AfterLogin::FetchSchedule(schedule_index_url.to_string())
    } else {
        AfterLogin::Done(schedule_not_checked(schedule_index_url))
    }
}

/// The result of a login probe.
#[derive(Debug)]
pub struct LoginProbeReport {
    pub base_url: String,
    pub initial_url: String,
    pub login_page_url: String,
    pub login_post_url: String,
    pub get_token_url: String,
    pub login_json_url: String,
    pub available_days_url: String,
    pub schedule_index_url: String,
    pub basic_auth_source: &'static str,
    pub office_auth_source: &'static str,
    pub initial_status: u16,
    pub get_token_status: u16,
    pub login_json_status: u16,
    pub available_days_status: u16,
    pub get_token_body_hint: String,
    pub login_json_body_hint: String,
    pub available_days_body_hint: String,
    pub initial_page_kind: &'static str,
    pub reached_login_page: bool,
    pub initial_page_title: Option<String>,
    pub initial_body_hint: String,
    pub login_page_title: Option<String>,
    pub login_body_hint: String,
    pub final_url_after_login: String,
    pub login_status: u16,
    pub login_succeeded: bool,
    pub schedule_index_status: u16,
    pub schedule_index_accessible: bool,
    pub schedule_index_title: Option<String>,
    pub schedule_body_hint: String,
    pub note: Option<String>,
}

/// The report, put together from the first reply, the endpoints and the
/// outcomes of the login and of the schedule check.
pub fn assemble_report(
    base_url: &str,
    initial: ResponseSnapshot,
    endpoints: ProbeEndpoints,
    outcome: LoginOutcome,
    schedule: ScheduleOutcome,
    basic: &Option<CredentialPair>,
    office: &CredentialPair,
) -> (r: LoginProbeReport)
    ensures
        r.base_url@ == base_url@,
        r.initial_url@ == initial.url@,
        r.login_page_url == outcome.login_page_url,
        r.login_post_url == endpoints.login_post_url,
        r.get_token_url == endpoints.get_token_url,
        r.login_json_url == endpoints.login_json_url,
        r.available_days_url == endpoints.available_days_url,
        r.schedule_index_url == schedule.final_url,
        r.basic_auth_source@ == source_name_spec(*basic),
        r.office_auth_source@ == source_name_spec(Some(*office)),
        r.initial_status == initial.status,
        r.get_token_status == outcome.get_token_status,
        r.login_json_status == outcome.login_json_status,
        r.available_days_status == outcome.available_days_status,
        r.get_token_body_hint == outcome.get_token_body_hint,
        r.login_json_body_hint == outcome.login_json_body_hint,
        r.available_days_body_hint == outcome.available_days_body_hint,
        r.initial_page_kind@ == page_kind_name(page_kind_spec(initial.url@, initial.body@)),
        r.reached_login_page == login_page_spec(initial.url@, initial.body@),
        opt_view(r.initial_page_title) == title_spec(initial.body@),
        r.initial_body_hint@ == body_hint_spec(initial.body@),
        r.login_page_title == outcome.login_page_title,
        r.login_body_hint == outcome.login_body_hint,
        r.final_url_after_login == outcome.final_url_after_login,
        r.login_status == outcome.login_status,
        r.login_succeeded == outcome.login_succeeded,
        r.schedule_index_status == schedule.status,
        r.schedule_index_accessible == schedule.accessible,
        r.schedule_index_title == schedule.title,
        r.schedule_body_hint == schedule.body_hint,
        r.note == outcome.note,
{
    let kind = page_kind(initial.url.as_str(), initial.body.as_str());
    let basic_source = match basic {
        Some(b) => credential_source_name(Some(b)),
        None => credential_source_name(None),
    };
    LoginProbeReport {
        base_url: base_url.to_string(),
        initial_page_title: extract_title(initial.body.as_str()),
        initial_body_hint: body_hint(initial.body.as_str()),
        initial_url: initial.url,
        login_page_url: outcome.login_page_url,
        login_post_url: endpoints.login_post_url,
        get_token_url: endpoints.get_token_url,
        login_json_url: endpoints.login_json_url,
        available_days_url: endpoints.available_days_url,
        schedule_index_url: schedule.final_url,
        basic_auth_source: basic_source,
        office_auth_source: credential_source_name(Some(office)),
        initial_status: initial.status,
        get_token_status: outcome.get_token_status,
        login_json_status: outcome.login_json_status,
        available_days_status: outcome.available_days_status,
        get_token_body_hint: outcome.get_token_body_hint,
        login_json_body_hint: outcome.login_json_body_hint,
        available_days_body_hint: outcome.available_days_body_hint,
        initial_page_kind: kind.as_str(),
        reached_login_page: kind == PageKind::Login,
        login_page_title: outcome.login_page_title,
        login_body_hint: outcome.login_body_hint,
        final_url_after_login: outcome.final_url_after_login,
        login_status: outcome.login_status,
        login_succeeded: outcome.login_succeeded,
        schedule_index_status: schedule.status,
        schedule_index_accessible: schedule.accessible,
        schedule_index_title: schedule.title,
        schedule_body_hint: schedule.body_hint,
        note: outcome.note,
    }
}

} // verus!
