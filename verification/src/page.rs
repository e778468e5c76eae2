//! Reading the pages and replies of a Cybozu Office instance: titles,
//! hidden form values, redirect stubs, and which kind of page a reply is.
use vstd::prelude::*;
use crate::config::{opt_view, CredentialPair, CredentialSource};
use crate::id::{first_value, pair_views, query_pairs_of, url_query_pairs};
use crate::text::{
    chars_of, contains, find, find_exec, join, join_chars, slice_chars, str_contains, str_eq,
    string_of, trim, trim_chars, views, words, words_chars,
};
use crate::urls::{parse_url, url_join, url_join_of, url_parts_of};

verus! {

/// What `serde_json` reads as the string at `result.token` of a JSON
/// text, or `None` where the text is no JSON or holds no such string.
pub uninterp spec fn json_result_token_of(body: Seq<char>) -> Option<Seq<char>>;

/// `serde_json::from_str` into a `Value`, then `get("result")`,
/// `get("token")` and `as_str`. The contract names the outcome
/// `json_result_token_of`: a function of the text alone.
#[verifier::external_body]
fn json_result_token(body: &str) -> (r: Option<String>)
    ensures
        opt_view(r) == json_result_token_of(body@),
{
    match serde_json::from_str::<serde_json::Value>(body) {
        Ok(v) => v.get("result").and_then(|x| x.get("token")).and_then(|t| t.as_str()).map(
            |t| t.to_string(),
        ),
        Err(_) => None,
    }
}

/// The text inside the first `<title>…</title>`, trimmed.
pub open spec fn title_spec(html: Seq<char>) -> Option<Seq<char>> {
    match find(html, "<title>"@) {
        Some(s) => match find(html.skip(s + 7), "</title>"@) {
            Some(e) => Some(trim(html.subrange(s + 7, s + 7 + e))),
            None => None,
        },
        None => None,
    }
}

/// The page's title.
pub fn extract_title(html: &str) -> (r: Option<String>)
    ensures
        opt_view(r) == title_spec(html@),
{
    let h = chars_of(html);
    let open = chars_of("<title>");
    proof {
        reveal_strlit("<title>");
    }
    let s = match find_exec(h.as_slice(), open.as_slice()) {
        Some(s) => s,
        None => return None,
    };
    proof {
        crate::text::lemma_find_contains(h@, open@);
        assert(open@.len() == 7);
    }
    assert(s + 7 <= h.len());
    let rest = slice_chars(h.as_slice(), s + 7, h.len());
    assert(rest@ =~= html@.skip(s + 7));
    let close = chars_of("</title>");
    let e = match find_exec(rest.as_slice(), close.as_slice()) {
        Some(e) => e,
        None => return None,
    };
    proof {
        crate::text::lemma_find_contains(rest@, close@);
    }
    let inner = slice_chars(h.as_slice(), s + 7, s + 7 + e);
    let t = trim_chars(inner.as_slice());
    Some(string_of(t.as_slice()))
}

/// The value of the first `name="…"` input: the text between the
/// `value="` that follows the name and the next `"`.
pub open spec fn hidden_value_spec(html: Seq<char>, name: Seq<char>) -> Option<Seq<char>> {
    let needle = "name=\""@ + name + "\""@;
    match find(html, needle) {
        Some(p) => {
            let suffix = html.skip(p);
            match find(suffix, "value=\""@) {
                Some(v) => match find(suffix.skip(v + 7), "\""@) {
                    Some(e) => Some(suffix.subrange(v + 7, v + 7 + e)),
                    None => None,
                },
                None => None,
            }
        },
        None => None,
    }
}

/// The value of a hidden form input.
pub fn extract_hidden_input_value(html: &str, name: &str) -> (r: Option<String>)
    ensures
        opt_view(r) == hidden_value_spec(html@, name@),
{
    let h = chars_of(html);
    let mut needle = chars_of("name=\"");
    crate::text::push_str(&mut needle, name);
    needle.push('"');
    assert(needle@ =~= "name=\""@ + name@ + "\""@) by {
        reveal_strlit("\"");
    }
    let p = match find_exec(h.as_slice(), needle.as_slice()) {
        Some(p) => p,
        None => return None,
    };
    proof {
        crate::text::lemma_find_contains(h@, needle@);
    }
    let suffix = slice_chars(h.as_slice(), p, h.len());
    assert(suffix@ =~= html@.skip(p as int));
    let value_mark = chars_of("value=\"");
    proof {
        reveal_strlit("value=\"");
    }
    let v = match find_exec(suffix.as_slice(), value_mark.as_slice()) {
        Some(v) => v,
        None => return None,
    };
    proof {
        crate::text::lemma_find_contains(suffix@, value_mark@);
    }
    let tail = slice_chars(suffix.as_slice(), v + 7, suffix.len());
    assert(tail@ =~= suffix@.skip(v + 7));
    let quote = chars_of("\"");
    let e = match find_exec(tail.as_slice(), quote.as_slice()) {
        Some(e) => e,
        None => return None,
    };
    proof {
        crate::text::lemma_find_contains(tail@, quote@);
    }
    let value = slice_chars(suffix.as_slice(), v + 7, v + 7 + e);
    Some(string_of(value.as_slice()))
}

/// The decoded value of the first query pair with the key.
pub open spec fn query_parameter_spec(url: Seq<char>, key: Seq<char>) -> Option<Seq<char>> {
    match query_pairs_of(url) {
        Some(pairs) => first_value(pairs, key),
        None => None,
    }
}

/// The value of a query parameter of a URL.
pub fn extract_query_parameter(url: &str, key: &str) -> (r: Option<String>)
    ensures
        opt_view(r) == query_parameter_spec(url@, key@),
{
    let pairs = match url_query_pairs(url) {
        Some(p) => p,
        None => return None,
    };
    let ghost ps = pair_views(pairs@);
    let mut i: usize = 0;
    assert(ps.skip(0) =~= ps);
    while i < pairs.len()
        invariant
            i <= pairs.len(),
            ps == pair_views(pairs@),
            query_pairs_of(url@) == Some(ps),
            first_value(ps, key@) == first_value(ps.skip(i as int), key@),
        decreases pairs.len() - i,
    {
        proof {
            assert(ps.skip(i as int).drop_first() =~= ps.skip(i + 1));
            assert(ps.skip(i as int)[0] == ps[i as int]);
        }
        if str_eq(pairs[i].0.as_str(), key) {
            assert(first_value(ps.skip(i as int), key@) == Some(pairs@[i as int].1@));
            return Some(pairs[i].1.clone());
        }
        i = i + 1;
    }
    None
}

/// The `result.token` string of a JSON reply.
pub fn extract_result_token(body: &str) -> (r: Option<String>)
    ensures
        opt_view(r) == json_result_token_of(body@),
{
    json_result_token(body)
}

/// A login page: its address contains `/login`, or its body holds the
/// login form's marks, a script that goes to `/login?`, or the title
/// `ログイン`.
pub open spec fn login_page_spec(url: Seq<char>, body: Seq<char>) -> bool {
    ||| contains(url, "/login"@)
    ||| contains(body, "api/auth/redirect.do"@)
    ||| contains(body, "name=\"username\""@)
    ||| contains(body, "name=\"password\""@)
    ||| (contains(body, "location.replace("@) && contains(body, "/login?"@))
    ||| title_spec(body) == Some("ログイン"@)
}

/// Whether a reply is the login page.
pub fn is_login_page(url: &str, body: &str) -> (r: bool)
    ensures
        r == login_page_spec(url@, body@),
{
    if str_contains(url, "/login") || str_contains(body, "api/auth/redirect.do") || str_contains(
        body,
        "name=\"username\"",
    ) || str_contains(body, "name=\"password\"") || (str_contains(body, "location.replace(")
        && str_contains(body, "/login?")) {
        return true;
    }
    match extract_title(body) {
        Some(t) => str_eq(t.as_str(), "ログイン"),
        None => false,
    }
}

/// A page behind the login: under `/o/ag.cgi` and no login page.
pub open spec fn authenticated_page_spec(url: Seq<char>, body: Seq<char>) -> bool {
    contains(url, "/o/ag.cgi"@) && !login_page_spec(url, body)
}

/// Whether a reply is a page behind the login.
pub fn is_authenticated_page(url: &str, body: &str) -> (r: bool)
    ensures
        r == authenticated_page_spec(url@, body@),
{
    str_contains(url, "/o/ag.cgi") && !is_login_page(url, body)
}

/// The schedule index: its address names `ScheduleIndex` and its body
/// says `スケジュール`.
pub open spec fn schedule_index_spec(url: Seq<char>, body: Seq<char>) -> bool {
    contains(url, "ScheduleIndex"@) && contains(body, "スケジュール"@)
}

/// Whether a reply is the schedule index.
pub fn is_schedule_index_page(url: &str, body: &str) -> (r: bool)
    ensures
        r == schedule_index_spec(url@, body@),
{
    str_contains(url, "ScheduleIndex") && str_contains(body, "スケジュール")
}

/// A page that only sends the browser on by script.
pub open spec fn redirect_stub_spec(body: Seq<char>) -> bool {
    contains(body, "リダイレクト中"@) && contains(body, "location.replace("@)
}

/// Whether a reply is a script redirect stub.
pub fn is_redirect_stub_page(body: &str) -> (r: bool)
    ensures
        r == redirect_stub_spec(body@),
{
    str_contains(body, "リダイレクト中") && str_contains(body, "location.replace(")
}

/// A path and query resolved against the base URL.
pub fn infer_related_url(base_url: &str, path_and_query: &str) -> (r: Option<String>)
    ensures
        opt_view(r) == url_join_of(base_url@, path_and_query@),
{
    url_join(base_url, path_and_query)
}

/// The origin `scheme://host` of a URL, or why there is none.
pub open spec fn origin_spec(url: Seq<char>) -> Result<Seq<char>, Seq<char>> {
    match url_parts_of(url) {
        Ok(parts) => match parts.1 {
            Some(h) => Ok(parts.0 + "://"@ + h),
            None => Err("host がありません"@),
        },
        Err(e) => Err(e),
    }
}

/// The origin of a URL, sent as the `Origin` of a JSON request.
pub fn request_origin(url: &str) -> (r: Result<String, String>)
    ensures
        match r {
            Ok(o) => origin_spec(url@) == Ok::<Seq<char>, Seq<char>>(o@),
            Err(e) => origin_spec(url@) == Err::<Seq<char>, Seq<char>>(e@),
        },
{
    match parse_url(url) {
        Ok(parts) => match &parts.host {
            Some(h) => {
                let mut o = chars_of(parts.scheme.as_str());
                crate::text::push_str(&mut o, "://");
                crate::text::push_str(&mut o, h.as_str());
                Ok(string_of(o.as_slice()))
            },
            None => Err("host がありません".to_string()),
        },
        Err(e) => Err(e),
    }
}

/// The first forty whitespace-separated words of a body, joined by spaces.
pub open spec fn body_hint_spec(body: Seq<char>) -> Seq<char> {
    let w = words(body);
    join(if w.len() > 40 { w.take(40) } else { w }, " "@)
}

/// A short look at a body.
pub fn body_hint(body: &str) -> (r: String)
    ensures
        r@ == body_hint_spec(body@),
{
    let b = chars_of(body);
    let mut w = words_chars(b.as_slice());
    if w.len() > 40 {
        let ghost all = w@;
        w.truncate(40);
        assert(views(w@) =~= views(all).take(40));
    }
    let sep = chars_of(" ");
    let out = join_chars(w.as_slice(), sep.as_slice());
    string_of(out.as_slice())
}

/// The first position of either quote character.
pub open spec fn first_quote(s: Seq<char>) -> Option<int> {
    if exists|k: int| 0 <= k < s.len() && (s[k] == '"' || s[k] == '\'') {
        Some(
            choose|k: int|
                0 <= k < s.len() && (s[k] == '"' || s[k] == '\'') && forall|j: int|
                    0 <= j < k ==> s[j] != '"' && s[j] != '\'',
        )
    } else {
        None
    }
}

/// The address a `location.replace("…")` script goes to, resolved
/// against the page's URL.
pub open spec fn js_redirect_spec(base_url: Seq<char>, body: Seq<char>) -> Option<Seq<char>> {
    match find(body, "location.replace("@) {
        Some(m) => {
            let suffix = body.skip(m + 17);
            match first_quote(suffix) {
                Some(q) => {
                    let quote = suffix[q];
                    let rest = suffix.skip(q + 1);
                    match find(rest, seq![quote]) {
                        Some(e) => url_join_of(base_url, rest.take(e)),
                        None => None,
                    }
                },
                None => None,
            }
        },
        None => None,
    }
}

fn first_quote_exec(s: &Vec<char>) -> (r: Option<usize>)
    ensures
        match r {
            Some(k) => first_quote(s@) == Some(k as int) && k < s.len(),
            None => first_quote(s@) is None,
        },
{
    let mut i: usize = 0;
    while i < s.len()
        invariant
            i <= s.len(),
            forall|j: int| 0 <= j < i ==> s@[j] != '"' && s@[j] != '\'',
        decreases s.len() - i,
    {
        if s[i] == '"' || s[i] == '\'' {
            proof {
                let k = choose|k: int|
                    0 <= k < s@.len() && (s@[k] == '"' || s@[k] == '\'') && forall|j: int|
                        0 <= j < k ==> s@[j] != '"' && s@[j] != '\'';
                assert(k == i as int) by {
                    if k < i {
                        assert(s@[k] != '"' && s@[k] != '\'');
                    }
                    if k > i {
                        assert(s@[i as int] != '"' && s@[i as int] != '\'');
                    }
                }
            }
            return Some(i);
        }
        i = i + 1;
    }
    None
}

/// The address a script redirect stub sends the browser to.
pub fn extract_js_redirect_url(base_url: &str, body: &str) -> (r: Option<String>)
    ensures
        opt_view(r) == js_redirect_spec(base_url@, body@),
{
    let b = chars_of(body);
    let marker = chars_of("location.replace(");
    proof {
        reveal_strlit("location.replace(");
    }
    let m = match find_exec(b.as_slice(), marker.as_slice()) {
        Some(m) => m,
        None => return None,
    };
    proof {
        crate::text::lemma_find_contains(b@, marker@);
        assert(marker@.len() == 17);
    }
    assert(m + 17 <= b.len());
    let suffix = slice_chars(b.as_slice(), m + 17, b.len());
    assert(suffix@ =~= body@.skip(m + 17));
    let q = match first_quote_exec(&suffix) {
        Some(q) => q,
        None => return None,
    };
    let quote = suffix[q];
    let rest = slice_chars(suffix.as_slice(), q + 1, suffix.len());
    assert(rest@ =~= suffix@.skip(q + 1));
    let pat = vec![quote];
    assert(pat@ =~= seq![quote]);
    let e = match find_exec(rest.as_slice(), pat.as_slice()) {
        Some(e) => e,
        None => return None,
    };
    proof {
        crate::text::lemma_find_contains(rest@, pat@);
    }
    let relative = slice_chars(rest.as_slice(), 0, e);
    assert(relative@ =~= rest@.take(e as int));
    let rel = string_of(relative.as_slice());
    url_join(base_url, rel.as_str())
}

/// The name of where credentials came from: `env`, `inline`, or `none`.
pub open spec fn source_name_spec(c: Option<CredentialPair>) -> Seq<char> {
    match c {
        Some(p) => match p.source {
            CredentialSource::Env { .. } => "env"@,
            CredentialSource::Inline => "inline"@,
        },
        None => "none"@,
    }
}

/// Where credentials came from.
pub fn credential_source_name(credentials: Option<&CredentialPair>) -> (r: &'static str)
    ensures
        r@ == source_name_spec(
            match credentials {
                Some(c) => Some(*c),
                None => None,
            },
        ),
{
    match credentials {
        Some(c) => match &c.source {
            CredentialSource::Env { .. } => "env",
            CredentialSource::Inline => "inline",
        },
        None => "none",
    }
}

} // verus!
