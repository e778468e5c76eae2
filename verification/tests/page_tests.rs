use cbzcal::page::{
    body_hint, credential_source_name, extract_hidden_input_value, extract_js_redirect_url,
    extract_query_parameter, extract_result_token, extract_title, infer_related_url,
    is_authenticated_page, is_login_page, is_redirect_stub_page, is_schedule_index_page,
    request_origin,
};
use cbzcal::config::{CredentialPair, CredentialSource};

#[test]
fn extracts_title_and_hidden_redirect() {
    let html = r#"
<html>
  <head><title>ログイン</title></head>
  <body>
    <form action="/api/auth/redirect.do">
      <input type="hidden" name="redirect" value="https://example.cybozu.com/o/ag.cgi?">
    </form>
  </body>
</html>
"#;

    assert_eq!(extract_title(html).as_deref(), Some("ログイン"));
    assert_eq!(
        extract_hidden_input_value(html, "redirect").as_deref(),
        Some("https://example.cybozu.com/o/ag.cgi?")
    );
}

#[test]
fn infers_schedule_index_url_from_base_url() {
    assert_eq!(
        infer_related_url(
            "https://example.cybozu.com/o/ag.cgi",
            "/o/ag.cgi?page=ScheduleIndex"
        )
        .as_deref(),
        Some("https://example.cybozu.com/o/ag.cgi?page=ScheduleIndex")
    );
}

#[test]
fn extracts_javascript_redirect_url() {
    let html = r#"
<html>
  <head>
    <script>location.replace("/login?redirect=https%3A%2F%2Fexample.cybozu.com%2Fo%2Fag.cgi%3F" + location.hash );</script>
  </head>
</html>
"#;

    assert_eq!(
        extract_js_redirect_url("https://example.cybozu.com/o/ag.cgi", html).as_deref(),
        Some(
            "https://example.cybozu.com/login?redirect=https%3A%2F%2Fexample.cybozu.com%2Fo%2Fag.cgi%3F"
        )
    );
}

#[test]
fn title_is_trimmed_and_missing_title_is_none() {
    assert_eq!(
        extract_title("<title>  スケジュール  </title>").as_deref(),
        Some("スケジュール")
    );
    assert_eq!(extract_title("<title>no end"), None);
    assert_eq!(extract_title("no title"), None);
}

#[test]
fn hidden_value_needs_the_named_input() {
    assert_eq!(extract_hidden_input_value("<input name=\"other\" value=\"x\">", "redirect"), None);
    assert_eq!(extract_hidden_input_value("<input name=\"redirect\">", "redirect"), None);
}

#[test]
fn query_parameter_is_decoded() {
    assert_eq!(
        extract_query_parameter(
            "https://example.cybozu.com/login?redirect=https%3A%2F%2Fexample.cybozu.com%2Fo%2Fag.cgi%3F",
            "redirect"
        )
        .as_deref(),
        Some("https://example.cybozu.com/o/ag.cgi?")
    );
    assert_eq!(extract_query_parameter("not a url", "redirect"), None);
    assert_eq!(extract_query_parameter("https://example.com/?a=1", "b"), None);
}

#[test]
fn result_token_is_read_from_json() {
    assert_eq!(
        extract_result_token(r#"{"result":{"token":"abc"}}"#).as_deref(),
        Some("abc")
    );
    assert_eq!(extract_result_token(r#"{"result":{}}"#), None);
    assert_eq!(extract_result_token("not json"), None);
}

#[test]
fn login_and_authenticated_pages_are_told_apart() {
    assert!(is_login_page("https://example.cybozu.com/login?x", ""));
    assert!(is_login_page("https://example.cybozu.com/o/ag.cgi", "<title>ログイン</title>"));
    assert!(!is_login_page("https://example.cybozu.com/o/ag.cgi", "<title>トップ</title>"));
    assert!(is_authenticated_page("https://example.cybozu.com/o/ag.cgi", "<title>トップ</title>"));
    assert!(!is_authenticated_page("https://example.cybozu.com/o/ag.cgi", "name=\"password\""));
    assert!(is_schedule_index_page(
        "https://example.cybozu.com/o/ag.cgi?page=ScheduleIndex",
        "スケジュール"
    ));
    assert!(!is_schedule_index_page("https://example.cybozu.com/o/ag.cgi", "スケジュール"));
    assert!(is_redirect_stub_page("リダイレクト中 location.replace('/x')"));
    assert!(!is_redirect_stub_page("location.replace('/x')"));
}

#[test]
fn body_hint_keeps_forty_words() {
    let words: Vec<String> = (0..50).map(|i| format!("w{i}")).collect();
    let body = words.join("\n  ");
    let hint = body_hint(&body);
    assert_eq!(hint, words[..40].join(" "));
    assert_eq!(body_hint("  a \t b  "), "a b");
}

#[test]
fn single_quoted_script_redirect_is_followed() {
    assert_eq!(
        extract_js_redirect_url("https://example.com/a/b", "location.replace('/c?d=1')").as_deref(),
        Some("https://example.com/c?d=1")
    );
    assert_eq!(extract_js_redirect_url("https://example.com/", "no redirect"), None);
}

#[test]
fn request_origin_is_scheme_and_host() {
    assert_eq!(
        request_origin("https://example.cybozu.com/api/auth/login.json?_lc=ja").as_deref(),
        Ok("https://example.cybozu.com")
    );
    assert!(request_origin("not a url").is_err());
}

#[test]
fn credential_sources_are_named() {
    let inline = CredentialPair {
        username: "u".to_string(),
        password: "p".to_string(),
        source: CredentialSource::Inline,
    };
    let env = CredentialPair {
        username: "u".to_string(),
        password: "p".to_string(),
        source: CredentialSource::Env {
            username_env: "A".to_string(),
            password_env: "B".to_string(),
        },
    };
    assert_eq!(credential_source_name(Some(&inline)), "inline");
    assert_eq!(credential_source_name(Some(&env)), "env");
    assert_eq!(credential_source_name(None), "none");
}
