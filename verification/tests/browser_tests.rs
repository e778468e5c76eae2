use cbzcal::browser::validate_browser_url;

#[test]
fn validate_browser_url_accepts_http() {
    assert!(validate_browser_url("http://example.com").is_ok());
}

#[test]
fn validate_browser_url_accepts_https() {
    assert!(validate_browser_url("https://example.com/path?q=1").is_ok());
}

#[test]
fn validate_browser_url_rejects_file_scheme() {
    let err = validate_browser_url("file:///etc/passwd").unwrap_err();
    assert!(err.to_string().contains("http"));
}

#[test]
fn validate_browser_url_rejects_javascript_scheme() {
    assert!(validate_browser_url("javascript:alert(1)").is_err());
}

#[test]
fn validate_browser_url_rejects_data_scheme() {
    assert!(validate_browser_url("data:text/html,<script>alert(1)</script>").is_err());
}

#[test]
fn validate_browser_url_rejects_empty_string() {
    assert!(validate_browser_url("").is_err());
}

#[test]
fn validate_browser_url_rejects_no_scheme() {
    assert!(validate_browser_url("example.com/path").is_err());
}

#[test]
fn refusal_names_the_address() {
    assert_eq!(
        validate_browser_url("ftp://x").unwrap_err(),
        "ブラウザで開けるのは http:// または https:// の URL のみです: ftp://x"
    );
}
