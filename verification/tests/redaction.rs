use sonoryn::redaction::{redact_line, redact_sensitive, redact_urls};

#[test]
fn removes_signed_media_urls() {
    let input = "backend failed for https://cdn.example.test/audio?expire=123&sig=secret retrying";
    let redacted = redact_sensitive(input);
    assert_eq!(
        redacted,
        "backend failed for [REDACTED_URL] retrying"
    );
    assert!(!redacted.contains("secret"));
    assert!(!redacted.contains("cdn.example.test"));
}

#[test]
fn removes_authorization_and_cookie_credentials() {
    let authorization = redact_sensitive("Authorization: Bot super-secret-token");
    let cookie = redact_sensitive("Cookie: session=super-secret-cookie");

    assert_eq!(authorization, "Authorization: [REDACTED]");
    assert_eq!(cookie, "Cookie: [REDACTED]");
    assert!(!authorization.contains("super-secret-token"));
    assert!(!cookie.contains("super-secret-cookie"));
}

#[test]
fn preserves_non_sensitive_diagnostics() {
    assert_eq!(
        redact_sensitive("ERROR: media source returned 403"),
        "ERROR: media source returned 403"
    );
}

#[test]
fn redacts_each_line_by_itself() {
    assert_eq!(
        redact_sensitive("one http://a.test/x\r\nSet-COOKIE: k=v http://b.test\n\nlast\n"),
        "one [REDACTED_URL]\nSet-COOKIE: [REDACTED]\n\nlast"
    );
    assert_eq!(redact_sensitive(""), "");
}

#[test]
fn redacting_urls_twice_changes_nothing_more() {
    let line = "hhttp://a https://b?x=http://c\thttps:/ http://";
    let once = redact_urls(line);
    assert_eq!(once, "h[REDACTED_URL] [REDACTED_URL]\thttps:/ [REDACTED_URL]");
    assert_eq!(redact_urls(&once), once);
}

#[test]
fn what_follows_a_header_does_not_matter() {
    assert_eq!(
        redact_line("x authorization: one"),
        redact_line("x authorization: two cookie: three")
    );
    assert_eq!(redact_line("ÄCookie: a"), "ÄCookie: [REDACTED]");
}

#[test]
fn what_stands_before_a_header_is_redacted_too() {
    let redacted =
        redact_sensitive("https://cdn.test/a?sig=k Cookie: s=1 Authorization: Bot t");
    assert_eq!(redacted, "[REDACTED_URL] Cookie: [REDACTED]");
    assert!(!redacted.contains("sig=k") && !redacted.contains("s=1") && !redacted.contains("Bot t"));
    assert_eq!(
        redact_sensitive("a AUTHORIZATION: x cookie: y"),
        "a AUTHORIZATION: [REDACTED]"
    );
    assert_eq!(redact_line("http://x/cookie:secret"), "[REDACTED_URL] [REDACTED]");
}
