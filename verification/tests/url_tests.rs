use httpie::error::ParseError;
use httpie::url::{gate_url, parse_url};

#[test]
fn accepts_a_plain_http_url() {
    assert_eq!(parse_url("http://example.com").unwrap(), "http://example.com");
}

#[test]
fn accepts_an_https_url_with_path_and_query() {
    assert_eq!(
        parse_url("https://example.com/path?x=1").unwrap(),
        "https://example.com/path?x=1"
    );
}

#[test]
fn rejects_a_text_without_scheme() {
    assert_eq!(parse_url("not-a-url").unwrap_err(), ParseError::InvalidUrl);
}

#[test]
fn rejects_the_empty_url() {
    assert_eq!(parse_url("").unwrap_err(), ParseError::InvalidUrl);
}

#[test]
fn rejects_a_relative_reference() {
    assert_eq!(parse_url("/just/a/path").unwrap_err(), ParseError::InvalidUrl);
    assert_eq!(parse_url("example.com/path").unwrap_err(), ParseError::InvalidUrl);
}

#[test]
fn rejects_a_malformed_authority() {
    assert_eq!(parse_url("http://").unwrap_err(), ParseError::InvalidUrl);
    assert_eq!(parse_url("http://exa mple.com").unwrap_err(), ParseError::InvalidUrl);
    assert_eq!(parse_url("http://example.com:notaport/").unwrap_err(), ParseError::InvalidUrl);
}

#[test]
fn returns_the_text_as_it_was_given() {
    assert_eq!(parse_url("HTTP://EXAMPLE.com").unwrap(), "HTTP://EXAMPLE.com");
    assert_eq!(parse_url("http://example.com:80/a/../b").unwrap(), "http://example.com:80/a/../b");
}

#[test]
fn rejects_a_url_without_host() {
    assert_eq!(parse_url("mailto:user@example.com").unwrap_err(), ParseError::InvalidUrl);
    assert_eq!(parse_url("data:text/plain,Stuff").unwrap_err(), ParseError::InvalidUrl);
    assert_eq!(parse_url("unix:/run/foo.socket").unwrap_err(), ParseError::InvalidUrl);
    assert_eq!(parse_url("urn:isbn:0451450523").unwrap_err(), ParseError::InvalidUrl);
    assert_eq!(parse_url("file:///tmp/notes.txt").unwrap_err(), ParseError::InvalidUrl);
}

#[test]
fn accepts_other_schemes_with_a_host() {
    assert_eq!(parse_url("ftp://rms@example.com").unwrap(), "ftp://rms@example.com");
    assert_eq!(parse_url("redis://cache.example.com:6379/0").unwrap(), "redis://cache.example.com:6379/0");
    assert_eq!(parse_url("http://127.0.0.1:8080/").unwrap(), "http://127.0.0.1:8080/");
    assert_eq!(parse_url("http://[::1]/").unwrap(), "http://[::1]/");
}

#[test]
fn gate_follows_the_parser_answer() {
    assert_eq!(gate_url("anything", Some(true)).unwrap(), "anything");
    assert_eq!(gate_url("mailto:user@example.com", Some(false)).unwrap_err(), ParseError::InvalidUrl);
    assert_eq!(gate_url("http://example.com", None).unwrap_err(), ParseError::InvalidUrl);
}
