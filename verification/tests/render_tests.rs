use httpie::error::RenderError;
use httpie::header::Header;
use httpie::render::{
    decode_body, json_body, render_body, render_head, render_header, render_headers,
    render_received, render_response, render_status, Line, Tint,
};
use httpie::response::{get_content_type, MediaType, ResponseHead};

fn head(headers: Vec<Header>) -> ResponseHead {
    ResponseHead { version: "HTTP/1.1".to_string(), status: "200 OK".to_string(), headers }
}

fn spans(line: &Line) -> Vec<(&str, Tint)> {
    line.spans.iter().map(|s| (s.text.as_str(), s.tint)).collect()
}

fn media(kind: &str, subtype: &str) -> MediaType {
    MediaType { kind: kind.to_string(), subtype: subtype.to_string(), suffix: None, params: Vec::new() }
}

#[test]
fn status_line_is_version_blank_status_in_blue() {
    let line = render_status(&head(Vec::new()));
    assert_eq!(spans(&line), vec![("HTTP/1.1 200 OK", Tint::Blue)]);
    let other = ResponseHead {
        version: "HTTP/2.0".to_string(),
        status: "404 Not Found".to_string(),
        headers: Vec::new(),
    };
    assert_eq!(spans(&render_status(&other)), vec![("HTTP/2.0 404 Not Found", Tint::Blue)]);
}

#[test]
fn header_line_is_green_name_then_value() {
    let line = render_header(&Header::new("content-length", "5"));
    assert_eq!(spans(&line), vec![("content-length", Tint::Green), (": 5", Tint::Plain)]);
}

#[test]
fn header_lines_end_with_an_empty_line() {
    let lines = render_headers(&vec![Header::new("a", "1"), Header::new("b", "2")]);
    assert_eq!(lines.len(), 3);
    assert_eq!(spans(&lines[0]), vec![("a", Tint::Green), (": 1", Tint::Plain)]);
    assert_eq!(spans(&lines[1]), vec![("b", Tint::Green), (": 2", Tint::Plain)]);
    assert!(lines[2].spans.is_empty());
    let none = render_headers(&Vec::new());
    assert_eq!(none.len(), 1);
    assert!(none[0].spans.is_empty());
}

#[test]
fn head_is_status_headers_empty() {
    let lines = render_head(&head(vec![Header::new("server", "nginx")]));
    assert_eq!(lines.len(), 3);
    assert_eq!(spans(&lines[0]), vec![("HTTP/1.1 200 OK", Tint::Blue)]);
    assert_eq!(spans(&lines[1]), vec![("server", Tint::Green), (": nginx", Tint::Plain)]);
    assert!(lines[2].spans.is_empty());
}

#[test]
fn head_without_header_fields_is_status_then_empty() {
    let lines = render_head(&head(Vec::new()));
    assert_eq!(lines.len(), 2);
    assert_eq!(spans(&lines[0]), vec![("HTTP/1.1 200 OK", Tint::Blue)]);
    assert!(lines[1].spans.is_empty());
}

#[test]
fn json_body_is_shown_pretty() {
    let m = get_content_type(&vec![Header::new("Content-Type", "application/json")]);
    let line = render_body(m, "{\"x\":1}").unwrap();
    assert_eq!(spans(&line), vec![("{\n  \"x\": 1\n}", Tint::Cyan)]);
    assert_ne!(line.spans[0].text, "{\"x\":1}");
}

#[test]
fn nested_json_is_indented_by_two_blanks() {
    let line = render_body(Some(media("application", "json")), "{\"a\":[1,2],\"b\":{}}").unwrap();
    assert_eq!(
        spans(&line),
        vec![("{\n  \"a\": [\n    1,\n    2\n  ],\n  \"b\": {}\n}", Tint::Cyan)]
    );
}

#[test]
fn plain_text_body_is_shown_verbatim() {
    let m = get_content_type(&vec![Header::new("Content-Type", "text/plain")]);
    let line = render_body(m, "hello").unwrap();
    assert_eq!(spans(&line), vec![("hello", Tint::Plain)]);
}

#[test]
fn body_without_declared_type_is_shown_verbatim() {
    let line = render_body(None, "{\"x\":1}").unwrap();
    assert_eq!(spans(&line), vec![("{\"x\":1}", Tint::Plain)]);
    let line = render_body(None, "").unwrap();
    assert_eq!(spans(&line), vec![("", Tint::Plain)]);
}

#[test]
fn json_with_charset_is_shown_verbatim() {
    let m = get_content_type(&vec![Header::new("Content-Type", "application/json; charset=utf-8")]);
    let line = render_body(m, "{\"x\":1}").unwrap();
    assert_eq!(spans(&line), vec![("{\"x\":1}", Tint::Plain)]);
}

#[test]
fn failed_formatting_is_malformed_json() {
    let r = json_body(true, Err("bad".to_string()));
    assert_eq!(r.unwrap_err(), RenderError::MalformedJson);
}

#[test]
fn rejected_body_is_malformed_json_whatever_the_formatter_gave() {
    let r = json_body(false, Ok("{\n}".to_string()));
    assert_eq!(r.unwrap_err(), RenderError::MalformedJson);
    let r = json_body(false, Err("bad".to_string()));
    assert_eq!(r.unwrap_err(), RenderError::MalformedJson);
}

#[test]
fn formatted_text_is_taken_as_given() {
    let line = json_body(true, Ok("{\n}".to_string())).unwrap();
    assert_eq!(spans(&line), vec![("{\n}", Tint::Cyan)]);
}

#[test]
fn body_that_is_no_json_is_malformed() {
    let bodies = vec!["hello", "", "{\"x\":", "{\"x\":1}}", "[1,2", "{x:1}", "{\"a\":1,}", "nul"];
    for body in bodies.iter() {
        let r = render_body(Some(media("application", "json")), body);
        assert_eq!(r.unwrap_err(), RenderError::MalformedJson);
    }
}

#[test]
fn json_values_of_every_kind_are_formatted() {
    let cases = vec![
        ("null", "null"),
        (" true ", "true"),
        ("12.5e3", "12.5e3"),
        ("\"a b\"", "\"a b\""),
        ("[]", "[]"),
        ("{}", "{}"),
        ("[ 1 , \"x y\" ]", "[\n  1,\n  \"x y\"\n]"),
        ("{\"k\" : \"a\\\"b\"}", "{\n  \"k\": \"a\\\"b\"\n}"),
    ];
    for (body, want) in cases.iter() {
        let line = render_body(Some(media("application", "json")), body).unwrap();
        assert_eq!(spans(&line), vec![(*want, Tint::Cyan)]);
    }
}

#[test]
fn bytes_of_utf8_text_decode_to_that_text() {
    assert_eq!(decode_body("hello".as_bytes().to_vec()).unwrap(), "hello");
    assert_eq!(decode_body("héllo wörld 日本".as_bytes().to_vec()).unwrap(), "héllo wörld 日本");
    assert_eq!(decode_body(Vec::new()).unwrap(), "");
    assert_eq!(decode_body(vec![0x7b, 0x7d]).unwrap(), "{}");
}

#[test]
fn bytes_that_are_no_utf8_are_invalid_text() {
    assert_eq!(decode_body(vec![0xff, 0xfe]).unwrap_err(), RenderError::InvalidText);
    assert_eq!(decode_body(vec![0x68, 0xc3]).unwrap_err(), RenderError::InvalidText);
    assert_eq!(decode_body(vec![0xed, 0xa0, 0x80]).unwrap_err(), RenderError::InvalidText);
    assert_eq!(decode_body(vec![0xc0, 0xaf]).unwrap_err(), RenderError::InvalidText);
}

#[test]
fn whole_json_response() {
    let h = head(vec![Header::new("Content-Type", "application/json"), Header::new("x", "y")]);
    let out = render_response(&h, "{\"x\":1}".as_bytes().to_vec());
    assert!(out.error.is_none());
    assert_eq!(out.lines.len(), 5);
    assert_eq!(spans(&out.lines[0]), vec![("HTTP/1.1 200 OK", Tint::Blue)]);
    assert_eq!(
        spans(&out.lines[1]),
        vec![("Content-Type", Tint::Green), (": application/json", Tint::Plain)]
    );
    assert_eq!(spans(&out.lines[2]), vec![("x", Tint::Green), (": y", Tint::Plain)]);
    assert!(out.lines[3].spans.is_empty());
    assert_eq!(spans(&out.lines[4]), vec![("{\n  \"x\": 1\n}", Tint::Cyan)]);
}

#[test]
fn whole_plain_response() {
    let h = head(vec![Header::new("Content-Type", "text/plain")]);
    let out = render_response(&h, "hello".as_bytes().to_vec());
    assert!(out.error.is_none());
    assert_eq!(out.lines.len(), 4);
    assert_eq!(
        spans(&out.lines[1]),
        vec![("Content-Type", Tint::Green), (": text/plain", Tint::Plain)]
    );
    assert!(out.lines[2].spans.is_empty());
    assert_eq!(spans(&out.lines[3]), vec![("hello", Tint::Plain)]);
}

#[test]
fn whole_response_without_content_type() {
    let h = head(vec![Header::new("content-length", "7")]);
    let out = render_response(&h, "{\"x\":1}".as_bytes().to_vec());
    assert!(out.error.is_none());
    assert_eq!(out.lines.len(), 4);
    assert_eq!(spans(&out.lines[3]), vec![("{\"x\":1}", Tint::Plain)]);
}

#[test]
fn whole_response_with_unparseable_content_type() {
    let h = head(vec![Header::new("Content-Type", "not a type")]);
    let out = render_response(&h, "{\"x\":1}".as_bytes().to_vec());
    assert!(out.error.is_none());
    assert_eq!(spans(&out.lines[3]), vec![("{\"x\":1}", Tint::Plain)]);
}

#[test]
fn error_status_is_rendered_like_any_other() {
    let h = ResponseHead {
        version: "HTTP/1.1".to_string(),
        status: "500 Internal Server Error".to_string(),
        headers: vec![Header::new("Content-Type", "text/plain")],
    };
    let out = render_response(&h, "oops".as_bytes().to_vec());
    assert!(out.error.is_none());
    assert_eq!(spans(&out.lines[0]), vec![("HTTP/1.1 500 Internal Server Error", Tint::Blue)]);
    assert_eq!(spans(&out.lines[3]), vec![("oops", Tint::Plain)]);
}

#[test]
fn whole_response_with_malformed_json_stops_after_the_head() {
    let h = head(vec![Header::new("Content-Type", "application/json")]);
    let out = render_response(&h, "{\"x\":".as_bytes().to_vec());
    assert_eq!(out.error, Some(RenderError::MalformedJson));
    assert_eq!(out.lines.len(), 3);
    assert_eq!(spans(&out.lines[0]), vec![("HTTP/1.1 200 OK", Tint::Blue)]);
    assert!(out.lines[2].spans.is_empty());
}

#[test]
fn whole_response_with_undecodable_body_stops_after_the_head() {
    let h = head(vec![Header::new("Content-Type", "text/plain")]);
    let out = render_response(&h, vec![0x80, 0x81]);
    assert_eq!(out.error, Some(RenderError::InvalidText));
    assert_eq!(out.lines.len(), 3);
}

#[test]
fn malformed_json_under_another_type_is_no_error() {
    let h = head(vec![Header::new("Content-Type", "text/plain")]);
    let out = render_response(&h, "{\"x\":".as_bytes().to_vec());
    assert!(out.error.is_none());
    assert_eq!(spans(&out.lines[3]), vec![("{\"x\":", Tint::Plain)]);
}

#[test]
fn received_body_follows_the_header_fields() {
    let json = vec![Header::new("content-type", "application/json")];
    let line = render_received(&json, "[1]".as_bytes().to_vec()).unwrap();
    assert_eq!(spans(&line), vec![("[\n  1\n]", Tint::Cyan)]);
    let r = render_received(&json, "[1".as_bytes().to_vec());
    assert_eq!(r.unwrap_err(), RenderError::MalformedJson);
    let r = render_received(&json, vec![0xff]);
    assert_eq!(r.unwrap_err(), RenderError::InvalidText);
    let line = render_received(&Vec::new(), "[1]".as_bytes().to_vec()).unwrap();
    assert_eq!(spans(&line), vec![("[1]", Tint::Plain)]);
}
