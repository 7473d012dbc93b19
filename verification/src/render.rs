//! The text that is printed for a response, line by line, with the tint of
//! each part. Printing itself, and turning a tint into colour, is left to the
//! caller.

use vstd::prelude::*;
use vstd::string::*;
use crate::error::RenderError;
use crate::header::{header_views, Header};
use crate::response::{
    content_type_text, declares_json, get_content_type, lemma_no_content_type, media_view,
    mime_parse, names_content_type, MediaType, MediaTypeView, ResponseHead,
};

verus! {

/// The colour in which a part of the output is shown.
#[derive(Clone, Copy, Debug, PartialEq, Eq, Structural)]
pub enum Tint {
    Plain,
    Blue,
    Green,
    Cyan,
}

/// A piece of text in one tint.
#[derive(Debug)]
pub struct Span {
    pub text: String,
    pub tint: Tint,
}

/// A piece of text with its tint.
pub type SpanView = (Seq<char>, Tint);

impl View for Span {
    type V = SpanView;

    open spec fn view(&self) -> SpanView {
        (self.text@, self.tint)
    }
}

/// What one print statement puts out: its spans one after the other, then a
/// line feed. A span may hold line feeds of its own.
#[derive(Debug)]
pub struct Line {
    pub spans: Vec<Span>,
}

impl View for Line {
    type V = Seq<SpanView>;

    open spec fn view(&self) -> Seq<SpanView> {
        self.spans@.map_values(|s: Span| s@)
    }
}

/// The texts of a list of lines.
pub open spec fn line_views(lines: Seq<Line>) -> Seq<Seq<SpanView>> {
    lines.map_values(|l: Line| l@)
}

/// The status line: version, a blank, status, all in blue.
pub open spec fn status_line(version: Seq<char>, status: Seq<char>) -> Seq<SpanView> {
    seq![(version + " "@ + status, Tint::Blue)]
}

/// The line of one header field: the name in green, then `: ` and the value.
pub open spec fn header_line(header: (Seq<char>, Seq<char>)) -> Seq<SpanView> {
    seq![(header.0, Tint::Green), (": "@ + header.1, Tint::Plain)]
}

/// The lines of the header fields, in their order, closed by an empty line.
pub open spec fn header_lines(headers: Seq<(Seq<char>, Seq<char>)>) -> Seq<Seq<SpanView>> {
    headers.map_values(|h: (Seq<char>, Seq<char>)| header_line(h)).push(Seq::empty())
}

/// All that is printed before the body: the status line, the header fields,
/// an empty line.
pub open spec fn head_lines(
    version: Seq<char>,
    status: Seq<char>,
    headers: Seq<(Seq<char>, Seq<char>)>,
) -> Seq<Seq<SpanView>> {
    seq![status_line(version, status)] + header_lines(headers)
}

/// The line of the body. A body that is declared as JSON must be JSON
/// (`valid`); it is then shown as the formatter gave it (`pretty`), in cyan,
/// and cannot be shown where the formatter failed. Any other body is shown as
/// it came.
pub open spec fn body_line(
    json: bool,
    body: Seq<char>,
    valid: bool,
    pretty: Option<Seq<char>>,
) -> Result<Seq<SpanView>, RenderError> {
    if !json {
        Ok(seq![(body, Tint::Plain)])
    } else if !valid {
        Err(RenderError::MalformedJson)
    } else {
        match pretty {
            Some(text) => Ok(seq![(text, Tint::Cyan)]),
            None => Err(RenderError::MalformedJson),
        }
    }
}

/// The texts of a line that may have failed.
pub open spec fn line_result_view(r: Result<Line, RenderError>) -> Result<Seq<SpanView>, RenderError> {
    match r {
        Ok(line) => Ok(line@),
        Err(e) => Err(e),
    }
}

impl Line {
    /// A line without text.
    pub fn empty() -> (line: Line)
        ensures
            line@ == Seq::<SpanView>::empty(),
    {
        let line = Line { spans: Vec::new() };
        assert(line@ =~= Seq::<SpanView>::empty());
        line
    }

    /// A line of one span.
    pub fn single(text: String, tint: Tint) -> (line: Line)
        ensures
            line@ == seq![(text@, tint)],
    {
        let ghost t = text@;
        let mut spans: Vec<Span> = Vec::new();
        spans.push(Span { text, tint });
        let line = Line { spans };
        assert(line@ =~= seq![(t, tint)]);
        line
    }
}

/// The status line of a response.
pub fn render_status(head: &ResponseHead) -> (line: Line)
    ensures
        line@ == status_line(head.version@, head.status@),
{
    let text = head.version.clone().concat(" ").concat(head.status.as_str());
    Line::single(text, Tint::Blue)
}

/// The line of one header field.
pub fn render_header(header: &Header) -> (line: Line)
    ensures
        line@ == header_line(header@),
{
    let mut spans: Vec<Span> = Vec::new();
    spans.push(Span { text: header.name.clone(), tint: Tint::Green });
    let rest = String::from_str(": ").concat(header.value.as_str());
    spans.push(Span { text: rest, tint: Tint::Plain });
    let line = Line { spans };
    assert(line@ =~= header_line(header@));
    line
}

/// The lines of the header fields, closed by an empty line.
pub fn render_headers(headers: &Vec<Header>) -> (lines: Vec<Line>)
    ensures
        line_views(lines@) == header_lines(header_views(headers@)),
{
    let ghost views = header_views(headers@);
    let mut lines: Vec<Line> = Vec::new();
    let mut i: usize = 0;
    while i < headers.len()
        invariant
            i <= headers.len(),
            views == header_views(headers@),
            line_views(lines@) == views.take(i as int).map_values(
                |h: (Seq<char>, Seq<char>)| header_line(h),
            ),
        decreases headers.len() - i,
    {
        let line = render_header(&headers[i]);
        assert(views[i as int] == headers@[i as int]@);
        let ghost before = line_views(lines@);
        let ghost added = line@;
        lines.push(line);
        assert(line_views(lines@) =~= before.push(added));
        assert(views.take(i + 1) =~= views.take(i as int).push(views[i as int]));
        assert(line_views(lines@) =~= views.take(i + 1).map_values(
            |h: (Seq<char>, Seq<char>)| header_line(h),
        ));
        i = i + 1;
    }
    assert(views.take(i as int) =~= views);
    lines.push(Line::empty());
    assert(line_views(lines@) =~= header_lines(views));
    lines
}

/// All that is printed before the body is read.
pub fn render_head(head: &ResponseHead) -> (lines: Vec<Line>)
    ensures
        line_views(lines@) == head_lines(head.version@, head.status@, header_views(head.headers@)),
{
    let mut lines: Vec<Line> = Vec::new();
    lines.push(render_status(head));
    let mut rest = render_headers(&head.headers);
    let ghost first = line_views(lines@);
    let ghost second = line_views(rest@);
    lines.append(&mut rest);
    assert(line_views(lines@) =~= first + second);
    assert(first =~= seq![status_line(head.version@, head.status@)]);
    lines
}

/// Whether `serde_json::from_str` reads `body` as one `serde_json::Value`.
pub uninterp spec fn is_json_text(body: Seq<char>) -> bool;

/// Parses `body` with `serde_json::from_str` into a `serde_json::Value` and
/// reports whether that returned `Ok`. The value is dropped. Trusted: the
/// answer is the parser's, for this text. The parser gives up on values
/// nested deeper than 128 levels, so such a body counts as no JSON.
#[verifier::external_body]
fn json_parses(body: &str) -> (ok: bool)
    ensures
        ok == is_json_text(body@),
{
    serde_json::from_str::<serde_json::Value>(body).is_ok()
}

/// What `jsonxf` makes of `body`: the formatted text, or `None` where it
/// returns an error.
pub uninterp spec fn json_pretty(body: Seq<char>) -> Option<Seq<char>>;

/// Calls `jsonxf::pretty_print` on `body`. Trusted: the result is the one that
/// `jsonxf` gives for this text. `jsonxf` re-indents what it is given and does
/// not check that it is JSON; its error is kept as it comes.
#[verifier::external_body]
fn pretty_print(body: &str) -> (r: Result<String, String>)
    ensures
        match r {
            Ok(text) => json_pretty(body@) == Some(text@),
            Err(_) => json_pretty(body@) is None,
        },
{
    jsonxf::pretty_print(body)
}

/// The line of a JSON body, given what the parser and the formatter said of
/// it: the formatted text in cyan, or `MalformedJson` where the body is no
/// JSON or the formatter failed.
pub fn json_body(valid: bool, pretty: Result<String, String>) -> (r: Result<Line, RenderError>)
    ensures
        match pretty {
            Ok(text) if valid => r matches Ok(line) && line@ == seq![(text@, Tint::Cyan)],
            _ => r matches Err(e) && e == RenderError::MalformedJson,
        },
{
    if !valid {
        return Err(RenderError::MalformedJson);
    }
    match pretty {
        Ok(text) => Ok(Line::single(text, Tint::Cyan)),
        Err(_) => Err(RenderError::MalformedJson),
    }
}

/// The line of the body. A body whose declared type is exactly
/// `application/json` is checked and formatted as JSON, and fails with
/// `MalformedJson` where it is none. Every other body, and a body without a
/// declared type, is shown as it came and never fails.
pub fn render_body(m: Option<MediaType>, body: &str) -> (r: Result<Line, RenderError>)
    ensures
        line_result_view(r) == body_line(
            declares_json(media_view(m)),
            body@,
            is_json_text(body@),
            json_pretty(body@),
        ),
{
    let json = match &m {
        Some(m) => m.is_json(),
        None => false,
    };
    if json {
        json_body(json_parses(body), pretty_print(body))
    } else {
        Ok(Line::single(body.to_owned(), Tint::Plain))
    }
}

/// The text of a body: its bytes read as UTF-8, or `None` where they are not
/// UTF-8.
pub open spec fn body_text(bytes: Seq<u8>) -> Option<Seq<char>> {
    if vstd::utf8::valid_utf8(bytes) {
        Some(vstd::utf8::decode_utf8(bytes))
    } else {
        None
    }
}

/// Calls `String::from_utf8` on `bytes`. Trusted: it returns `Ok` exactly for
/// UTF-8, with the text that the bytes encode.
#[verifier::external_body]
fn text_of_bytes(bytes: Vec<u8>) -> (r: Option<String>)
    ensures
        match r {
            Some(text) => body_text(bytes@) == Some(text@),
            None => body_text(bytes@) is None,
        },
{
    String::from_utf8(bytes).ok()
}

/// The body as text. Fails with `InvalidText` exactly when the bytes are not
/// UTF-8.
pub fn decode_body(bytes: Vec<u8>) -> (r: Result<String, RenderError>)
    ensures
        match r {
            Ok(text) => body_text(bytes@) == Some(text@),
            Err(e) => e == RenderError::InvalidText && body_text(bytes@) is None,
        },
{
    match text_of_bytes(bytes) {
        Some(text) => Ok(text),
        None => Err(RenderError::InvalidText),
    }
}

/// What was printed for a response, and how printing ended.
#[derive(Debug)]
pub struct Rendered {
    /// The lines in the order in which they are printed.
    pub lines: Vec<Line>,
    /// Why the body was not printed, if it was not.
    pub error: Option<RenderError>,
}

/// The declared type of a body, as the header fields give it.
pub open spec fn declared_type(headers: Seq<(Seq<char>, Seq<char>)>) -> Option<MediaTypeView> {
    match content_type_text(headers) {
        Some(text) => mime_parse(text),
        None => None,
    }
}

/// A response without a `Content-Type` field shows its body as it came,
/// whatever the body holds, and does not fail.
pub proof fn lemma_undeclared_body_is_verbatim(
    headers: Seq<(Seq<char>, Seq<char>)>,
    body: Seq<char>,
    valid: bool,
    pretty: Option<Seq<char>>,
)
    requires
        forall|i: int| 0 <= i < headers.len() ==> !names_content_type(#[trigger] headers[i].0),
    ensures
        body_line(declares_json(declared_type(headers)), body, valid, pretty) == Ok::<
            Seq<SpanView>,
            RenderError,
        >(seq![(body, Tint::Plain)]),
{
    lemma_no_content_type(headers);
}

/// What stands in place of the body line, given the header fields and the
/// bytes of the body: the line, or the reason why there is none.
pub open spec fn response_body_line(
    headers: Seq<(Seq<char>, Seq<char>)>,
    bytes: Seq<u8>,
) -> Result<Seq<SpanView>, RenderError> {
    match body_text(bytes) {
        None => Err(RenderError::InvalidText),
        Some(text) => body_line(
            declares_json(declared_type(headers)),
            text,
            is_json_text(text),
            json_pretty(text),
        ),
    }
}

/// The line of a body as it was received: the bytes are read as UTF-8, and
/// the text is shown as the header fields declare it. Fails with `InvalidText`
/// where the bytes are no UTF-8, and with `MalformedJson` where they are
/// declared as JSON and are none.
pub fn render_received(headers: &Vec<Header>, body: Vec<u8>) -> (r: Result<Line, RenderError>)
    ensures
        line_result_view(r) == response_body_line(header_views(headers@), body@),
{
    let m = get_content_type(headers);
    match decode_body(body) {
        Ok(text) => render_body(m, text.as_str()),
        Err(e) => Err(e),
    }
}

/// All that is printed for a response: the head, then the body. Where the
/// body cannot be shown, the head stands alone and the error says why.
pub fn render_response(head: &ResponseHead, body: Vec<u8>) -> (out: Rendered)
    ensures
        ({
            let headers = header_views(head.headers@);
            let before = head_lines(head.version@, head.status@, headers);
            match response_body_line(headers, body@) {
                Ok(line) => line_views(out.lines@) == before.push(line) && out.error is None,
                Err(e) => line_views(out.lines@) == before && out.error == Some(e),
            }
        }),
{
    let mut lines = render_head(head);
    match render_received(&head.headers, body) {
        Ok(line) => {
            let ghost before = line_views(lines@);
            lines.push(line);
            assert(line_views(lines@) =~= before.push(line@));
            Rendered { lines, error: None }
        },
        Err(e) => Rendered { lines, error: Some(e) },
    }
}

} // verus!
