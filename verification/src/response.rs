//! What a response tells before its body is read: the status line, the header
//! fields, and the media type that the header fields declare.

use vstd::prelude::*;
use crate::header::{header_views, Header};
use crate::text::{eq_ignore_ascii_case, lowered};

verus! {

/// The head of a response. `version` and `status` are the texts under which
/// the status line shows them, such as `HTTP/1.1` and `200 OK`.
#[derive(Debug)]
pub struct ResponseHead {
    pub version: String,
    pub status: String,
    pub headers: Vec<Header>,
}

/// A media type, taken apart: `kind/subtype+suffix; name=value; ...`.
#[derive(Debug)]
pub struct MediaType {
    pub kind: String,
    pub subtype: String,
    pub suffix: Option<String>,
    pub params: Vec<(String, String)>,
}

/// The texts of a media type.
pub struct MediaTypeView {
    pub kind: Seq<char>,
    pub subtype: Seq<char>,
    pub suffix: Option<Seq<char>>,
    pub params: Seq<(Seq<char>, Seq<char>)>,
}

impl View for MediaType {
    type V = MediaTypeView;

    open spec fn view(&self) -> MediaTypeView {
        MediaTypeView {
            kind: self.kind@,
            subtype: self.subtype@,
            suffix: match self.suffix {
                Some(s) => Some(s@),
                None => None,
            },
            params: self.params@.map_values(|p: (String, String)| (p.0@, p.1@)),
        }
    }
}

/// The texts of a media type that may be missing.
pub open spec fn media_view(m: Option<MediaType>) -> Option<MediaTypeView> {
    match m {
        Some(m) => Some(m@),
        None => None,
    }
}

/// Whether `m` is `application/json` and nothing else: no suffix, no
/// parameter.
pub open spec fn is_plain_json(m: MediaTypeView) -> bool {
    &&& m.kind == "application"@
    &&& m.subtype == "json"@
    &&& m.suffix is None
    &&& m.params.len() == 0
}

/// Whether a body of the declared type is shown as JSON.
pub open spec fn declares_json(m: Option<MediaTypeView>) -> bool {
    m matches Some(m) && is_plain_json(m)
}

impl MediaType {
    /// Whether this is `application/json` and nothing else.
    pub fn is_json(&self) -> (r: bool)
        ensures
            r == is_plain_json(self@),
    {
        self.kind == "application".to_owned() && self.subtype == "json".to_owned()
            && self.suffix.is_none() && self.params.len() == 0
    }
}

/// What the `mime` crate makes of `text`: the parts of the media type, or
/// `None` where it rejects the text.
pub uninterp spec fn mime_parse(text: Seq<char>) -> Option<MediaTypeView>;

/// Parses `text` with the `FromStr` impl of `mime::Mime` and copies the parts
/// of the result out of it: `type_()`, `subtype()`, `suffix()` and `params()`,
/// each name by its `as_str()`. Trusted: the parts are those that `mime` gives
/// for this text, and `None` stands for its parse error.
#[verifier::external_body]
fn parse_mime(text: &str) -> (r: Option<MediaType>)
    ensures
        media_view(r) == mime_parse(text@),
{
    match text.parse::<mime::Mime>() {
        Ok(m) => Some(
            MediaType {
                kind: m.type_().as_str().to_string(),
                subtype: m.subtype().as_str().to_string(),
                suffix: m.suffix().map(|s| s.as_str().to_string()),
                params: m.params().map(|(n, v)| (n.as_str().to_string(), v.as_str().to_string())).collect(),
            },
        ),
        Err(_) => None,
    }
}

/// `name` is the name of the header field that declares the media type.
pub open spec fn names_content_type(name: Seq<char>) -> bool {
    lowered(name) == lowered("content-type"@)
}

/// `i` is the place of the first `Content-Type` field among `headers`.
pub open spec fn is_first_content_type(headers: Seq<(Seq<char>, Seq<char>)>, i: int) -> bool {
    &&& 0 <= i < headers.len()
    &&& names_content_type(headers[i].0)
    &&& forall|j: int| 0 <= j < i ==> !names_content_type(#[trigger] headers[j].0)
}

/// The value of the first `Content-Type` field among `headers`. The case of
/// the letters of a field's name does not count.
pub open spec fn content_type_text(headers: Seq<(Seq<char>, Seq<char>)>) -> Option<Seq<char>> {
    if exists|i: int| is_first_content_type(headers, i) {
        Some(headers[choose|i: int| is_first_content_type(headers, i)].1)
    } else {
        None
    }
}

/// The first `Content-Type` field decides, wherever it stands.
pub proof fn lemma_content_type_at(headers: Seq<(Seq<char>, Seq<char>)>, i: int)
    requires
        is_first_content_type(headers, i),
    ensures
        content_type_text(headers) == Some(headers[i].1),
{
    let c = choose|c: int| is_first_content_type(headers, c);
    if c < i {
        assert(!names_content_type(headers[c].0));
    } else if i < c {
        assert(!names_content_type(headers[i].0));
    }
}

/// Without a `Content-Type` field there is no declared text.
pub proof fn lemma_no_content_type(headers: Seq<(Seq<char>, Seq<char>)>)
    requires
        forall|i: int| 0 <= i < headers.len() ==> !names_content_type(#[trigger] headers[i].0),
    ensures
        content_type_text(headers) is None,
{
    if exists|i: int| is_first_content_type(headers, i) {
        let i = choose|i: int| is_first_content_type(headers, i);
        assert(!names_content_type(headers[i].0));
    }
}

/// The value of the first `Content-Type` field among `headers`.
pub fn content_type_value(headers: &Vec<Header>) -> (r: Option<&str>)
    ensures
        match r {
            Some(text) => content_type_text(header_views(headers@)) == Some(text@),
            None => content_type_text(header_views(headers@)) is None,
        },
{
    let ghost views = header_views(headers@);
    let mut i: usize = 0;
    while i < headers.len()
        invariant
            i <= headers.len(),
            views == header_views(headers@),
            forall|j: int| 0 <= j < i ==> !names_content_type(#[trigger] views[j].0),
        decreases headers.len() - i,
    {
        let header = &headers[i];
        assert(views[i as int] == header@);
        if eq_ignore_ascii_case(header.name.as_str(), "content-type") {
            proof {
                lemma_content_type_at(views, i as int);
            }
            return Some(header.value.as_str());
        }
        i = i + 1;
    }
    proof {
        lemma_no_content_type(views);
    }
    None
}

/// The media type that the header fields declare. There is none where no
/// `Content-Type` field stands among them, and none where the value of the
/// first such field is no media type.
pub fn get_content_type(headers: &Vec<Header>) -> (r: Option<MediaType>)
    ensures
        media_view(r) == match content_type_text(header_views(headers@)) {
            Some(text) => mime_parse(text),
            None => None,
        },
{
    match content_type_value(headers) {
        Some(text) => parse_mime(text),
        None => None,
    }
}

} // verus!
