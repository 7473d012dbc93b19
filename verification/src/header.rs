//! Header fields, of requests and of responses.

use vstd::prelude::*;

verus! {

/// One header field: a name and a value.
#[derive(Debug)]
pub struct Header {
    pub name: String,
    pub value: String,
}

impl View for Header {
    type V = (Seq<char>, Seq<char>);

    open spec fn view(&self) -> (Seq<char>, Seq<char>) {
        (self.name@, self.value@)
    }
}

/// The texts of a list of header fields.
pub open spec fn header_views(headers: Seq<Header>) -> Seq<(Seq<char>, Seq<char>)> {
    headers.map_values(|h: Header| h@)
}

impl Header {
    /// A header field with the given name and value.
    pub fn new(name: &str, value: &str) -> (h: Header)
        ensures
            h@ == (name@, value@),
    {
        Header { name: name.to_owned(), value: value.to_owned() }
    }
}

/// The two header fields that every request of this client carries: a marker
/// of the client, and its user agent.
pub fn default_headers() -> (r: Vec<Header>)
    ensures
        header_views(r@) == seq![("X-POWERD-BY"@, "Rust"@), ("user-agent"@, "Rust Httpie"@)],
{
    let mut r: Vec<Header> = Vec::new();
    r.push(Header::new("X-POWERD-BY", "Rust"));
    r.push(Header::new("user-agent", "Rust Httpie"));
    assert(header_views(r@) =~= seq![("X-POWERD-BY"@, "Rust"@), ("user-agent"@, "Rust Httpie"@)]);
    r
}

} // verus!
