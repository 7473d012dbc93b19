//! The commands of the client, as they stand after the arguments were checked.

use vstd::prelude::*;
use crate::body::{pair_views, Entry};
use crate::error::ParseError;
use crate::kv::KvPair;
use crate::url::{is_absolute_url, parse_url};

verus! {

/// `get <url>`: fetch a URL.
#[derive(Debug)]
pub struct Get {
    url: String,
}

impl Get {
    #[verifier::type_invariant]
    spec fn url_checked(&self) -> bool {
        is_absolute_url(self.url@)
    }

    /// The URL to fetch.
    pub closed spec fn url_view(&self) -> Seq<char> {
        self.url@
    }

    /// The command `get <url>`, if `url` is an absolute URL.
    pub fn new(url: &str) -> (r: Result<Get, ParseError>)
        ensures
            match r {
                Ok(get) => is_absolute_url(url@) && get.url_view() == url@,
                Err(e) => !is_absolute_url(url@) && e == ParseError::InvalidUrl,
            },
    {
        match parse_url(url) {
            Ok(url) => Ok(Get { url }),
            Err(e) => Err(e),
        }
    }

    /// The URL to fetch. It passed the check of `parse_url`.
    pub fn url(&self) -> (r: &str)
        ensures
            r@ == self.url_view(),
            is_absolute_url(r@),
    {
        proof {
            use_type_invariant(self);
        }
        self.url.as_str()
    }
}

/// `post <url> [key=value ...]`: send the pairs to a URL as one JSON object.
#[derive(Debug)]
pub struct Post {
    url: String,
    body: Vec<KvPair>,
}

impl Post {
    #[verifier::type_invariant]
    spec fn url_checked(&self) -> bool {
        is_absolute_url(self.url@)
    }

    /// The URL to send to.
    pub closed spec fn url_view(&self) -> Seq<char> {
        self.url@
    }

    /// The pairs in the order of the command line.
    pub closed spec fn body_view(&self) -> Seq<Entry> {
        pair_views(self.body@)
    }

    /// The command `post <url>` with the given pairs, if `url` is an absolute
    /// URL. The pairs are kept as they are, in their order.
    pub fn new(url: &str, body: Vec<KvPair>) -> (r: Result<Post, ParseError>)
        ensures
            match r {
                Ok(post) => {
                    &&& is_absolute_url(url@)
                    &&& post.url_view() == url@
                    &&& post.body_view() == pair_views(body@)
                },
                Err(e) => !is_absolute_url(url@) && e == ParseError::InvalidUrl,
            },
    {
        match parse_url(url) {
            Ok(url) => Ok(Post { url, body }),
            Err(e) => Err(e),
        }
    }

    /// The URL to send to. It passed the check of `parse_url`.
    pub fn url(&self) -> (r: &str)
        ensures
            r@ == self.url_view(),
            is_absolute_url(r@),
    {
        proof {
            use_type_invariant(self);
        }
        self.url.as_str()
    }

    /// The pairs in the order of the command line.
    pub fn body(&self) -> (r: &Vec<KvPair>)
        ensures
            pair_views(r@) == self.body_view(),
    {
        &self.body
    }
}

/// What the client was asked to do.
#[derive(Debug)]
pub enum SubCommand {
    Get(Get),
    Post(Post),
}

/// The command line of the client.
#[derive(Debug)]
pub struct App {
    pub subcommand: SubCommand,
}

} // verus!
