//! Error types of the argument parser and of the response renderer.

use vstd::prelude::*;
use vstd::string::*;

verus! {

/// Why a command-line argument was rejected.
#[derive(Clone, Copy, Debug, PartialEq, Eq, Structural)]
pub enum ParseError {
    /// The argument is not an absolute URL.
    InvalidUrl,
    /// The argument holds no `=` to split at.
    MissingDelimiter,
}

/// Why a response could not be rendered.
#[derive(Clone, Copy, Debug, PartialEq, Eq, Structural)]
pub enum RenderError {
    /// The response declared a JSON body, and the body is no JSON.
    MalformedJson,
    /// The body bytes are not UTF-8 text.
    InvalidText,
}

impl ParseError {
    /// What is said of the error before the argument is named.
    pub open spec fn prefix(self) -> Seq<char> {
        match self {
            ParseError::InvalidUrl => "Invalid URL "@,
            ParseError::MissingDelimiter => "Failed to parse "@,
        }
    }

    /// The message for the user: what went wrong, then the argument itself.
    pub fn describe(&self, argument: &str) -> (r: String)
        ensures
            r@ == self.prefix() + argument@,
    {
        match self {
            ParseError::InvalidUrl => String::from_str("Invalid URL ").concat(argument),
            ParseError::MissingDelimiter => String::from_str("Failed to parse ").concat(argument),
        }
    }
}

impl RenderError {
    /// The message for the user.
    pub open spec fn text(self) -> Seq<char> {
        match self {
            RenderError::MalformedJson => "the body is declared as JSON but is not JSON"@,
            RenderError::InvalidText => "the body is not UTF-8 text"@,
        }
    }

    /// The message for the user.
    pub fn message(&self) -> (r: String)
        ensures
            r@ == self.text(),
    {
        match self {
            RenderError::MalformedJson => String::from_str(
                "the body is declared as JSON but is not JSON",
            ),
            RenderError::InvalidText => String::from_str("the body is not UTF-8 text"),
        }
    }
}

} // verus!
