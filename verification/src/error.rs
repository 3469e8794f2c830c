//! The failure taxonomy shared by the whole crate.

use vstd::prelude::*;
use vstd::string::StringExecFns;

verus! {

/// The category of an operating-system I/O failure, as the caller reported
/// it. The surrounding application maps the platform's own error kinds onto
/// this closed set; the library only ever routes the category through.
#[derive(Debug, Clone, Copy, PartialEq, Eq, Structural)]
pub enum IoKind {
    NotFound,
    PermissionDenied,
    AlreadyExists,
    UnexpectedEof,
    Other,
}

/// A failure surfaced to the caller of any fallible operation of this
/// crate: a malformed or incomplete configuration document, an I/O failure
/// (carrying only its category), a key or certificate that could not be
/// generated or decoded, or a document that does not parse at all.
#[derive(Debug)]
pub enum Error {
    Config(String),
    IO(IoKind),
    Certificate(String),
    ConfigParse(String),
}

/// The mathematical shadow of `Error`: the same variants over character
/// sequences.
pub enum ErrorModel {
    Config(Seq<char>),
    IO(IoKind),
    Certificate(Seq<char>),
    ConfigParse(Seq<char>),
}

impl View for Error {
    type V = ErrorModel;

    open spec fn view(&self) -> ErrorModel {
        match self {
            Error::Config(m) => ErrorModel::Config(m@),
            Error::IO(k) => ErrorModel::IO(*k),
            Error::Certificate(m) => ErrorModel::Certificate(m@),
            Error::ConfigParse(m) => ErrorModel::ConfigParse(m@),
        }
    }
}

/// The message of a document that failed to parse as the structured
/// configuration format, around the parser's own words.
pub open spec fn config_parse_msg(detail: Seq<char>) -> Seq<char> {
    "Error parsing profile config: "@ + detail
}

/// Builds the `ConfigParse` error surfaced when the configuration text
/// does not parse at all.
pub fn config_parse_error(detail: &str) -> (r: Error)
    ensures
        r@ == ErrorModel::ConfigParse(config_parse_msg(detail@)),
{
    let mut message = String::from_str("Error parsing profile config: ");
    message.append(detail);
    Error::ConfigParse(message)
}

pub type Result<T> = core::result::Result<T, Error>;

} // verus!
