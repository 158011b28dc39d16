use vstd::prelude::*;

verus! {

/// Errors of the daemon and the client. Errors that come from the operating
/// system or from HTTP hold the text of the underlying error; an error that
/// crossed the wire holds the rendering it was sent as.
#[derive(Debug)]
pub enum Error {
    WithMessage(String),
    IO(String),
    HTTP(String),
    Parsing,
    Unknown,
    Serialized(String),
}

pub type Result<T> = core::result::Result<T, Error>;

impl Error {
    /// Whether the error is `WithMessage` with exactly this text.
    pub open spec fn has_message(self, text: Seq<char>) -> bool {
        self matches Error::WithMessage(m) && m@ == text
    }

    /// An error that carries the given message.
    pub fn with_message(msg: &str) -> (r: Error)
        ensures
            r.has_message(msg@),
    {
        Error::WithMessage(msg.to_owned())
    }
}

impl<'a> From<&'a str> for Error {
    /// The error that carries `e` as its message.
    fn from(e: &'a str) -> (r: Error)
        ensures
            r.has_message(e@),
    {
        Error::WithMessage(e.to_owned())
    }
}

impl<'a> vstd::std_specs::convert::FromSpecImpl<&'a str> for Error {
    /// A spec value cannot hold a `String` made from a text, so the result is
    /// described by `from`'s own `ensures` instead.
    open spec fn obeys_from_spec() -> bool {
        false
    }

    open spec fn from_spec(e: &'a str) -> Error {
        Error::Unknown
    }
}

impl From<std::num::ParseIntError> for Error {
    fn from(e: std::num::ParseIntError) -> (r: Error) {
        Error::Parsing
    }
}

impl vstd::std_specs::convert::FromSpecImpl<std::num::ParseIntError> for Error {
    open spec fn obeys_from_spec() -> bool {
        true
    }

    open spec fn from_spec(e: std::num::ParseIntError) -> Error {
        Error::Parsing
    }
}

} // verus!
