//! Making chain nodes: from a failure of another kind, from a failure that a
//! domain kind declares as its source, from a code, and by attaching a
//! context note to a result.

use vstd::prelude::*;
use crate::chain::{Error, ErrorCode, Failure, IoFailure};
use crate::location::Location;

verus! {

/// The context note `msg`, made at `location`, with nothing after it.
pub open spec fn note_spec(msg: String, location: Location) -> Error {
    Error::Context { msg, location, chain: None }
}

/// Whether `node` is a context note with the text `text`, made at `location`,
/// with nothing after it.
pub open spec fn is_note(node: Error, text: Seq<char>, location: Location) -> bool {
    node matches Error::Context { msg, location: at, chain: None } && msg@ == text && at == location
}

/// `r` with the context note `msg`, made at `location`, attached after the
/// last node of its failure; a success is kept as it is.
pub open spec fn noted<T>(r: Result<T, Error>, msg: String, location: Location) -> Result<T, Error> {
    match r {
        Ok(v) => Ok(v),
        Err(e) => Err(e.chained(note_spec(msg, location))),
    }
}

/// `r` with its failure lifted into an `Any` node and the context note `msg`
/// attached after it, both made at `location`; a success is kept as it is.
pub open spec fn noted_foreign<T>(r: Result<T, Failure>, msg: String, location: Location) -> Result<
    T,
    Error,
> {
    match r {
        Ok(v) => Ok(v),
        Err(f) => Err(
            Error::Any { source: f, location, chain: None }.chained(note_spec(msg, location)),
        ),
    }
}

impl Error {
    /// The context note `msg`, made at `location`, with nothing after it.
    pub fn note(msg: String, location: Location) -> (r: Error)
        ensures
            r == note_spec(msg, location),
    {
        Error::Context { msg, location, chain: None }
    }

    /// Lifts a failure of no domain kind into an `Any` node made at `location`.
    pub fn lift(source: Failure, location: Location) -> (r: Error)
        ensures
            r == (Error::Any { source, location, chain: None }),
    {
        Error::Any { source, location, chain: None }
    }

    /// The input/output failure held by an `Any` node, when it is of that
    /// kind; nothing for every other node or kind of failure.
    pub fn downcast_io(&self) -> (r: Option<&IoFailure>)
        ensures
            match *self {
                Error::Any { source: Failure::Io(f), .. } => r == Some(&f),
                _ => r is None,
            },
    {
        match self {
            Error::Any { source: Failure::Io(f), .. } => Some(f),
            _ => None,
        }
    }

    /// The text of an `Any` node whose failure is nothing but a description;
    /// nothing for every other node or kind of failure.
    pub fn downcast_message(&self) -> (r: Option<&String>)
        ensures
            match *self {
                Error::Any { source: Failure::Message(m), .. } => r == Some(&m),
                _ => r is None,
            },
    {
        match self {
            Error::Any { source: Failure::Message(m), .. } => Some(m),
            _ => None,
        }
    }
}

impl From<ErrorCode> for Error {
    /// The `Code` node of `code`, at the unknown location, with nothing after it.
    fn from(code: ErrorCode) -> (r: Error) {
        Error::Code { code, location: Location::unknown(), chain: None }
    }
}

impl vstd::std_specs::convert::FromSpecImpl<ErrorCode> for Error {
    open spec fn obeys_from_spec() -> bool {
        true
    }

    open spec fn from_spec(code: ErrorCode) -> Error {
        Error::Code { code, location: Location::unknown_spec(), chain: None }
    }
}

/// Turns the input/output failure of `r` into an `IO` node made at
/// `location`, with nothing after it; a success is kept as it is.
pub fn wrap<T>(r: Result<T, IoFailure>, location: Location) -> (out: Result<T, Error>)
    ensures
        match r {
            Ok(v) => out == Ok::<T, Error>(v),
            Err(source) => out == Err::<T, Error>(Error::IO { source, location, chain: None }),
        },
{
    match r {
        Ok(v) => Ok(v),
        Err(source) => Err(Error::IO { source, location, chain: None }),
    }
}

/// Attaches the context note `msg`, made at `location`, after the last node
/// of the failure of `r`; a success is kept as it is.
pub fn context<T>(r: Result<T, Error>, msg: String, location: Location) -> (out: Result<T, Error>)
    ensures
        out == noted(r, msg, location),
{
    match r {
        Ok(v) => Ok(v),
        Err(e) => Err(e.push_chain(Error::note(msg, location))),
    }
}

/// Lifts the failure of `r` into an `Any` node and attaches the context note
/// `msg` after it, both made at `location`; a success is kept as it is.
pub fn context_foreign<T>(r: Result<T, Failure>, msg: String, location: Location) -> (out: Result<
    T,
    Error,
>)
    ensures
        out == noted_foreign(r, msg, location),
{
    match r {
        Ok(v) => Ok(v),
        Err(f) => Err(Error::lift(f, location).push_chain(Error::note(msg, location))),
    }
}

} // verus!
