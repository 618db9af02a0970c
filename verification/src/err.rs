//! Errors that the library reports.

use vstd::prelude::*;
use vstd::string::StringExecFns;

verus! {

/// An error of the library itself or one that the database reported.
#[derive(Debug, Clone, PartialEq, Eq)]
pub enum Error {
    /// The library refused the operation; the text says why.
    Interface(String),
    /// The database or its call interface failed; code and message are
    /// passed on as they came.
    Oracle(i32, String),
}

/// What an error says, with its text as a sequence of characters.
pub enum ErrorView {
    Interface(Seq<char>),
    Oracle(int, Seq<char>),
}

impl View for Error {
    type V = ErrorView;

    open spec fn view(&self) -> ErrorView {
        match *self {
            Error::Interface(msg) => ErrorView::Interface(msg@),
            Error::Oracle(code, msg) => ErrorView::Oracle(code as int, msg@),
        }
    }
}

/// The error of a conversion that is not defined: it names the kind of
/// value that was found and the type that was asked for.
pub open spec fn cannot_convert(found: Seq<char>, wanted: Seq<char>) -> ErrorView {
    ErrorView::Interface("cannot convert "@ + found + " into "@ + wanted)
}

/// The error of a NULL asked for as a type that has no NULL.
pub open spec fn cannot_convert_null(wanted: Seq<char>) -> ErrorView {
    cannot_convert("NULL"@, wanted)
}

/// The error of a second read of a value that can be handed out once.
pub open spec fn already_consumed() -> ErrorView {
    ErrorView::Interface("already consumed"@)
}

/// The error of a position that names no parameter.
pub open spec fn parameter_not_found() -> ErrorView {
    ErrorView::Interface("parameter not found"@)
}

/// An outcome seen through the view of its error.
pub open spec fn outcome<T>(r: Result<T, Error>) -> Result<T, ErrorView> {
    match r {
        Ok(v) => Ok(v),
        Err(e) => Err(e@),
    }
}

/// An outcome that carries text, seen through the views of both sides.
pub open spec fn text_outcome(r: Result<String, Error>) -> Result<Seq<char>, ErrorView> {
    match r {
        Ok(s) => Ok(s@),
        Err(e) => Err(e@),
    }
}

impl Error {
    /// An error of the library with the given text.
    pub fn new(msg: &str) -> (e: Error)
        ensures
            e@ == ErrorView::Interface(msg@),
    {
        Error::Interface(msg.to_owned())
    }

    /// The error of a conversion that is not defined, from a value of the
    /// kind `found` into the type `wanted`.
    pub fn conversion(found: &str, wanted: &str) -> (e: Error)
        ensures
            e@ == cannot_convert(found@, wanted@),
    {
        let msg = String::from_str("cannot convert ").concat(found).concat(" into ").concat(wanted);
        Error::Interface(msg)
    }

    /// The error of a NULL asked for as the type `wanted`.
    pub fn null(wanted: &str) -> (e: Error)
        ensures
            e@ == cannot_convert_null(wanted@),
    {
        Error::conversion("NULL", wanted)
    }

    /// A copy of the error.
    pub fn copy(&self) -> (e: Error)
        ensures
            e == *self,
    {
        match self {
            Error::Interface(msg) => Error::Interface(msg.clone()),
            Error::Oracle(code, msg) => Error::Oracle(*code, msg.clone()),
        }
    }

    /// The text of the error.
    pub fn message(&self) -> (msg: String)
        ensures
            self matches Error::Interface(m) ==> msg == m,
            self matches Error::Oracle(_, m) ==> msg == m,
    {
        match self {
            Error::Interface(msg) => msg.clone(),
            Error::Oracle(_, msg) => msg.clone(),
        }
    }

    /// The code that the database gave, if the error came from there.
    pub fn code(&self) -> (code: Option<i32>)
        ensures
            code == (match *self {
                Error::Interface(_) => None::<i32>,
                Error::Oracle(c, _) => Some(c),
            }),
    {
        match self {
            Error::Interface(_) => None,
            Error::Oracle(code, _) => Some(*code),
        }
    }
}

} // verus!
