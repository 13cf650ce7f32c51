//! The error that every fallible operation of the crate reports.

use vstd::prelude::*;
use vstd::string::*;
use crate::text::{join, join3, decimal, decimal_text};

verus! {

/// The request is not a valid JSON-RPC request.
pub const INVALID_REQUEST: i32 = -32600;

/// The method of a request is not known.
pub const METHOD_NOT_FOUND: i32 = -32601;

/// The parameters of a request do not fit its method.
pub const INVALID_PARAMS: i32 = -32602;

/// The server failed on its own account.
pub const INTERNAL_ERROR: i32 = -32603;

/// Bad input, or a JSON-RPC version that the server does not speak.
pub const BAD_REQUEST: i32 = 400;

/// No tool, prompt or resource of that name.
pub const NOT_FOUND: i32 = 404;

/// A value could not be constructed.
pub const CONSTRUCTION: i32 = 500;

/// The method is known but not implemented.
pub const NOT_IMPLEMENTED: i32 = 501;

/// A code and a message, as they travel in a JSON-RPC error reply.
#[derive(Debug, PartialEq, Eq)]
pub struct Error {
    pub message: String,
    pub code: i32,
}

/// What an [`Error`] holds.
pub struct ErrorView {
    pub message: Seq<char>,
    pub code: int,
}

impl View for Error {
    type V = ErrorView;

    open spec fn view(&self) -> ErrorView {
        ErrorView { message: self.message@, code: self.code as int }
    }
}

impl Clone for Error {
    fn clone(&self) -> (r: Self)
        ensures
            r@ == self@,
    {
        Error { message: self.message.clone(), code: self.code }
    }
}

impl Error {
    /// An error with the given code and message.
    pub fn new(code: i32, message: &str) -> (r: Self)
        ensures
            r@ == (ErrorView { message: message@, code: code as int }),
    {
        Error { message: message.to_owned(), code }
    }

    /// Code 404: the named thing of the given kind is not registered. The
    /// message reads `<kind> '<name>' not found`.
    pub fn not_found(kind: &str, name: &str) -> (r: Self)
        ensures
            r@ == Self::not_found_view(kind@, name@),
    {
        let mut message = join3(kind, " '", name);
        message.append("' not found");
        Error { message, code: NOT_FOUND }
    }

    /// What `not_found` returns.
    pub open spec fn not_found_view(kind: Seq<char>, name: Seq<char>) -> ErrorView {
        ErrorView { message: kind + " '"@ + name + "' not found"@, code: 404 }
    }

    /// Code 400: the arguments of a call could not be read as the handler's
    /// input. `detail` says why.
    pub fn bad_arguments(detail: &str) -> (r: Self)
        ensures
            r@ == Self::bad_arguments_view(detail@),
    {
        Error { message: join("Failed to deserialize arguments: ", detail), code: BAD_REQUEST }
    }

    /// What `bad_arguments` returns.
    pub open spec fn bad_arguments_view(detail: Seq<char>) -> ErrorView {
        ErrorView { message: "Failed to deserialize arguments: "@ + detail, code: 400 }
    }

    /// Code 500: something could not be built or converted.
    pub fn construction(message: &str) -> (r: Self)
        ensures
            r@ == (ErrorView { message: message@, code: 500 }),
    {
        Error { message: message.to_owned(), code: CONSTRUCTION }
    }

    /// The error as a line of text: `Error <code>: <message>`.
    pub fn describe(&self) -> (r: String)
        ensures
            r@ == "Error "@ + decimal(self@.code) + ": "@ + self@.message,
    {
        let mut out = join3("Error ", decimal_text(self.code).as_str(), ": ");
        out.append(self.message.as_str());
        out
    }

    /// Code 501, with the message `not implemented`.
    pub fn not_implemented() -> (r: Self)
        ensures
            r@ == (ErrorView { message: "not implemented"@, code: 501 }),
    {
        Error { message: "not implemented".to_owned(), code: NOT_IMPLEMENTED }
    }
}

} // verus!
