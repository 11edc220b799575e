//! Errors reported by the library.

use vstd::prelude::*;

verus! {

/// An error from a service call or from request preparation.
#[derive(Debug, Clone)]
pub enum Error {
    /// The service (or the HTTP layer) reported a failure with a code and a
    /// message.
    Api { code: i32, message: String },
    /// A client-side condition stopped the operation, such as a timeout or a
    /// missing required value.
    Builder { message: String },
}

impl Error {
    /// Code and message text of an `Api` error.
    pub open spec fn api_parts(self) -> Option<(i32, Seq<char>)> {
        match self {
            Error::Api { code, message } => Some((code, message@)),
            Error::Builder { .. } => None,
        }
    }

    /// Message text of a `Builder` error.
    pub open spec fn builder_message(self) -> Option<Seq<char>> {
        match self {
            Error::Builder { message } => Some(message@),
            Error::Api { .. } => None,
        }
    }

    /// Builds an `Api` error.
    pub fn api(code: i32, message: String) -> (r: Error)
        ensures
            r.api_parts() == Some((code, message@)),
    {
        Error::Api { code, message }
    }

    /// Returns the message carried by the error.
    pub fn message(&self) -> (r: &String)
        ensures
            match *self {
                Error::Api { message, .. } => r@ == message@,
                Error::Builder { message } => r@ == message@,
            },
    {
        match self {
            Error::Api { message, .. } => message,
            Error::Builder { message } => message,
        }
    }
}

} // verus!
