//! The vocabulary that every call shares: HTTP methods, the description of a
//! method, errors, and the answers of a delegate.

use std::time::Duration;
use vstd::prelude::*;

verus! {

/// The HTTP method of a request.
#[derive(Clone, Copy, Debug, PartialEq, Eq, Structural)]
pub enum Method {
    Get,
    Post,
    Delete,
}

/// What a delegate is told when a call begins.
#[derive(Clone, Copy, Debug, PartialEq, Eq)]
pub struct MethodInfo {
    /// The dotted name of the method, such as `youtubereporting.jobs.get`.
    pub id: &'static str,
    pub http_method: Method,
}

/// A delegate's answer to a failed attempt.
#[derive(Clone, Copy, Debug, PartialEq, Eq)]
pub enum Retry {
    /// Give up and report the failure.
    Abort,
    /// Wait for the given time, then try again.
    After(Duration),
}

/// Why a call did not give a result.
#[derive(Clone, Copy, Debug, PartialEq, Eq)]
pub enum Error {
    /// The connection failed.
    HttpError,
    /// The server answered with an error that it described in its body.
    BadRequest,
    /// Neither the authenticator nor the delegate had a token.
    MissingToken,
    /// An additional parameter has the name of one that the call sets itself.
    FieldClash(&'static str),
    /// The body of a successful answer did not decode.
    JsonDecodeError,
    /// The server answered with a status other than success.
    Failure,
    /// The base URL with the path of the method is not an absolute URL.
    InvalidUrl,
    /// The address and the query of the call are longer than a URL may be.
    UrlTooLong,
}

/// The model of the settings that a hub holds for all its calls.
pub struct HubView {
    /// The value of the user-agent header field.
    pub user_agent: Seq<char>,
    /// The URL below which the paths of the methods lie.
    pub base_url: Seq<char>,
    /// The URL of the service itself.
    pub root_url: Seq<char>,
}

/// What the delegate hears at the end of a call.
#[derive(Clone, Copy, Debug, PartialEq, Eq, Structural)]
pub enum Notice {
    /// The call is over, with or without success.
    Finished(bool),
    /// The body of the answer did not decode.
    DecodeFailed,
    /// Nothing is said: the address of the call made no URL.
    Silent,
}

impl Error {
    /// Whether this is a clash on the parameter called `name`.
    pub open spec fn is_clash_on(self, name: Seq<char>) -> bool {
        self matches Error::FieldClash(field) && field@ == name
    }

    /// The notice that goes with this error. A clash, a missing token, a
    /// failed connection and a refused request end the call without success;
    /// a body that does not decode is reported as such.
    pub fn notice(&self) -> (r: Notice)
        ensures
            r == match *self {
                Error::JsonDecodeError => Notice::DecodeFailed,
                Error::InvalidUrl | Error::UrlTooLong => Notice::Silent,
                _ => Notice::Finished(false),
            },
    {
        match self {
            Error::JsonDecodeError => Notice::DecodeFailed,
            Error::InvalidUrl | Error::UrlTooLong => Notice::Silent,
            _ => Notice::Finished(false),
        }
    }
}

} // verus!
