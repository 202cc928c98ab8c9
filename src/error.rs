//! The error taxonomy of the client runtime.

use vstd::prelude::*;

verus! {

/// Errors of the client runtime.
pub enum Error {
    /// Authenticating to the service failed.
    Auth(&'static str),
    /// The terms of use must be accepted first; carries the terms text.
    Eula(String),
    /// Encoding or decoding a structure failed.
    Serialization(String),
    /// Local input or output failed.
    Io { message: String, source: String },
    /// The service responded in an unexpected fashion.
    InvalidResponse(&'static str),
    /// Analysis of the image failed, with the service's message.
    AnalysisFailed(String),
    /// An OAuth2 token lacked a required part.
    InvalidToken(&'static str),
    /// A capability URL could not be used.
    InvalidSas(&'static str),
    /// The user's home directory could not be found.
    MissingHome,
    /// The storage service reported an error.
    Azure(String),
    /// The service answered with a failure status; carries status and body.
    Request { status: u16, body: String },
    /// The request could not be sent or its answer could not be read.
    Transport(String),
    /// Query parameters could not be encoded.
    UrlSerialization(String),
    /// A progress display could not be set up.
    StatusBar(String),
    /// A numeric conversion overflowed.
    TryFromIntError(String),
    /// A file extension names no known image format.
    Extension(String),
    /// Otherwise unspecified error.
    Other(&'static str, String),
}

} // verus!
