//! Request URLs and the classification of the service's answers.

use vstd::prelude::*;

use crate::error::Error;
use crate::text::{
    fits_url, form_encode, form_text, lossy_text, pair_views, url_set_path, url_set_query,
    url_with_path, url_with_query, utf8_lossy, MAX_URL_CHARS,
};

verus! {

/// Status by which the service says that its terms must be accepted first.
pub const UNAVAILABLE_FOR_LEGAL_REASONS: u16 = 451;

/// The status reports success.
pub open spec fn is_success(status: u16) -> bool {
    200 <= status <= 299
}

/// Classify the service's answer: the body of a success; the terms-not-accepted
/// error, with the body as the terms text, for status 451; a request failure
/// with status and body for any other status.
pub fn classify_response(status: u16, body: Vec<u8>) -> (r: Result<Vec<u8>, Error>)
    ensures
        status == UNAVAILABLE_FOR_LEGAL_REASONS ==> (r matches Err(Error::Eula(t)) && t@
            == utf8_lossy(body@)),
        is_success(status) ==> r == Ok::<Vec<u8>, Error>(body),
        status != UNAVAILABLE_FOR_LEGAL_REASONS && !is_success(status) ==> (r matches Err(
            Error::Request { status: s, body: b },
        ) && s == status && b@ == utf8_lossy(body@)),
{
    if status == UNAVAILABLE_FOR_LEGAL_REASONS {
        let terms = lossy_text(body.as_slice());
        Err(Error::Eula(terms))
    } else if 200 <= status && status <= 299 {
        Ok(body)
    } else {
        let text = lossy_text(body.as_slice());
        Err(Error::Request { status, body: text })
    }
}

/// What building a request URL comes to.
pub enum UrlOutcome {
    /// The URL's text.
    Built(Seq<char>),
    /// The base URL does not parse.
    Unparsable,
    /// The parts are too long for a URL.
    TooLong,
}

/// The URL that a text with a path set comes to, given the encoded query to
/// attach, if any.
pub open spec fn with_query_outcome(u: Seq<char>, query: Option<Seq<char>>) -> UrlOutcome {
    match query {
        None => UrlOutcome::Built(u),
        Some(q) => if u.len() + q.len() > MAX_URL_CHARS {
            UrlOutcome::TooLong
        } else {
            match url_with_query(u, q) {
                None => UrlOutcome::Unparsable,
                Some(t) => UrlOutcome::Built(t),
            }
        },
    }
}

/// The URL of a request: `base` with its path set to `path`, and with the
/// encoded query attached where a query is given and its text is not empty.
pub open spec fn request_url_outcome(
    base: Seq<char>,
    path: Seq<char>,
    query: Option<Seq<(Seq<char>, Seq<char>)>>,
) -> UrlOutcome {
    let q = match query {
        None => None,
        Some(pairs) => if form_text(pairs).len() == 0 {
            None
        } else {
            Some(form_text(pairs))
        },
    };
    if base.len() + path.len() > MAX_URL_CHARS {
        UrlOutcome::TooLong
    } else {
        match url_with_path(base, path) {
            None => UrlOutcome::Unparsable,
            Some(u) => with_query_outcome(u, q),
        }
    }
}

/// The result that an outcome gives.
pub open spec fn url_result_matches(r: Result<String, Error>, o: UrlOutcome) -> bool {
    match o {
        UrlOutcome::Built(u) => r matches Ok(t) && t@ == u,
        UrlOutcome::Unparsable => r matches Err(Error::Other(m, _)) && m@ == "unable to parse URL"@,
        UrlOutcome::TooLong => r matches Err(Error::Other(m, _)) && m@ == "URL too long"@,
    }
}

/// Build the URL of a request to `path` on the service at `base`, with the
/// query parameters percent-encoded and attached only where there are any.
/// A base that does not parse gives the URL error before any request is
/// made.
pub fn request_url(base: &str, path: &str, query: Option<&Vec<(String, String)>>) -> (r: Result<
    String,
    Error,
>)
    ensures
        url_result_matches(
            r,
            request_url_outcome(
                base@,
                path@,
                match query {
                    None => None,
                    Some(q) => Some(pair_views(q@)),
                },
            ),
        ),
{
    let query_text = match query {
        None => None,
        Some(pairs) => match form_encode(pairs) {
            None => {
                return Err(Error::UrlSerialization(path.to_owned()));
            },
            Some(q) => if q.as_str().is_empty() {
                None
            } else {
                Some(q)
            },
        },
    };
    if !fits_url(base, path) {
        return Err(Error::Other("URL too long", path.to_owned()));
    }
    let u = match url_set_path(base, path) {
        Some(u) => u,
        None => {
            return Err(Error::Other("unable to parse URL", base.to_owned()));
        },
    };
    match query_text {
        None => Ok(u),
        Some(q) => {
            if !fits_url(u.as_str(), q.as_str()) {
                return Err(Error::Other("URL too long", q));
            }
            match url_set_query(u.as_str(), q.as_str()) {
                Some(t) => Ok(t),
                None => Err(Error::Other("unable to parse URL", u)),
            }
        },
    }
}

} // verus!
