//! The failures that a fetch or an extraction can end in.

use vstd::prelude::*;

verus! {

/// Why a page could not be fetched or read.
#[derive(Debug, Clone, Copy, PartialEq, Eq, Structural)]
pub enum FletcherError {
    /// The site could not be fetched within the allowed number of attempts.
    FailedTooOften,
    /// The request limit of the site has been reached. Waiting and trying
    /// again, or stopping outright, are sensible reactions.
    RateLimitReached,
    /// The page may not be loaded: the resource is restricted, or the
    /// client is blocked.
    Forbidden,
    /// The site could not be found.
    NotFound,
    /// The response from the server was invalid.
    InvalidResponse,
    /// The body was received, but could not be parsed into a DOM.
    DomParsingError,
}

/// The error that a response status alone decides, if any: 429, 403 and
/// 404 end a fetch, every other status leaves the decision open.
pub open spec fn fatal_status(status: u16) -> Option<FletcherError> {
    if status == 429 {
        Some(FletcherError::RateLimitReached)
    } else if status == 403 {
        Some(FletcherError::Forbidden)
    } else if status == 404 {
        Some(FletcherError::NotFound)
    } else {
        None
    }
}

impl FletcherError {
    /// Classifies a response status that is not a success.
    pub fn from_status(status: u16) -> (r: Option<FletcherError>)
        ensures
            r == fatal_status(status),
    {
        if status == 429 {
            Some(FletcherError::RateLimitReached)
        } else if status == 403 {
            Some(FletcherError::Forbidden)
        } else if status == 404 {
            Some(FletcherError::NotFound)
        } else {
            None
        }
    }
}

} // verus!
