//! Resilient page retrieval and XPath text extraction.
//!
//! A page is fetched with a bounded number of attempts and its body decoded
//! by the coding that the server declares; a batch of XPath queries is then
//! evaluated on the parsed page, each query on its own. Network traffic is
//! left to the caller, who hands in the function that makes one attempt.

pub mod decode;
pub mod encoding;
pub mod error;
pub mod extract;
pub mod fetch;
pub mod html_loader;

pub use crate::error::FletcherError;

use crate::extract::{batch_view, extract, extracted, html_parses, queries_view};
use crate::fetch::Attempt;
use crate::html_loader::{load_page, loaded};
use vstd::prelude::*;

verus! {

/// Downloads the requested site and applies all xpaths on it. The results
/// stand in the order of the xpaths, one for each; an xpath that cannot be
/// evaluated leaves `None` in its place.
///
/// A failed download is reported before any extraction is tried; a page
/// that gives no document is reported as `DomParsingError`.
pub fn fetch_extract<F: Fn(&str) -> Attempt>(page: &str, xpaths: &[&str], send: F) -> (outcome: Result<
    Vec<Option<Vec<String>>>,
    FletcherError,
>)
    requires
        call_requires(send, (page,)),
    ensures
        match outcome {
            Ok(results) => exists|text: Seq<char>|
                #[trigger] loaded(send, page, Ok(text)) && html_parses(text) && batch_view(results)
                    == extracted(text, queries_view(xpaths@)),
            Err(e) => loaded(send, page, Err(e)) || (e == FletcherError::DomParsingError
                && exists|text: Seq<char>| #[trigger] loaded(send, page, Ok(text))),
        },
{
    let body = match load_page(page, send) {
        Ok(body) => body,
        Err(e) => return Err(e),
    };
    assert(loaded(send, page, Ok(body@)));
    extract(body.as_str(), xpaths)
}

} // verus!
