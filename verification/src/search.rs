//! Orchestration: the fetched page (or the transport failure that stood in
//! its place) is turned into the final link list or a descriptive error.

use vstd::prelude::*;

use crate::extract::extract_links;
use crate::extract::spec_extract_links;

verus! {

/// The two failure kinds of a search: the transport failed (the message the
/// transport layer gave), or the page yielded no usable link.
pub enum SearchError {
    Transport(String),
    Parse(String),
}

impl SearchError {
    /// The message carried by either variant.
    pub fn message(&self) -> (msg: &String)
        ensures
            msg@ == match self {
                SearchError::Transport(m) => m@,
                SearchError::Parse(m) => m@,
            },
    {
        match self {
            SearchError::Transport(m) => m,
            SearchError::Parse(m) => m,
        }
    }
}

/// The fixed message attached when a page yields no usable link.
pub open spec fn no_result_message() -> Seq<char> {
    "Can't find search result..."@
}

/// Search result links under the Bing search engine.
///
/// The caller performs the one HTTP GET — on
/// [`crate::build_search_url`]`(query)`, with a [`crate::random_agent`]
/// header and a fresh cookie jar — and hands the outcome here: the page text
/// on success, the transport layer's message on failure.
///
/// A transport failure is passed through unchanged as
/// [`SearchError::Transport`]; a fetched page yields the extracted link
/// list, or [`SearchError::Parse`] with a fixed message when no link was
/// found in it.
pub fn search_links(fetched: Result<String, String>) -> (links: Result<Vec<String>, SearchError>)
    ensures
        match fetched {
            Err(message) => links matches Err(SearchError::Transport(m)) && m == message,
            Ok(page) => match spec_extract_links(page@) {
                Some(found) => {
                    &&& links matches Ok(list)
                    &&& list@.map_values(|s: String| s@) == found
                    &&& list@.len() > 0
                },
                None => links matches Err(SearchError::Parse(m)) && m@ == no_result_message(),
            },
        },
{
    match fetched {
        Err(message) => Err(SearchError::Transport(message)),
        Ok(page) => match extract_links(&page) {
            Some(list) => Ok(list),
            None => Err(SearchError::Parse(String::from_str("Can't find search result..."))),
        },
    }
}

} // verus!
