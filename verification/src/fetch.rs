//! The fetcher side of the adapter: the search URL that must be requested
//! and the user-agent header value to send with it.
//!
//! The HTTP GET itself is I/O and lives with the caller; it requests
//! `build_search_url(query)` with a `random_agent(seed)` header and hands
//! the outcome to [`crate::search_links`].

use vstd::prelude::*;

verus! {

/// The fixed search endpoint with the site-restriction term already applied;
/// the query is appended verbatim.
pub open spec fn search_url_prefix() -> Seq<char> {
    "https://www.bing.com/search?q=site:stackoverflow.com%20"@
}

/// The full search URL for a query: the fixed prefix followed by the query
/// text, character for character.
pub open spec fn spec_search_url(query: Seq<char>) -> Seq<char> {
    search_url_prefix() + query
}

/// Builds the Bing search URL for `query`, scoped to stackoverflow.com.
///
/// The query is interpolated as given: no escaping is applied beyond what
/// the transport layer does on its own, so a caller needing stricter
/// guarantees must encode the query first.
pub fn build_search_url(query: &String) -> (url: String)
    ensures
        url@ == spec_search_url(query@),
{
    let mut url: String = String::from_str(
        "https://www.bing.com/search?q=site:stackoverflow.com%20",
    );
    url.append(query.as_str());
    url
}

/// The fixed pool of plausible browser user-agent values that
/// [`random_agent`] draws from.
pub open spec fn agent_pool() -> Seq<Seq<char>> {
    seq![
        "Mozilla/5.0 (Windows NT 10.0; Win64; x64) AppleWebKit/537.36 (KHTML, like Gecko) Chrome/124.0.0.0 Safari/537.36"@,
        "Mozilla/5.0 (Macintosh; Intel Mac OS X 14_4) AppleWebKit/605.1.15 (KHTML, like Gecko) Version/17.4 Safari/605.1.15"@,
        "Mozilla/5.0 (X11; Linux x86_64; rv:125.0) Gecko/20100101 Firefox/125.0"@,
        "Mozilla/5.0 (Windows NT 10.0; Win64; x64; rv:125.0) Gecko/20100101 Firefox/125.0"@,
    ]
}

/// Picks one user-agent value from the fixed candidate pool, by the seed
/// alone; the caller supplies a fresh random seed for every request, so the
/// header value varies from call to call.
pub fn random_agent(seed: u64) -> (agent: String)
    ensures
        agent@ == agent_pool()[(seed % 4) as int],
        agent_pool().contains(agent@),
{
    let choice: u64 = seed % 4;
    let s: &str = if choice == 0 {
        "Mozilla/5.0 (Windows NT 10.0; Win64; x64) AppleWebKit/537.36 (KHTML, like Gecko) Chrome/124.0.0.0 Safari/537.36"
    } else if choice == 1 {
        "Mozilla/5.0 (Macintosh; Intel Mac OS X 14_4) AppleWebKit/605.1.15 (KHTML, like Gecko) Version/17.4 Safari/605.1.15"
    } else if choice == 2 {
        "Mozilla/5.0 (X11; Linux x86_64; rv:125.0) Gecko/20100101 Firefox/125.0"
    } else {
        "Mozilla/5.0 (Windows NT 10.0; Win64; x64; rv:125.0) Gecko/20100101 Firefox/125.0"
    };
    let agent = String::from_str(s);
    proof {
        let k = (seed % 4) as int;
        assert(agent_pool()[k] == agent@);
        assert(agent_pool().contains(agent@)) by {
            assert(0 <= k < agent_pool().len() && agent_pool()[k] == agent@);
        }
    }
    agent
}

} // verus!
