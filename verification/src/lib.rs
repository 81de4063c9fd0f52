//! A Bing search-engine adapter: it builds the site-scoped search URL that a
//! caller fetches over HTTP, extracts the result links from the returned
//! page markup, and maps an empty extraction to a descriptive error.

pub mod extract;
pub mod fetch;
pub mod search;

pub use extract::extract_links;
pub use fetch::build_search_url;
pub use fetch::random_agent;
pub use search::search_links;
pub use search::SearchError;
