use bing_search::build_search_url;
use bing_search::random_agent;

#[test]
fn build_search_url_embeds_query_after_site_scope() {
    let url = build_search_url(&String::from("how to parse html"));
    assert_eq!(
        url,
        String::from("https://www.bing.com/search?q=site:stackoverflow.com%20how to parse html")
    );
}

#[test]
fn build_search_url_of_empty_query_is_the_bare_endpoint() {
    let url = build_search_url(&String::new());
    assert_eq!(
        url,
        String::from("https://www.bing.com/search?q=site:stackoverflow.com%20")
    );
}

#[test]
fn random_agent_picks_from_the_pool_by_seed() {
    assert_eq!(
        random_agent(0),
        String::from(
            "Mozilla/5.0 (Windows NT 10.0; Win64; x64) AppleWebKit/537.36 \
             (KHTML, like Gecko) Chrome/124.0.0.0 Safari/537.36"
        )
    );
    assert_eq!(
        random_agent(6),
        String::from("Mozilla/5.0 (X11; Linux x86_64; rv:125.0) Gecko/20100101 Firefox/125.0")
    );
    assert_eq!(random_agent(1), random_agent(5));
}
