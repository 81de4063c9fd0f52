use bing_search::search_links;
use bing_search::SearchError;

#[test]
fn search_links_returns_links_on_success() {
    let page: String = String::from(
        "<html><body>\
         <li class=\"b_algo\"><h2><a href=\"https://answer_one\"></a></h2></li>\
         <li class=\"b_algo\"><h2><a href=\"https://answer_two\"></a></h2></li>\
         </body></html>",
    );
    let links = search_links(Ok(page)).unwrap_or(Vec::new());
    assert_eq!(
        links,
        vec![
            String::from("https://answer_one"),
            String::from("https://answer_two")
        ]
    );
}

#[test]
fn search_links_maps_empty_extraction_to_parse_error() {
    let outcome = search_links(Ok(String::from("<html></html>")));
    match outcome {
        Ok(_) => panic!("an empty page must not yield links"),
        Err(SearchError::Parse(message)) => {
            assert_eq!(message, String::from("Can't find search result..."));
        }
        Err(SearchError::Transport(_)) => panic!("no transport was involved"),
    }
}

#[test]
fn search_links_passes_transport_error_through() {
    let outcome = search_links(Err(String::from("connection refused")));
    match outcome {
        Err(SearchError::Transport(message)) => {
            assert_eq!(message, String::from("connection refused"));
        }
        _ => panic!("a transport failure must surface unchanged"),
    }
}

#[test]
fn search_error_message_returns_the_carried_text() {
    let transport = SearchError::Transport(String::from("timed out"));
    assert_eq!(transport.message(), &String::from("timed out"));
    let parse = SearchError::Parse(String::from("nothing there"));
    assert_eq!(parse.message(), &String::from("nothing there"));
}
