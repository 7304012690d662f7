use erth_exporter::exporter::{Event, FetchError, ScrapeError};
use erth_exporter::extract::ParseError;
use erth_exporter::server::{response, route, Dispatcher, Input, Output, ResponseType, Route};

const SECOND: u128 = 1_000_000_000;

const PAGE: &str = "<html><body>\
    <div class=\"fr-view\"><h3>Wartende Personen</h3>\
    <div class=\"flex\"><span>12</span></div>\
    <div class=\"flex\"><span>B3</span></div>\
    <div class=\"flex\"><span>7 Minuten</span></div></div>\
    <div class=\"fr-view\"><h3>Wartende Personen</h3>\
    <div class=\"flex\"><span>4</span></div>\
    <div class=\"flex\"><span>F1</span></div>\
    <div class=\"flex\"><span>3 Minuten</span></div></div>\
    </body></html>";

fn line(text: &str, now: u128) -> Input {
    Input::RequestLine { line: String::from(text), now }
}

fn sent(output: Output) -> (String, Option<ScrapeError>) {
    match output {
        Output::Send { response, error } => (response, error),
        other => panic!("nothing sent: {:?}", other),
    }
}

fn status_line(response: &str) -> &str {
    response.split("\r\n").next().unwrap()
}

fn content_length(response: &str) -> usize {
    let (head, _) = response.split_once("\r\n\r\n").unwrap();
    let header = head.split("\r\n").find(|l| l.starts_with("Content-Length: ")).unwrap();
    header["Content-Length: ".len()..].parse().unwrap()
}

fn body(response: &str) -> &str {
    response.split_once("\r\n\r\n").unwrap().1
}

#[test]
fn the_kinds_of_response_have_their_codes() {
    assert_eq!(ResponseType::Success.code_and_reason(), "200 OK");
    assert_eq!(ResponseType::BadRequest.code_and_reason(), "400 BAD REQUEST");
    assert_eq!(ResponseType::NotFound.code_and_reason(), "404 NOT FOUND");
}

#[test]
fn response_writes_status_length_and_body() {
    assert_eq!(
        response(ResponseType::Success, &vec![], Some("hello\n")),
        "HTTP/1.1 200 OK\r\nContent-Length: 6\r\n\r\nhello\n"
    );
    assert_eq!(
        response(ResponseType::Success, &vec![], Some("")),
        "HTTP/1.1 200 OK\r\nContent-Length: 0\r\n\r\n"
    );
}

#[test]
fn response_without_content_has_the_reason_for_its_body() {
    assert_eq!(
        response(ResponseType::NotFound, &vec![], None),
        "HTTP/1.1 404 NOT FOUND\r\nContent-Length: 13\r\n\r\n404 NOT FOUND"
    );
    assert_eq!(
        response(ResponseType::BadRequest, &vec![], None),
        "HTTP/1.1 400 BAD REQUEST\r\nContent-Length: 15\r\n\r\n400 BAD REQUEST"
    );
    assert_eq!(
        response(ResponseType::Success, &vec![], None),
        "HTTP/1.1 200 OK\r\nContent-Length: 6\r\n\r\n200 OK"
    );
}

#[test]
fn response_writes_the_headers_in_order() {
    let headers = vec![
        (String::from("Content-Type"), String::from("text/plain")),
        (String::from("X-Empty"), String::from("")),
        (String::from("Cache-Control"), String::from("no-store")),
    ];
    assert_eq!(
        response(ResponseType::Success, &headers, Some("ok")),
        "HTTP/1.1 200 OK\r\nContent-Type: text/plain\r\nX-Empty: \r\nCache-Control: no-store\r\n\
         Content-Length: 2\r\n\r\nok"
    );
}

#[test]
fn response_counts_the_bytes_of_the_body() {
    for content in ["", "a", "Bürgerservice", "—", "日本語\n", "𝄞 clef", "line\r\n\r\nline"] {
        let text = response(ResponseType::Success, &vec![], Some(content));
        assert_eq!(content_length(&text), content.len());
        assert_eq!(body(&text), content);
        assert!(text.ends_with(content));
    }
    let long = "x".repeat(12345);
    assert_eq!(content_length(&response(ResponseType::NotFound, &vec![], Some(&long))), 12345);
}

#[test]
fn route_finds_the_metrics() {
    assert_eq!(route("GET /metrics HTTP/1.1"), Route::Metrics);
    assert_eq!(route("GET /metrics HTTP/1.0"), Route::Metrics);
    assert_eq!(route("GET /metrics x"), Route::Metrics);
    assert_eq!(route("GET /metrics "), Route::Metrics);
}

#[test]
fn route_finds_nothing_for_other_methods_and_paths() {
    assert_eq!(route("POST /metrics HTTP/1.1"), Route::Reject(ResponseType::NotFound));
    assert_eq!(route("get /metrics HTTP/1.1"), Route::Reject(ResponseType::NotFound));
    assert_eq!(route("GET / HTTP/1.1"), Route::Reject(ResponseType::NotFound));
    assert_eq!(route("GET /metrics/ HTTP/1.1"), Route::Reject(ResponseType::NotFound));
    assert_eq!(route("GET /metric HTTP/1.1"), Route::Reject(ResponseType::NotFound));
    assert_eq!(route("GET /Metrics HTTP/1.1"), Route::Reject(ResponseType::NotFound));
    assert_eq!(route("GET metrics HTTP/1.1"), Route::Reject(ResponseType::NotFound));
    assert_eq!(route("GET /metrics?x=1 HTTP/1.1"), Route::Reject(ResponseType::NotFound));
    assert_eq!(route(" /metrics HTTP/1.1"), Route::Reject(ResponseType::NotFound));
    assert_eq!(route("GET  HTTP/1.1"), Route::Reject(ResponseType::NotFound));
    assert_eq!(route("  "), Route::Reject(ResponseType::NotFound));
}

#[test]
fn route_refuses_lines_that_have_not_three_parts() {
    assert_eq!(route("GET /metrics"), Route::Reject(ResponseType::BadRequest));
    assert_eq!(route("POST /metrics"), Route::Reject(ResponseType::BadRequest));
    assert_eq!(route("GET"), Route::Reject(ResponseType::BadRequest));
    assert_eq!(route(""), Route::Reject(ResponseType::BadRequest));
    assert_eq!(route(" "), Route::Reject(ResponseType::BadRequest));
    assert_eq!(route("GET /metrics HTTP/1.1 "), Route::Reject(ResponseType::BadRequest));
    assert_eq!(route("GET  /metrics HTTP/1.1"), Route::Reject(ResponseType::BadRequest));
    assert_eq!(route(" GET /metrics HTTP/1.1"), Route::Reject(ResponseType::BadRequest));
    assert_eq!(route("GET\t/metrics\tHTTP/1.1"), Route::Reject(ResponseType::BadRequest));
    assert_eq!(route("a b c d"), Route::Reject(ResponseType::BadRequest));
}

#[test]
fn a_connection_without_a_request_line_is_closed() {
    let mut dispatcher = Dispatcher::new();
    assert!(matches!(dispatcher.handle_connection(Input::Silence), Output::Close));
    assert_eq!(dispatcher.scraper().cache(), None);
}

#[test]
fn a_request_for_the_metrics_is_answered_with_200() {
    let mut dispatcher = Dispatcher::new();
    let output = dispatcher.handle_connection(line("GET /metrics HTTP/1.1", 5 * SECOND));
    assert!(matches!(output, Output::Fetch));
    let fetched = Input::Fetched {
        event: Event::fetched(PAGE, 5 * SECOND, 6 * SECOND, Some(1_700 * SECOND)),
    };
    let (text, error) = sent(dispatcher.handle_connection(fetched));
    assert_eq!(error, None);
    assert!(status_line(&text).contains("200"));
    assert_eq!(status_line(&text), "HTTP/1.1 200 OK");
    assert_eq!(content_length(&text), body(&text).len());
    assert!(body(&text).starts_with("# Information on the citizen service\n"));
    assert!(body(&text).contains("erth_people_waiting{service=\"citizen\"}\t\t12\n"));
    assert!(body(&text).contains("erth_people_waiting{service=\"drivers_license\"}\t\t4\n"));
    assert!(body(&text).ends_with("erth_scrape_timestamp\t1700000\n"));
    // The next request is served from the cache, to the byte.
    let (again, error) =
        sent(dispatcher.handle_connection(line("GET /metrics HTTP/1.1", 36 * SECOND)));
    assert_eq!(error, None);
    assert_eq!(again, text);
    // And once the cache has expired, the page is fetched again.
    let output = dispatcher.handle_connection(line("GET /metrics HTTP/1.1", 36 * SECOND + 1));
    assert!(matches!(output, Output::Fetch));
}

#[test]
fn another_method_is_answered_with_404() {
    let mut dispatcher = Dispatcher::new();
    let (text, error) = sent(dispatcher.handle_connection(line("POST /metrics HTTP/1.1", 0)));
    assert_eq!(error, None);
    assert!(status_line(&text).contains("404"));
    assert_eq!(text, "HTTP/1.1 404 NOT FOUND\r\nContent-Length: 13\r\n\r\n404 NOT FOUND");
}

#[test]
fn another_path_is_answered_with_404() {
    let mut dispatcher = Dispatcher::new();
    let (text, error) = sent(dispatcher.handle_connection(line("GET /index.html HTTP/1.1", 0)));
    assert_eq!(error, None);
    assert_eq!(text, "HTTP/1.1 404 NOT FOUND\r\nContent-Length: 13\r\n\r\n404 NOT FOUND");
}

#[test]
fn a_line_of_two_parts_is_answered_with_400() {
    let mut dispatcher = Dispatcher::new();
    let (text, error) = sent(dispatcher.handle_connection(line("GET /metrics", 0)));
    assert_eq!(error, None);
    assert!(status_line(&text).contains("400"));
    assert_eq!(text, "HTTP/1.1 400 BAD REQUEST\r\nContent-Length: 15\r\n\r\n400 BAD REQUEST");
    let (text, _) = sent(dispatcher.handle_connection(line("", 0)));
    assert_eq!(status_line(&text), "HTTP/1.1 400 BAD REQUEST");
}

#[test]
fn a_failed_fetch_is_answered_with_404_and_logged() {
    let mut dispatcher = Dispatcher::new();
    assert!(matches!(
        dispatcher.handle_connection(line("GET /metrics HTTP/1.1", 0)),
        Output::Fetch
    ));
    let failure = Input::Fetched { event: Event::fetch_failed(String::from("timed out")) };
    let (text, error) = sent(dispatcher.handle_connection(failure));
    assert_eq!(text, "HTTP/1.1 404 NOT FOUND\r\nContent-Length: 13\r\n\r\n404 NOT FOUND");
    assert!(!text.contains("timed out"));
    assert_eq!(error, Some(ScrapeError::Fetch(FetchError { reason: String::from("timed out") })));
    assert_eq!(dispatcher.scraper().cache(), None);
}

#[test]
fn a_page_that_cannot_be_read_is_answered_with_404_and_logged() {
    let mut dispatcher = Dispatcher::new();
    let fetched = Input::Fetched { event: Event::fetched("<p>Wartung</p>", 0, 1, None) };
    let (text, error) = sent(dispatcher.handle_connection(fetched));
    assert_eq!(text, "HTTP/1.1 404 NOT FOUND\r\nContent-Length: 13\r\n\r\n404 NOT FOUND");
    assert_eq!(error, Some(ScrapeError::Parse(ParseError::InsufficientBlocks)));
}

#[test]
fn requests_that_are_refused_do_not_reach_the_scraper() {
    let mut dispatcher = Dispatcher::new();
    let fetched = Input::Fetched { event: Event::fetched(PAGE, 0, SECOND, None) };
    sent(dispatcher.handle_connection(fetched));
    let cache = dispatcher.scraper().cache();
    for text in ["", "GET /metrics", "POST /metrics HTTP/1.1", "GET / HTTP/1.1", "a b c d"] {
        sent(dispatcher.handle_connection(line(text, 1_000 * SECOND)));
        assert_eq!(dispatcher.scraper().cache(), cache);
        assert_eq!(dispatcher.scraper().tracked_tickets(), 2);
    }
}
