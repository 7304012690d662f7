//! The request dispatcher: from the request line of a connection to the
//! response that is written back.
//!
//! Nothing here touches a socket. `Dispatcher::handle_connection` is one step
//! of a connection: it takes what was read, or what a fetch has brought, and
//! says what is to be written or done next.

use crate::exporter::{step, Action, ActionView, Event, ScrapeError, Scraper, ScraperView};
use crate::text::{chars_of, decimal, push_decimal, same_chars, split, split_at_each, views_of};
use vstd::prelude::*;
use vstd::string::StringExecFns;
use vstd::utf8::encode_utf8;

verus! {

/// The version of HTTP that is spoken.
pub const HTTP_VERSION: &'static str = "HTTP/1.1";

/// The one method that is answered.
pub const METHOD: &'static str = "GET";

/// The one path that is answered.
pub const METRICS_PATH: &'static str = "/metrics";

/// The kinds of response.
#[derive(Debug, Clone, Copy, PartialEq, Eq, Structural)]
pub enum ResponseType {
    Success,
    BadRequest,
    NotFound,
}

impl ResponseType {
    /// The status code and the reason phrase.
    pub open spec fn spec_code_and_reason(self) -> Seq<char> {
        match self {
            ResponseType::Success => "200 OK"@,
            ResponseType::BadRequest => "400 BAD REQUEST"@,
            ResponseType::NotFound => "404 NOT FOUND"@,
        }
    }

    /// The status code and the reason phrase.
    pub fn code_and_reason(&self) -> (text: &'static str)
        ensures
            text@ == self.spec_code_and_reason(),
    {
        match self {
            ResponseType::Success => "200 OK",
            ResponseType::BadRequest => "400 BAD REQUEST",
            ResponseType::NotFound => "404 NOT FOUND",
        }
    }
}

/// The header lines: each header as its name, a colon, a space, its value and
/// a line end, in the order given.
pub open spec fn header_lines(headers: Seq<(Seq<char>, Seq<char>)>) -> Seq<char>
    decreases headers.len(),
{
    if headers.len() == 0 {
        Seq::empty()
    } else {
        header_lines(headers.drop_last()) + headers.last().0 + ": "@ + headers.last().1 + "\r\n"@
    }
}

/// The views of the headers in `headers`.
pub open spec fn header_views(headers: Seq<(String, String)>) -> Seq<(Seq<char>, Seq<char>)> {
    headers.map_values(|header: (String, String)| (header.0@, header.1@))
}

/// The body of a response: the content, or the status code and reason phrase
/// where there is no content.
pub open spec fn body_of(response_type: ResponseType, content: Option<Seq<char>>) -> Seq<char> {
    match content {
        Some(text) => text,
        None => response_type.spec_code_and_reason(),
    }
}

/// Everything of a response that stands before the `Content-Length` header:
/// the status line and the header lines.
pub open spec fn response_head(
    response_type: ResponseType,
    headers: Seq<(Seq<char>, Seq<char>)>,
) -> Seq<char> {
    HTTP_VERSION@ + " "@ + response_type.spec_code_and_reason() + "\r\n"@ + header_lines(headers)
}

/// A response as text: the status line, the headers, the `Content-Length`
/// header with the length of the body in bytes, an empty line, the body.
pub open spec fn response_text(
    response_type: ResponseType,
    headers: Seq<(Seq<char>, Seq<char>)>,
    content: Option<Seq<char>>,
) -> Seq<char> {
    response_head(response_type, headers) + "Content-Length: "@ + decimal(
        encode_utf8(body_of(response_type, content)).len(),
    ) + "\r\n\r\n"@ + body_of(response_type, content)
}

/// Writes a response as text.
pub fn response(
    response_type: ResponseType,
    headers: &Vec<(String, String)>,
    content: Option<&str>,
) -> (text: String)
    ensures
        text@ == response_text(
            response_type,
            header_views(headers@),
            match content {
                Some(c) => Some(c@),
                None => None,
            },
        ),
{
    let code_and_reason = response_type.code_and_reason();
    let body = match content {
        Some(c) => c,
        None => code_and_reason,
    };
    let length = body.as_bytes().len();
    let mut text = String::new();
    text.append(HTTP_VERSION);
    text.append(" ");
    text.append(code_and_reason);
    text.append("\r\n");
    let ghost status_line = text@;
    let ghost all = header_views(headers@);
    let mut i: usize = 0;
    assert(all.take(0) == Seq::<(Seq<char>, Seq<char>)>::empty());
    while i < headers.len()
        invariant
            i <= headers.len(),
            all == header_views(headers@),
            text@ == status_line + header_lines(all.take(i as int)),
        decreases headers.len() - i,
    {
        let ghost upto = all.take(i + 1);
        proof {
            assert(upto.drop_last() == all.take(i as int));
            assert(upto.last() == (headers[i as int].0@, headers[i as int].1@));
        }
        text.append(headers[i].0.as_str());
        text.append(": ");
        text.append(headers[i].1.as_str());
        text.append("\r\n");
        assert(text@ =~= status_line + header_lines(upto));
        i += 1;
    }
    assert(all.take(headers.len() as int) == all);
    assert(text@ =~= response_head(response_type, all));
    text.append("Content-Length: ");
    push_decimal(&mut text, length as u128);
    text.append("\r\n\r\n");
    text.append(body);
    assert(text@ =~= response_text(
        response_type,
        all,
        match content {
            Some(c) => Some(c@),
            None => None,
        },
    ));
    text
}

/// Where a request goes: to the metrics, or nowhere, with the kind of
/// response that says so.
#[derive(Debug, Clone, Copy, PartialEq, Eq, Structural)]
pub enum Route {
    Metrics,
    Reject(ResponseType),
}

/// Where a request line goes. It is split at every space. The parts have to
/// be three, else the request is a bad one. The first has to be the method
/// and the second the path of the metrics, else nothing is found. The third
/// is not looked at.
pub open spec fn route_of(request_line: Seq<char>) -> Route {
    let tokens = split(request_line, ' ');
    if tokens.len() != 3 {
        Route::Reject(ResponseType::BadRequest)
    } else if tokens[0] != METHOD@ {
        Route::Reject(ResponseType::NotFound)
    } else if tokens[1] != METRICS_PATH@ {
        Route::Reject(ResponseType::NotFound)
    } else {
        Route::Metrics
    }
}

/// Routes the request line of a connection.
pub fn route(request_line: &str) -> (found: Route)
    ensures
        found == route_of(request_line@),
{
    let line = chars_of(request_line);
    let tokens = split_at_each(line.as_slice(), ' ');
    assert(views_of(tokens@).len() == tokens@.len());
    if tokens.len() != 3 {
        return Route::Reject(ResponseType::BadRequest);
    }
    assert(views_of(tokens@)[0] == tokens@[0]@);
    assert(views_of(tokens@)[1] == tokens@[1]@);
    let method = chars_of(METHOD);
    if !same_chars(tokens[0].as_slice(), method.as_slice()) {
        return Route::Reject(ResponseType::NotFound);
    }
    let path = chars_of(METRICS_PATH);
    if !same_chars(tokens[1].as_slice(), path.as_slice()) {
        return Route::Reject(ResponseType::NotFound);
    }
    Route::Metrics
}

/// What a connection brings.
#[derive(Debug)]
pub enum Input {
    /// The connection has ended, or could not be read, before a request line
    /// was there.
    Silence,
    /// The request line, without its line end, read at `now` on the monotonic
    /// clock.
    RequestLine { line: String, now: u128 },
    /// What has become of the fetch that the dispatcher asked for.
    Fetched { event: Event },
}

/// What is to be done with a connection.
#[derive(Debug)]
pub enum Output {
    /// Close the connection without a response.
    Close,
    /// Write `response` and close the connection. `error` is for the log: the
    /// client is not told.
    Send { response: String, error: Option<ScrapeError> },
    /// Fetch the page and come back with `Input::Fetched`.
    Fetch,
}

/// An output as a mathematical value.
pub enum OutputView {
    Close,
    Send { response: Seq<char>, error: Option<ScrapeError> },
    Fetch,
}

impl View for Output {
    type V = OutputView;

    open spec fn view(&self) -> OutputView {
        match self {
            Output::Close => OutputView::Close,
            Output::Send { response, error } => OutputView::Send {
                response: response@,
                error: *error,
            },
            Output::Fetch => OutputView::Fetch,
        }
    }
}

/// The response of kind `response_type` that has no headers and no content.
pub open spec fn plain(response_type: ResponseType) -> OutputView {
    OutputView::Send {
        response: response_text(response_type, Seq::empty(), None),
        error: None,
    }
}

/// What the dispatcher makes of an action of the scraper. Metrics are the
/// content of a `200` response. A failure gets the plain `404` response,
/// whatever its reason, and the reason goes to the log.
pub open spec fn answer(action: ActionView) -> OutputView {
    match action {
        ActionView::Fetch => OutputView::Fetch,
        ActionView::Serve(text) => OutputView::Send {
            response: response_text(ResponseType::Success, Seq::empty(), Some(text)),
            error: None,
        },
        ActionView::Fail(error) => OutputView::Send {
            response: response_text(ResponseType::NotFound, Seq::empty(), None),
            error: Some(error),
        },
    }
}

/// One step of a connection: the state of the scraper after `input` and what
/// is to be done. A connection without a request line is closed. A request
/// line that does not go to the metrics is answered at once and changes
/// nothing. Every other input is an event for the scraper, whose action is
/// answered.
pub open spec fn handled(state: ScraperView, input: Input) -> (ScraperView, OutputView) {
    match input {
        Input::Silence => (state, OutputView::Close),
        Input::RequestLine { line, now } => match route_of(line@) {
            Route::Reject(response_type) => (state, plain(response_type)),
            Route::Metrics => (
                step(state, Event::Request { now }).0,
                answer(step(state, Event::Request { now }).1),
            ),
        },
        Input::Fetched { event } => (step(state, event).0, answer(step(state, event).1)),
    }
}

/// The `Content-Length` header of every response tells the length in bytes of
/// the body that follows it, and the body ends the response.
pub proof fn lemma_content_length(
    response_type: ResponseType,
    headers: Seq<(Seq<char>, Seq<char>)>,
    content: Option<Seq<char>>,
)
    ensures
        response_text(response_type, headers, content) == response_head(response_type, headers)
            + "Content-Length: "@ + decimal(
            encode_utf8(body_of(response_type, content)).len(),
        ) + "\r\n\r\n"@ + body_of(response_type, content),
        content is Some ==> body_of(response_type, content) == content->0,
{
}

/// Only a request for the metrics reaches the scraper: every other request
/// line is answered with `400` or `404` and has nothing fetched.
pub proof fn lemma_rejected_requests_change_nothing(state: ScraperView, line: String, now: u128)
    requires
        route_of(line@) != Route::Metrics,
    ensures
        handled(state, Input::RequestLine { line, now }).0 == state,
        handled(state, Input::RequestLine { line, now }).1 == plain(ResponseType::BadRequest)
            || handled(state, Input::RequestLine { line, now }).1 == plain(
            ResponseType::NotFound,
        ),
{
}

/// A client is not told why a scrape has failed: the response is the plain
/// `404` response for every reason.
pub proof fn lemma_failure_is_not_found(state: ScraperView, event: Event)
    requires
        step(state, event).1 is Fail,
    ensures
        handled(state, Input::Fetched { event }).0 == state,
        handled(state, Input::Fetched { event }).1 matches OutputView::Send { response, error }
            && response == response_text(ResponseType::NotFound, Seq::empty(), None) && error
            == Some(step(state, event).1->Fail_0),
{
}

/// The dispatcher: it owns the scraper.
pub struct Dispatcher {
    scraper: Scraper,
}

impl View for Dispatcher {
    type V = ScraperView;

    closed spec fn view(&self) -> ScraperView {
        self.scraper@
    }
}

impl Dispatcher {
    /// A dispatcher with a scraper that has cached nothing and tracks nothing.
    pub fn new() -> (dispatcher: Self)
        ensures
            dispatcher@ == (ScraperView { cache: None, ticket_tracker: Map::empty() }),
    {
        Dispatcher { scraper: Scraper::new() }
    }

    /// The scraper.
    pub fn scraper(&self) -> (scraper: &Scraper)
        ensures
            scraper@ == self@,
    {
        &self.scraper
    }

    /// Hands `event` to the scraper and answers its action.
    fn forward(&mut self, event: Event) -> (output: Output)
        ensures
            final(self)@ == step(old(self)@, event).0,
            output@ == answer(step(old(self)@, event).1),
    {
        let headers: Vec<(String, String)> = Vec::new();
        assert(header_views(headers@) =~= Seq::empty());
        match self.scraper.metrics(event) {
            Action::Fetch => Output::Fetch,
            Action::Serve(text) => Output::Send {
                response: response(ResponseType::Success, &headers, Some(text.as_str())),
                error: None,
            },
            Action::Fail(error) => Output::Send {
                response: response(ResponseType::NotFound, &headers, None),
                error: Some(error),
            },
        }
    }

    /// One step of a connection: see `handled`.
    pub fn handle_connection(&mut self, input: Input) -> (output: Output)
        ensures
            final(self)@ == handled(old(self)@, input).0,
            output@ == handled(old(self)@, input).1,
    {
        match input {
            Input::Silence => Output::Close,
            Input::RequestLine { line, now } => match route(line.as_str()) {
                Route::Reject(response_type) => {
                    let headers: Vec<(String, String)> = Vec::new();
                    assert(header_views(headers@) =~= Seq::empty());
                    Output::Send { response: response(response_type, &headers, None), error: None }
                },
                Route::Metrics => self.forward(Event::Request { now }),
            },
            Input::Fetched { event } => self.forward(event),
        }
    }
}

} // verus!
