//! The scraper: from a fetched page to the cached data frame and its metrics.
//!
//! Nothing here fetches the page or reads a clock. `Scraper::metrics` is one
//! step of the pipeline: it takes an event, changes the scraper and says what
//! is to be done next. The caller does it and comes back with the next event.

use crate::extract::{block_views, extract, extracted, Block, BlockView, ParseError};
use crate::frame::{DataFrame, QueueDataFrame};
use crate::page::{page_blocks, read_blocks, MAX_PAGE_BYTES};
use crate::render::{metrics_text, render};
use crate::text::{decimal, push_decimal};
use crate::ticket::{Ticket, TicketId, TicketType};
use crate::tracker::{elapsed, observe, time_between, Tracker};
use vstd::prelude::*;
use vstd::string::StringExecFns;
use vstd::utf8::encode_utf8;

verus! {

/// Time-to-live of the cached data frame: thirty seconds.
pub const CACHE_EXPIRATION: u128 = 30_000_000_000;

/// Why the page could not be fetched, in the words of whoever tried.
#[derive(Debug, PartialEq, Eq)]
pub struct FetchError {
    pub reason: String,
}

/// Why a scrape has failed.
#[derive(Debug, PartialEq, Eq)]
pub enum ScrapeError {
    /// The page could not be fetched.
    Fetch(FetchError),
    /// A selector for the blocks of the page is no selector; the text says
    /// why.
    Selector(String),
    /// The page could not be read.
    Parse(ParseError),
}

impl ScrapeError {
    /// The error in words.
    pub open spec fn spec_message(self) -> Seq<char> {
        match self {
            ScrapeError::Fetch(e) => e.reason@,
            ScrapeError::Selector(reason) => reason@,
            ScrapeError::Parse(e) => e.spec_message(),
        }
    }

    /// The error in words.
    pub fn message(&self) -> (text: String)
        ensures
            text@ == self.spec_message(),
    {
        match self {
            ScrapeError::Fetch(e) => e.reason.clone(),
            ScrapeError::Selector(reason) => reason.clone(),
            ScrapeError::Parse(e) => String::from_str(e.message()),
        }
    }
}

/// What happened, as far as the scraper has to know.
#[derive(Debug)]
pub enum Event {
    /// A client asks for the metrics. `now` is the monotonic clock.
    Request { now: u128 },
    /// The page has been fetched: these are its blocks. The fetch began at
    /// `start` and the page was there at `now`, both on the monotonic clock;
    /// `wall` is the wall clock at `now`, where it could be read.
    Page { blocks: Vec<Block>, start: u128, now: u128, wall: Option<u128> },
    /// The page could not be had.
    Failure { error: ScrapeError },
}

/// What is to be done next.
#[derive(Debug)]
pub enum Action {
    /// Fetch the page and come back with `Event::Page` or `Event::Failure`.
    Fetch,
    /// Answer the client with these metrics.
    Serve(String),
    /// There are no metrics, for this reason.
    Fail(ScrapeError),
}

/// An action as a mathematical value.
pub enum ActionView {
    Fetch,
    Serve(Seq<char>),
    Fail(ScrapeError),
}

impl View for Action {
    type V = ActionView;

    open spec fn view(&self) -> ActionView {
        match self {
            Action::Fetch => ActionView::Fetch,
            Action::Serve(text) => ActionView::Serve(text@),
            Action::Fail(error) => ActionView::Fail(*error),
        }
    }
}

/// The state of a scraper as a mathematical value.
pub struct ScraperView {
    /// The data frame of the last scrape that succeeded.
    pub cache: Option<DataFrame>,
    /// The tracked tickets, each with the time at which it was first
    /// expected.
    pub ticket_tracker: Map<TicketId, u128>,
}

/// Whether a data frame made at `created` may still be served at `now`: no
/// more than `ttl` has passed.
pub open spec fn fresh(created: u128, now: u128, ttl: u128) -> bool {
    elapsed(created, now) <= ttl
}

/// The cached data frame, where there is one that may still be served.
pub open spec fn lookup(cache: Option<DataFrame>, now: u128, ttl: u128) -> Option<DataFrame> {
    match cache {
        Some(data) => if fresh(data.created_instant, now, ttl) {
            Some(data)
        } else {
            None
        },
        None => None,
    }
}

/// `frame` with the wait that the tracker has measured.
pub open spec fn with_wait(frame: QueueDataFrame, wait: Option<u128>) -> QueueDataFrame {
    QueueDataFrame {
        people_waiting: frame.people_waiting,
        last_called_ticket: frame.last_called_ticket,
        waiting_time_estimation: frame.waiting_time_estimation,
        tracked_waiting_time: wait,
    }
}

/// `data`, marked as cached or not.
pub open spec fn marked(data: DataFrame, cached: bool) -> DataFrame {
    DataFrame {
        citizen_services: data.citizen_services,
        drivers_license_services: data.drivers_license_services,
        cached,
        scrape_duration: data.scrape_duration,
        created_instant: data.created_instant,
        created_timestamp: data.created_timestamp,
    }
}

/// One scrape of a page with these blocks, as a step from the state before
/// it to the state after it and the outcome.
///
/// A page that cannot be read changes nothing. Otherwise the first two queues
/// of the page are taken for the citizen services and the drivers-license
/// services, in this order. Each is shown to the ticket tracker, the citizen
/// services first, and gets the wait that the tracker has measured. The data
/// frame is not a cached one. It took the time from `start` to `now` to make
/// and was made at `now`, which on the wall clock is `wall`, or zero where the
/// wall clock could not be read. The cache stays as it is.
pub open spec fn scraped(
    state: ScraperView,
    blocks: Seq<BlockView>,
    start: u128,
    now: u128,
    wall: Option<u128>,
) -> (ScraperView, Result<DataFrame, ScrapeError>) {
    match extracted(blocks) {
        Err(e) => (state, Err(ScrapeError::Parse(e))),
        Ok(frames) => {
            let citizen = observe(
                state.ticket_tracker,
                frames[0].last_called_ticket,
                frames[0].people_waiting,
                TicketType::B,
                now,
            );
            let drivers_license = observe(
                citizen.0,
                frames[1].last_called_ticket,
                frames[1].people_waiting,
                TicketType::F,
                now,
            );
            (
                ScraperView { cache: state.cache, ticket_tracker: drivers_license.0 },
                Ok(
                    DataFrame {
                        citizen_services: with_wait(frames[0], citizen.1),
                        drivers_license_services: with_wait(frames[1], drivers_license.1),
                        cached: false,
                        scrape_duration: elapsed(start, now),
                        created_instant: now,
                        created_timestamp: match wall {
                            Some(timestamp) => timestamp,
                            None => 0,
                        },
                    },
                ),
            )
        },
    }
}

/// The metrics of `data` in `state`.
pub open spec fn served(state: ScraperView, data: DataFrame) -> ActionView {
    ActionView::Serve(metrics_text(data, state.ticket_tracker.dom().len()))
}

/// The answer to a request at `now`: the metrics of the cached data frame
/// while it is no older than `CACHE_EXPIRATION`, else the page has to be
/// fetched.
pub open spec fn requested(state: ScraperView, now: u128) -> ActionView {
    match lookup(state.cache, now, CACHE_EXPIRATION) {
        Some(data) => served(state, data),
        None => ActionView::Fetch,
    }
}

/// What a fetched page does. Where the scrape succeeds, its data frame is
/// marked as cached and takes the place of the cached one, and its metrics
/// are served. Where it fails, nothing changes: not the cache, nor the
/// tracker.
pub open spec fn refreshed(
    state: ScraperView,
    blocks: Seq<BlockView>,
    start: u128,
    now: u128,
    wall: Option<u128>,
) -> (ScraperView, ActionView) {
    let (after, outcome) = scraped(state, blocks, start, now, wall);
    match outcome {
        Ok(data) => {
            let next = ScraperView {
                cache: Some(marked(data, true)),
                ticket_tracker: after.ticket_tracker,
            };
            (next, served(next, marked(data, true)))
        },
        Err(e) => (state, ActionView::Fail(e)),
    }
}

/// One step of the pipeline: the state after `event` and what is to be done
/// next. A request and a failure leave the state as it is.
pub open spec fn step(state: ScraperView, event: Event) -> (ScraperView, ActionView) {
    match event {
        Event::Request { now } => (state, requested(state, now)),
        Event::Page { blocks, start, now, wall } => refreshed(
            state,
            block_views(blocks@),
            start,
            now,
            wall,
        ),
        Event::Failure { error } => (state, ActionView::Fail(error)),
    }
}

/// Two requests while the cached data frame may be served get the same
/// metrics, to the character, and leave the scraper as it is, the mark of the
/// data frame too.
pub proof fn lemma_cache_hit_repeats(state: ScraperView, first: u128, second: u128)
    requires
        state.cache is Some,
        fresh(state.cache->0.created_instant, first, CACHE_EXPIRATION),
        fresh(state.cache->0.created_instant, second, CACHE_EXPIRATION),
    ensures
        step(state, Event::Request { now: first }).0 == state,
        step(state, Event::Request { now: first }).1 is Serve,
        step(state, Event::Request { now: second }) == step(state, Event::Request { now: first }),
{
}

/// A request that comes no later than `CACHE_EXPIRATION` after a page was
/// scraped gets the metrics that the scrape itself has served, and leaves the
/// scraper as the scrape has left it.
pub proof fn lemma_refresh_then_hit(
    state: ScraperView,
    blocks: Seq<BlockView>,
    start: u128,
    now: u128,
    wall: Option<u128>,
    later: u128,
)
    requires
        refreshed(state, blocks, start, now, wall).1 is Serve,
        fresh(now, later, CACHE_EXPIRATION),
    ensures
        refreshed(state, blocks, start, now, wall).0.cache is Some,
        refreshed(state, blocks, start, now, wall).0.cache->0.cached,
        step(refreshed(state, blocks, start, now, wall).0, Event::Request { now: later }) == (
            refreshed(state, blocks, start, now, wall).0,
            refreshed(state, blocks, start, now, wall).1,
        ),
{
}

/// A request has the page fetched if and only if there is no cached data
/// frame or the cached one is older than `CACHE_EXPIRATION`. One request asks
/// for one fetch at most, and changes nothing itself.
pub proof fn lemma_fetch_when_expired(state: ScraperView, now: u128)
    ensures
        step(state, Event::Request { now }).0 == state,
        step(state, Event::Request { now }).1 is Fetch <==> (state.cache is None || elapsed(
            state.cache->0.created_instant,
            now,
        ) > CACHE_EXPIRATION),
        !(step(state, Event::Request { now }).1 is Fail),
{
}

/// A fetch that fails, and a page that cannot be read, leave the scraper as it
/// was: what was cached stays cached, and a request that asked for the fetch
/// would ask for it again.
pub proof fn lemma_failure_changes_nothing(state: ScraperView, event: Event)
    requires
        step(state, event).1 is Fail,
    ensures
        step(state, event).0 == state,
{
}

/// Whether the status of a response tells of success.
pub open spec fn is_success(status: u16) -> bool {
    200 <= status < 300
}

/// The reason of the failure that a response without success is.
pub open spec fn status_reason(status: u16) -> Seq<char> {
    "HTTP status "@ + decimal(status as nat)
}

/// Whether `outcome` is what reading the page `document` gives: the failure
/// of a page that has more than `MAX_PAGE_BYTES` bytes, else the blocks of the
/// page, or the failure that tells why a selector for the blocks is none.
pub open spec fn read_as(outcome: Result<Vec<Block>, ScrapeError>, document: Seq<char>) -> bool {
    if encode_utf8(document).len() > MAX_PAGE_BYTES {
        outcome matches Err(ScrapeError::Parse(e)) && e == ParseError::PageTooLong
    } else {
        match page_blocks(document) {
            Ok(found) => outcome matches Ok(blocks) && block_views(blocks@) == found,
            Err(reason) => outcome matches Err(ScrapeError::Selector(words)) && words@ == reason,
        }
    }
}

/// Whether `outcome` is what reading a response gives. A response whose
/// status is not one of success is a fetch that has failed, whatever came
/// with it; the body of every other response is the page.
pub open spec fn response_read_as(
    outcome: Result<Vec<Block>, ScrapeError>,
    status: u16,
    document: Seq<char>,
) -> bool {
    if is_success(status) {
        read_as(outcome, document)
    } else {
        outcome matches Err(ScrapeError::Fetch(e)) && e.reason@ == status_reason(status)
    }
}

/// The event that ends a fetch: the page with its times, or the failure.
pub open spec fn finished(
    outcome: Result<Vec<Block>, ScrapeError>,
    start: u128,
    now: u128,
    wall: Option<u128>,
) -> Event {
    match outcome {
        Ok(blocks) => Event::Page { blocks, start, now, wall },
        Err(error) => Event::Failure { error },
    }
}

/// Whether `event` is the event of the fetched page `document`: what reading
/// the page gives, with the three times where it gives blocks.
pub open spec fn fetched_as(
    event: Event,
    document: Seq<char>,
    start: u128,
    now: u128,
    wall: Option<u128>,
) -> bool {
    match event {
        Event::Page { blocks, start: s, now: n, wall: w } => read_as(Ok(blocks), document) && s
            == start && n == now && w == wall,
        Event::Failure { error } => read_as(Err(error), document),
        Event::Request { now: _ } => false,
    }
}

/// The scraper: the cached data frame and the ticket tracker.
pub struct Scraper {
    /// The data frame of the last scrape that succeeded.
    cache: Option<DataFrame>,
    /// Tracks the tickets that are expected to be called.
    ticket_tracker: Tracker,
}

impl View for Scraper {
    type V = ScraperView;

    closed spec fn view(&self) -> ScraperView {
        ScraperView { cache: self.cache, ticket_tracker: self.ticket_tracker@ }
    }
}

/// Reads the page `document`: see `read_as`.
pub fn read_page(document: &str) -> (outcome: Result<Vec<Block>, ScrapeError>)
    ensures
        read_as(outcome, document@),
{
    if document.as_bytes().len() > MAX_PAGE_BYTES {
        return Err(ScrapeError::Parse(ParseError::PageTooLong));
    }
    match read_blocks(document) {
        Ok(blocks) => Ok(blocks),
        Err(reason) => Err(ScrapeError::Selector(reason)),
    }
}

/// Reads a response to the fetch, of status `status` and with the body
/// `document`: see `response_read_as`.
pub fn read_response(status: u16, document: &str) -> (outcome: Result<Vec<Block>, ScrapeError>)
    ensures
        response_read_as(outcome, status, document@),
{
    if status < 200 || status >= 300 {
        let mut reason = String::from_str("HTTP status ");
        push_decimal(&mut reason, status as u128);
        return Err(ScrapeError::Fetch(FetchError { reason }));
    }
    read_page(document)
}

impl Event {
    /// The event that ends a fetch. `outcome` is what reading the response
    /// has given. The fetch began at `start`; `now` and `wall` are the clocks
    /// after the response was read.
    pub fn finished(
        outcome: Result<Vec<Block>, ScrapeError>,
        start: u128,
        now: u128,
        wall: Option<u128>,
    ) -> (event: Event)
        ensures
            event == finished(outcome, start, now, wall),
    {
        match outcome {
            Ok(blocks) => Event::Page { blocks, start, now, wall },
            Err(error) => Event::Failure { error },
        }
    }

    /// The event of a fetched page, for a caller that has the times at hand:
    /// `document` is read as by `read_page`.
    pub fn fetched(document: &str, start: u128, now: u128, wall: Option<u128>) -> (event: Event)
        ensures
            fetched_as(event, document@, start, now, wall),
    {
        Event::finished(read_page(document), start, now, wall)
    }

    /// The event of a response to the fetch, for a caller that has the times
    /// at hand: the response is read as by `read_response`.
    pub fn responded(
        status: u16,
        document: &str,
        start: u128,
        now: u128,
        wall: Option<u128>,
    ) -> (event: Event)
        ensures
            if is_success(status) {
                fetched_as(event, document@, start, now, wall)
            } else {
                event matches Event::Failure { error: ScrapeError::Fetch(e) } && e.reason@
                    == status_reason(status)
            },
    {
        Event::finished(read_response(status, document), start, now, wall)
    }

    /// The event of a fetch that has failed for `reason`.
    pub fn fetch_failed(reason: String) -> (event: Event)
        ensures
            event == (Event::Failure { error: ScrapeError::Fetch(FetchError { reason }) }),
    {
        Event::Failure { error: ScrapeError::Fetch(FetchError { reason }) }
    }
}

impl Scraper {
    /// A scraper that has cached nothing and tracks nothing.
    pub fn new() -> (scraper: Self)
        ensures
            scraper@ == (ScraperView { cache: None, ticket_tracker: Map::empty() }),
    {
        Scraper { cache: None, ticket_tracker: Tracker::new() }
    }

    /// The cached data frame.
    pub fn cache(&self) -> (cache: Option<DataFrame>)
        ensures
            cache == self@.cache,
    {
        self.cache
    }

    /// The number of tracked tickets.
    pub fn tracked_tickets(&self) -> (count: u128)
        ensures
            self@.ticket_tracker.dom().finite(),
            count == self@.ticket_tracker.dom().len(),
    {
        self.ticket_tracker.len()
    }

    /// The cached data frame, where it is no older than `ttl` at `now`.
    pub fn lookup(&self, now: u128, ttl: u128) -> (hit: Option<DataFrame>)
        ensures
            hit == lookup(self@.cache, now, ttl),
    {
        match self.cache {
            Some(data) => if time_between(data.created_instant, now) <= ttl {
                Some(data)
            } else {
                None
            },
            None => None,
        }
    }

    /// Shows the queue of service `expected_ticket_type` to the ticket
    /// tracker, as it is at `now`, and returns the wait that the tracker has
    /// measured for `ticket`: see `observe`.
    pub fn update_tracker(
        &mut self,
        ticket: Ticket,
        queue_length: usize,
        expected_ticket_type: TicketType,
        now: u128,
    ) -> (waited: Option<u128>)
        ensures
            final(self)@.cache == old(self)@.cache,
            (final(self)@.ticket_tracker, waited) == observe(
                old(self)@.ticket_tracker,
                ticket,
                queue_length,
                expected_ticket_type,
                now,
            ),
    {
        self.ticket_tracker.update(ticket, queue_length, expected_ticket_type, now)
    }

    /// Makes a data frame of a fetched page: see `scraped`.
    pub fn scrape(
        &mut self,
        blocks: &Vec<Block>,
        start: u128,
        now: u128,
        wall: Option<u128>,
    ) -> (outcome: Result<DataFrame, ScrapeError>)
        ensures
            (final(self)@, outcome) == scraped(old(self)@, block_views(blocks@), start, now, wall),
    {
        let frames = match extract(blocks) {
            Ok(frames) => frames,
            Err(e) => {
                return Err(ScrapeError::Parse(e));
            },
        };
        let first = frames[0];
        let second = frames[1];
        let citizen_wait = self.update_tracker(
            first.last_called_ticket,
            first.people_waiting,
            TicketType::B,
            now,
        );
        let drivers_license_wait = self.update_tracker(
            second.last_called_ticket,
            second.people_waiting,
            TicketType::F,
            now,
        );
        Ok(
            DataFrame {
                citizen_services: QueueDataFrame {
                    people_waiting: first.people_waiting,
                    last_called_ticket: first.last_called_ticket,
                    waiting_time_estimation: first.waiting_time_estimation,
                    tracked_waiting_time: citizen_wait,
                },
                drivers_license_services: QueueDataFrame {
                    people_waiting: second.people_waiting,
                    last_called_ticket: second.last_called_ticket,
                    waiting_time_estimation: second.waiting_time_estimation,
                    tracked_waiting_time: drivers_license_wait,
                },
                cached: false,
                scrape_duration: time_between(start, now),
                created_instant: now,
                created_timestamp: match wall {
                    Some(timestamp) => timestamp,
                    None => 0,
                },
            },
        )
    }

    /// One step of the pipeline: see `step`.
    pub fn metrics(&mut self, event: Event) -> (action: Action)
        ensures
            final(self)@ == step(old(self)@, event).0,
            action@ == step(old(self)@, event).1,
    {
        match event {
            Event::Request { now } => match self.lookup(now, CACHE_EXPIRATION) {
                Some(data) => Action::Serve(render(&data, self.ticket_tracker.len())),
                None => Action::Fetch,
            },
            Event::Page { blocks, start, now, wall } => match self.scrape(
                &blocks,
                start,
                now,
                wall,
            ) {
                Ok(data) => {
                    let stored = DataFrame {
                        citizen_services: data.citizen_services,
                        drivers_license_services: data.drivers_license_services,
                        cached: true,
                        scrape_duration: data.scrape_duration,
                        created_instant: data.created_instant,
                        created_timestamp: data.created_timestamp,
                    };
                    self.cache = Some(stored);
                    Action::Serve(render(&stored, self.ticket_tracker.len()))
                },
                Err(e) => Action::Fail(e),
            },
            Event::Failure { error } => Action::Fail(error),
        }
    }
}

} // verus!
