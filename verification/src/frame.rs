//! Data frames: what one scrape of the town hall's page has found.
//!
//! Times are whole nanoseconds. A point in time is counted from the origin of
//! the clock that gave it: some fixed moment for the monotonic clock, the
//! Unix epoch for the wall clock.

use crate::ticket::Ticket;
use vstd::prelude::*;

verus! {

/// The state of one queue of the town hall.
#[derive(Debug, Clone, Copy, PartialEq, Eq)]
pub struct QueueDataFrame {
    /// Number of people waiting in line ("Wartende Personen").
    pub people_waiting: usize,
    /// Last called ticket ("Aktuelle Aufrufnummer").
    pub last_called_ticket: Ticket,
    /// Waiting time estimation in minutes ("Durchschnittliche Wartezeit").
    pub waiting_time_estimation: usize,
    /// The wait that the ticket tracker has measured for the ticket called
    /// last, where it has measured one.
    pub tracked_waiting_time: Option<u128>,
}

/// Everything known at one point in time.
#[derive(Debug, Clone, Copy, PartialEq, Eq)]
pub struct DataFrame {
    /// The queue of the citizen services ("Bürgerservice").
    pub citizen_services: QueueDataFrame,
    /// The queue of the drivers-license services
    /// ("Fahrerlaubnisangelegenheiten").
    pub drivers_license_services: QueueDataFrame,
    /// Whether this data frame has been put into the cache.
    pub cached: bool,
    /// How long it took to scrape the data.
    pub scrape_duration: u128,
    /// When the data frame was made, on the monotonic clock.
    pub created_instant: u128,
    /// When the data frame was made, on the wall clock.
    pub created_timestamp: u128,
}

} // verus!
