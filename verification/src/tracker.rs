//! The ticket tracker: which tickets are expected to be called, and since when.
//!
//! Whenever a queue is observed, the ticket that will be called once everyone
//! now waiting has been served is written down with the time of the
//! observation. When that ticket is called, the time that has passed since is
//! the wait that a person joining the queue at that moment has had.

use crate::ticket::{Ticket, TicketId, TicketType};
use std::collections::HashMap;
use vstd::prelude::*;
use vstd::set_lib::lemma_map_size;

verus! {

broadcast use vstd::std_specs::hash::group_hash_axioms;

/// The time from `earlier` to `later` on one clock, and zero where `later`
/// lies before `earlier`.
pub open spec fn elapsed(earlier: u128, later: u128) -> u128 {
    if later >= earlier {
        (later - earlier) as u128
    } else {
        0
    }
}

/// The time from `earlier` to `later`, and zero where `later` lies before
/// `earlier`.
pub fn time_between(earlier: u128, later: u128) -> (span: u128)
    ensures
        span == elapsed(earlier, later),
{
    if later >= earlier {
        later - earlier
    } else {
        0
    }
}

/// The tickets of service `category`.
pub open spec fn tickets_of(category: TicketType) -> Set<TicketId> {
    Set::new(|id: TicketId| id.category == category)
}

/// One observation of a queue, as a step from the tracked tickets before it
/// to those after it and the wait that it measured.
///
/// `ticket` is the ticket called last, `queue_length` the number of people
/// waiting, `expected` the service of the queue and `now` the time of the
/// observation.
/// - Where the display shows no ticket, every tracked ticket of the service
///   is forgotten: the numbering starts over.
/// - A ticket of another service changes nothing.
/// - Otherwise the wait is the time since `ticket` was written down, if it
///   was. The ticket `queue_length` numbers further on is written down with
///   `now`, unless it is tracked already: its time stays.
pub open spec fn observe(
    entries: Map<TicketId, u128>,
    ticket: Ticket,
    queue_length: usize,
    expected: TicketType,
    now: u128,
) -> (Map<TicketId, u128>, Option<u128>) {
    if ticket.0 == TicketType::Absent {
        (entries.remove_keys(tickets_of(expected)), None)
    } else if ticket.0 != expected {
        (entries, None)
    } else {
        let predicted = TicketId { category: expected, number: (ticket.1 + queue_length) as nat };
        (
            if entries.contains_key(predicted) {
                entries
            } else {
                entries.insert(predicted, now)
            },
            if entries.contains_key(ticket@) {
                Some(elapsed(entries[ticket@], now))
            } else {
                None
            },
        )
    }
}

/// The ticket that an observation expects is tracked from then on, with the
/// time of the observation if it was not tracked before. When that ticket is
/// called, the wait is the time since that observation.
pub proof fn lemma_expected_ticket_is_timed(
    entries: Map<TicketId, u128>,
    category: TicketType,
    number: usize,
    queue_length: usize,
    seen: u128,
    later_queue_length: usize,
    called: u128,
)
    requires
        category != TicketType::Absent,
        number + queue_length <= usize::MAX,
        !entries.contains_key(
            TicketId { category, number: (number + queue_length) as nat },
        ),
    ensures
        ({
            let expected = Ticket(category, (number + queue_length) as usize);
            let after = observe(entries, Ticket(category, number), queue_length, category, seen).0;
            &&& after.contains_key(expected@)
            &&& after[expected@] == seen
            &&& observe(after, expected, later_queue_length, category, called).1 == Some(
                elapsed(seen, called),
            )
        }),
{
}

/// An observation that expects a ticket which is tracked already changes
/// nothing: the time of the ticket is not set anew.
pub proof fn lemma_redundant_observation_changes_nothing(
    entries: Map<TicketId, u128>,
    ticket: Ticket,
    queue_length: usize,
    now: u128,
)
    requires
        ticket.0 != TicketType::Absent,
        entries.contains_key(
            TicketId { category: ticket.0, number: (ticket.1 + queue_length) as nat },
        ),
    ensures
        observe(entries, ticket, queue_length, ticket.0, now).0 == entries,
{
}

/// No observation changes the time of a ticket that stays tracked.
pub proof fn lemma_times_stay(
    entries: Map<TicketId, u128>,
    ticket: Ticket,
    queue_length: usize,
    expected: TicketType,
    now: u128,
    id: TicketId,
)
    requires
        entries.contains_key(id),
        observe(entries, ticket, queue_length, expected, now).0.contains_key(id),
    ensures
        observe(entries, ticket, queue_length, expected, now).0[id] == entries[id],
{
}

/// Where the display shows no ticket, the tickets of the service are
/// forgotten, all of them and no others, and no wait is measured. Whatever
/// ticket of the service is observed next has no wait either: nothing stale is
/// left.
pub proof fn lemma_reset_forgets(
    entries: Map<TicketId, u128>,
    ticket: Ticket,
    queue_length: usize,
    category: TicketType,
    now: u128,
    next: Ticket,
    next_queue_length: usize,
    next_now: u128,
)
    requires
        ticket.0 == TicketType::Absent,
    ensures
        ({
            let after = observe(entries, ticket, queue_length, category, now);
            &&& after.1 is None
            &&& forall|id: TicketId|
                after.0.contains_key(id) <==> entries.contains_key(id) && id.category != category
            &&& forall|id: TicketId| after.0.contains_key(id) ==> after.0[id] == entries[id]
            &&& observe(after.0, next, next_queue_length, category, next_now).1 is None
        }),
{
}

/// The tracked tickets, each with the time at which it was first expected.
pub struct Tracker {
    citizen: HashMap<u128, u128>,
    drivers_license: HashMap<u128, u128>,
}

/// The ticket of service `category` that has the number `number`.
spec fn numbered(category: TicketType) -> spec_fn(u128) -> TicketId {
    |number: u128| TicketId { category, number: number as nat }
}

/// What a tracker of these two tables holds.
spec fn joined(citizen: Map<u128, u128>, drivers_license: Map<u128, u128>) -> Map<TicketId, u128> {
    Map::new(
        |id: TicketId|
            id.number <= u128::MAX && match id.category {
                TicketType::B => citizen.contains_key(id.number as u128),
                TicketType::F => drivers_license.contains_key(id.number as u128),
                TicketType::Absent => false,
            },
        |id: TicketId|
            match id.category {
                TicketType::B => citizen[id.number as u128],
                TicketType::F => drivers_license[id.number as u128],
                TicketType::Absent => 0,
            },
    )
}

/// A tracker holds as many tickets as its two tables have entries.
proof fn lemma_joined_len(citizen: Map<u128, u128>, drivers_license: Map<u128, u128>)
    requires
        citizen.dom().finite(),
        drivers_license.dom().finite(),
    ensures
        joined(citizen, drivers_license).dom().finite(),
        joined(citizen, drivers_license).dom().len() == citizen.dom().len()
            + drivers_license.dom().len(),
{
    let b = citizen.dom().map(numbered(TicketType::B));
    let f = drivers_license.dom().map(numbered(TicketType::F));
    lemma_map_size(citizen.dom(), b, numbered(TicketType::B));
    lemma_map_size(drivers_license.dom(), f, numbered(TicketType::F));
    assert(b.disjoint(f));
    vstd::set_lib::lemma_set_disjoint_lens(b, f);
    assert forall|id: TicketId| joined(citizen, drivers_license).dom().contains(id) implies (b
        + f).contains(id) by {
        let number = id.number as u128;
        if id.category == TicketType::B {
            assert(numbered(TicketType::B)(number) == id);
        } else {
            assert(numbered(TicketType::F)(number) == id);
        }
    }
    assert(joined(citizen, drivers_license).dom() =~= b + f);
}

impl View for Tracker {
    type V = Map<TicketId, u128>;

    closed spec fn view(&self) -> Map<TicketId, u128> {
        joined(self.citizen@, self.drivers_license@)
    }
}

impl Tracker {
    /// A tracker that tracks nothing.
    pub fn new() -> (tracker: Tracker)
        ensures
            tracker@ == Map::<TicketId, u128>::empty(),
    {
        let tracker = Tracker { citizen: HashMap::new(), drivers_license: HashMap::new() };
        assert(tracker@ =~= Map::<TicketId, u128>::empty());
        tracker
    }

    /// The number of tracked tickets.
    pub fn len(&self) -> (count: u128)
        ensures
            self@.dom().finite(),
            count == self@.dom().len(),
    {
        proof {
            lemma_joined_len(self.citizen@, self.drivers_license@);
        }
        self.citizen.len() as u128 + self.drivers_license.len() as u128
    }

    /// Takes in one observation of the queue of service `expected`: see
    /// `observe`.
    pub fn update(
        &mut self,
        ticket: Ticket,
        queue_length: usize,
        expected: TicketType,
        now: u128,
    ) -> (waited: Option<u128>)
        ensures
            (final(self)@, waited) == observe(old(self)@, ticket, queue_length, expected, now),
    {
        match ticket.0 {
            TicketType::Absent => {
                match expected {
                    TicketType::B => self.citizen.clear(),
                    TicketType::F => self.drivers_license.clear(),
                    TicketType::Absent => {},
                }
                assert(self@ =~= old(self)@.remove_keys(tickets_of(expected)));
                None
            },
            TicketType::B => {
                if expected != TicketType::B {
                    return None;
                }
                let waited = match self.citizen.get(&(ticket.1 as u128)) {
                    Some(since) => Some(time_between(*since, now)),
                    None => None,
                };
                let predicted: u128 = ticket.1 as u128 + queue_length as u128;
                if !self.citizen.contains_key(&predicted) {
                    self.citizen.insert(predicted, now);
                }
                assert(self@ =~= observe(old(self)@, ticket, queue_length, expected, now).0);
                waited
            },
            TicketType::F => {
                if expected != TicketType::F {
                    return None;
                }
                let waited = match self.drivers_license.get(&(ticket.1 as u128)) {
                    Some(since) => Some(time_between(*since, now)),
                    None => None,
                };
                let predicted: u128 = ticket.1 as u128 + queue_length as u128;
                if !self.drivers_license.contains_key(&predicted) {
                    self.drivers_license.insert(predicted, now);
                }
                assert(self@ =~= observe(old(self)@, ticket, queue_length, expected, now).0);
                waited
            },
        }
    }
}

} // verus!
