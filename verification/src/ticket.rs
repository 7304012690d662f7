//! Tickets: the label that the town hall shows for the person called last.

use crate::text::{chars_of, digits_number, parse_digits};
use vstd::prelude::*;
use vstd::slice::slice_subrange;

verus! {

/// The service that a ticket belongs to: citizen services (`B`),
/// drivers-license services (`F`), or `Absent` where the display shows no
/// ticket, as it does outside business hours.
#[derive(Debug, Clone, Copy, PartialEq, Eq, Hash, Structural)]
pub enum TicketType {
    B,
    F,
    Absent,
}

/// A ticket: its service and its sequence number. The number of a ticket of
/// type `Absent` is 0.
#[derive(Debug, Clone, Copy, PartialEq, Eq, Hash, Structural)]
pub struct Ticket(pub TicketType, pub usize);

/// The identity of a ticket as a mathematical value. Its number is not bounded
/// by the machine: a ticket that is expected to be called later may lie beyond
/// every number that a label can be read as.
pub struct TicketId {
    pub category: TicketType,
    pub number: nat,
}

impl View for Ticket {
    type V = TicketId;

    open spec fn view(&self) -> TicketId {
        TicketId { category: self.0, number: self.1 as nat }
    }
}

/// What a label reads as. A label that begins with `B` or `F` is a ticket of
/// that service, numbered by the rest of the label, and an error where the
/// rest is not a run of ASCII digits that writes a machine integer: no sign
/// may stand before the digits. Every other label, the empty one too, is the
/// ticket of type `Absent` with number 0, whatever follows its first
/// character.
pub open spec fn ticket_of(label: Seq<char>) -> Result<Ticket, ()> {
    if label.len() > 0 && (label[0] == 'B' || label[0] == 'F') {
        match digits_number(label.skip(1)) {
            Some(number) => Ok(
                Ticket(
                    if label[0] == 'B' {
                        TicketType::B
                    } else {
                        TicketType::F
                    },
                    number,
                ),
            ),
            None => Err(()),
        }
    } else {
        Ok(Ticket(TicketType::Absent, 0))
    }
}

impl TicketType {
    /// The text that stands for this type in the metrics: `B`, `F` or `N/A`.
    pub open spec fn spec_label(self) -> Seq<char> {
        match self {
            TicketType::B => "B"@,
            TicketType::F => "F"@,
            TicketType::Absent => "N/A"@,
        }
    }

    /// The text that stands for this type in the metrics.
    pub fn label(&self) -> (text: &'static str)
        ensures
            text@ == self.spec_label(),
    {
        match self {
            TicketType::B => "B",
            TicketType::F => "F",
            TicketType::Absent => "N/A",
        }
    }
}

impl Ticket {
    /// Reads a ticket label.
    pub fn parse(s: &str) -> (ticket: Result<Self, ()>)
        ensures
            ticket == ticket_of(s@),
    {
        let chars = chars_of(s);
        if chars.len() == 0 {
            return Ok(Ticket(TicketType::Absent, 0));
        }
        let t = if chars[0] == 'B' {
            TicketType::B
        } else if chars[0] == 'F' {
            TicketType::F
        } else {
            return Ok(Ticket(TicketType::Absent, 0));
        };
        let rest = slice_subrange(chars.as_slice(), 1, chars.len());
        assert(rest@ == s@.skip(1));
        match parse_digits(rest) {
            Some(number) => Ok(Ticket(t, number)),
            None => Err(()),
        }
    }
}

} // verus!
