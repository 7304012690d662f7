use erth_exporter::ticket::{Ticket, TicketType};

#[test]
fn parse_reads_citizen_tickets() {
    assert_eq!(Ticket::parse("B42"), Ok(Ticket(TicketType::B, 42)));
    assert_eq!(Ticket::parse("B0"), Ok(Ticket(TicketType::B, 0)));
    assert_eq!(Ticket::parse("B007"), Ok(Ticket(TicketType::B, 7)));
}

#[test]
fn parse_reads_drivers_license_tickets() {
    assert_eq!(Ticket::parse("F7"), Ok(Ticket(TicketType::F, 7)));
    assert_eq!(Ticket::parse("F123456"), Ok(Ticket(TicketType::F, 123456)));
}

#[test]
fn parse_takes_other_labels_as_no_ticket() {
    assert_eq!(Ticket::parse("—"), Ok(Ticket(TicketType::Absent, 0)));
    assert_eq!(Ticket::parse(""), Ok(Ticket(TicketType::Absent, 0)));
    assert_eq!(Ticket::parse("-"), Ok(Ticket(TicketType::Absent, 0)));
    assert_eq!(Ticket::parse("X12"), Ok(Ticket(TicketType::Absent, 0)));
    assert_eq!(Ticket::parse("b42"), Ok(Ticket(TicketType::Absent, 0)));
    assert_eq!(Ticket::parse("42"), Ok(Ticket(TicketType::Absent, 0)));
    assert_eq!(Ticket::parse(" B42"), Ok(Ticket(TicketType::Absent, 0)));
    assert_eq!(Ticket::parse("N/A"), Ok(Ticket(TicketType::Absent, 0)));
}

#[test]
fn parse_fails_where_the_number_is_none() {
    assert_eq!(Ticket::parse("B"), Err(()));
    assert_eq!(Ticket::parse("F"), Err(()));
    assert_eq!(Ticket::parse("Bx"), Err(()));
    assert_eq!(Ticket::parse("B 42"), Err(()));
    assert_eq!(Ticket::parse("B42 "), Err(()));
    assert_eq!(Ticket::parse("B-1"), Err(()));
    assert_eq!(Ticket::parse("BB1"), Err(()));
    assert_eq!(Ticket::parse("F1F"), Err(()));
    assert_eq!(Ticket::parse("B—"), Err(()));
}

#[test]
fn parse_fails_where_the_number_is_too_large() {
    let largest = usize::MAX.to_string();
    assert_eq!(Ticket::parse(&format!("B{}", largest)), Ok(Ticket(TicketType::B, usize::MAX)));
    assert_eq!(Ticket::parse(&format!("B{}0", largest)), Err(()));
    assert_eq!(Ticket::parse("F340282366920938463463374607431768211456"), Err(()));
}

#[test]
fn parse_takes_no_sign_before_the_number() {
    assert_eq!(Ticket::parse("B+5"), Err(()));
    assert_eq!(Ticket::parse("B+42"), Err(()));
    assert_eq!(Ticket::parse("F+7"), Err(()));
    assert_eq!(Ticket::parse("F+"), Err(()));
    assert_eq!(Ticket::parse("B-5"), Err(()));
    assert_eq!(Ticket::parse("B4+2"), Err(()));
}

#[test]
fn label_names_the_type() {
    assert_eq!(TicketType::B.label(), "B");
    assert_eq!(TicketType::F.label(), "F");
    assert_eq!(TicketType::Absent.label(), "N/A");
}

#[test]
fn tickets_are_equal_by_type_and_number() {
    assert_eq!(Ticket(TicketType::B, 1), Ticket(TicketType::B, 1));
    assert_ne!(Ticket(TicketType::B, 1), Ticket(TicketType::F, 1));
    assert_ne!(Ticket(TicketType::B, 1), Ticket(TicketType::B, 2));
}
