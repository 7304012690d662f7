use erth_exporter::frame::{DataFrame, QueueDataFrame};
use erth_exporter::render::render;
use erth_exporter::ticket::{Ticket, TicketType};

fn data() -> DataFrame {
    DataFrame {
        citizen_services: QueueDataFrame {
            people_waiting: 12,
            last_called_ticket: Ticket(TicketType::B, 3),
            waiting_time_estimation: 7,
            tracked_waiting_time: None,
        },
        drivers_license_services: QueueDataFrame {
            people_waiting: 4,
            last_called_ticket: Ticket(TicketType::F, 1),
            waiting_time_estimation: 3,
            tracked_waiting_time: None,
        },
        cached: false,
        scrape_duration: 0,
        created_instant: 0,
        created_timestamp: 0,
    }
}

#[test]
fn render_writes_every_line_in_order() {
    let expected = "# Information on the citizen service\n\
        erth_people_waiting{service=\"citizen\"}\t\t12\n\
        erth_last_called_ticket{service=\"citizen\",type=\"B\"}\t3\n\
        erth_waiting_time{service=\"citizen\"}\t\t7\n\
        \n# Information on the drivers-license service\n\
        erth_people_waiting{service=\"drivers_license\"}\t\t4\n\
        erth_last_called_ticket{service=\"drivers_license\",type=\"F\"}\t1\n\
        erth_waiting_time{service=\"drivers_license\"}\t\t3\n\
        \n# Meta information\n\
        erth_cached\t\t0\n\
        erth_tracked_tickets\t0\n\
        erth_scrape_duration\t0\n\
        erth_scrape_timestamp\t0\n";
    assert_eq!(render(&data(), 0), expected);
}

#[test]
fn render_writes_the_measured_waits_in_whole_seconds() {
    let mut data = data();
    data.citizen_services.tracked_waiting_time = Some(61_999_999_999);
    data.drivers_license_services.tracked_waiting_time = Some(999_999_999);
    let text = render(&data, 2);
    assert!(text.contains(
        "erth_waiting_time{service=\"citizen\"}\t\t7\n\
         erth_tracked_waiting_time{service=\"citizen\"}\t\t61\n\
         \n# Information on the drivers-license service\n"
    ));
    assert!(text.contains(
        "erth_waiting_time{service=\"drivers_license\"}\t\t3\n\
         erth_tracked_waiting_time{service=\"drivers_license\"}\t\t0\n\
         \n# Meta information\n"
    ));
}

#[test]
fn render_skips_the_ticket_where_there_is_none() {
    let mut data = data();
    data.citizen_services.last_called_ticket = Ticket(TicketType::Absent, 0);
    let text = render(&data, 0);
    assert!(text.starts_with(
        "# Information on the citizen service\n\
         erth_people_waiting{service=\"citizen\"}\t\t12\n\
         erth_waiting_time{service=\"citizen\"}\t\t7\n\
         \n# Information on the drivers-license service\n"
    ));
    assert!(!text.contains("erth_last_called_ticket{service=\"citizen\""));
    assert!(text.contains("erth_last_called_ticket{service=\"drivers_license\",type=\"F\"}\t1\n"));
    assert!(!text.contains("N/A"));
}

#[test]
fn render_tells_the_type_that_the_ticket_has() {
    let mut data = data();
    data.citizen_services.last_called_ticket = Ticket(TicketType::F, 9);
    let text = render(&data, 0);
    assert!(text.contains("erth_last_called_ticket{service=\"citizen\",type=\"F\"}\t9\n"));
}

#[test]
fn render_writes_the_meta_block() {
    let mut data = data();
    data.cached = true;
    data.scrape_duration = 1_234_999_999;
    data.created_instant = 77;
    data.created_timestamp = 1_700_000_000_123_456_789;
    let text = render(&data, 5);
    assert!(text.ends_with(
        "\n# Meta information\n\
         erth_cached\t\t1\n\
         erth_tracked_tickets\t5\n\
         erth_scrape_duration\t1234\n\
         erth_scrape_timestamp\t1700000000123\n"
    ));
}

#[test]
fn render_does_not_tell_the_monotonic_clock() {
    let mut later = data();
    later.created_instant = 123_456_789;
    assert_eq!(render(&data(), 1), render(&later, 1));
}

#[test]
fn render_writes_large_numbers() {
    let mut data = data();
    data.citizen_services.people_waiting = usize::MAX;
    data.citizen_services.last_called_ticket = Ticket(TicketType::B, usize::MAX);
    data.scrape_duration = u128::MAX;
    let text = render(&data, u128::MAX);
    assert!(text.contains(&format!("erth_people_waiting{{service=\"citizen\"}}\t\t{}\n", usize::MAX)));
    assert!(text.contains(&format!("type=\"B\"}}\t{}\n", usize::MAX)));
    assert!(text.contains(&format!("erth_tracked_tickets\t{}\n", u128::MAX)));
    assert!(text.contains(&format!("erth_scrape_duration\t{}\n", u128::MAX / 1_000_000)));
}
