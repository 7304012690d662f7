//! The metrics of a data frame as text, in the Prometheus exposition format:
//! one sample per line, the name of the metric, its labels in braces, tabs, and
//! the value.

use crate::frame::{DataFrame, QueueDataFrame};
use crate::text::{decimal, push_decimal};
use crate::ticket::TicketType;
use vstd::prelude::*;
use vstd::string::StringExecFns;

verus! {

/// Nanoseconds in a second.
pub const NANOS_PER_SECOND: u128 = 1_000_000_000;

/// Nanoseconds in a millisecond.
pub const NANOS_PER_MILLI: u128 = 1_000_000;

/// The label of the citizen services.
pub const CITIZEN: &'static str = "citizen";

/// The label of the drivers-license services.
pub const DRIVERS_LICENSE: &'static str = "drivers_license";

/// One line of the text: a metric, its labels, the gap and the value.
pub open spec fn sample(name: Seq<char>, labels: Seq<char>, gap: Seq<char>, value: nat) -> Seq<
    char,
> {
    name + labels + gap + decimal(value) + "\n"@
}

/// The labels of a sample that belongs to `service`.
pub open spec fn service_labels(service: Seq<char>) -> Seq<char> {
    "{service=\""@ + service + "\"}"@
}

/// The labels of the sample that tells the ticket called last.
pub open spec fn ticket_labels(service: Seq<char>, kind: TicketType) -> Seq<char> {
    "{service=\""@ + service + "\",type=\""@ + kind.spec_label() + "\"}"@
}

/// The sample of the ticket called last. There is none where the display
/// shows no ticket.
pub open spec fn ticket_sample(service: Seq<char>, frame: QueueDataFrame) -> Seq<char> {
    if frame.last_called_ticket.0 == TicketType::Absent {
        Seq::empty()
    } else {
        sample(
            "erth_last_called_ticket"@,
            ticket_labels(service, frame.last_called_ticket.0),
            "\t"@,
            frame.last_called_ticket.1 as nat,
        )
    }
}

/// The sample of the measured wait, in whole seconds. There is none where no
/// wait has been measured.
pub open spec fn wait_sample(service: Seq<char>, frame: QueueDataFrame) -> Seq<char> {
    match frame.tracked_waiting_time {
        Some(wait) => sample(
            "erth_tracked_waiting_time"@,
            service_labels(service),
            "\t\t"@,
            (wait / NANOS_PER_SECOND) as nat,
        ),
        None => Seq::empty(),
    }
}

/// The samples of one queue: people waiting, ticket called last, estimated
/// wait, measured wait.
pub open spec fn queue_text(service: Seq<char>, frame: QueueDataFrame) -> Seq<char> {
    sample("erth_people_waiting"@, service_labels(service), "\t\t"@, frame.people_waiting as nat)
        + ticket_sample(service, frame) + sample(
        "erth_waiting_time"@,
        service_labels(service),
        "\t\t"@,
        frame.waiting_time_estimation as nat,
    ) + wait_sample(service, frame)
}

/// The samples that tell of the scrape itself: whether the data frame is a
/// cached one, how many tickets are tracked, how long the scrape took and
/// when it ended, both in whole milliseconds.
pub open spec fn meta_text(data: DataFrame, tracked_tickets: nat) -> Seq<char> {
    sample(
        "erth_cached"@,
        Seq::empty(),
        "\t\t"@,
        if data.cached {
            1
        } else {
            0
        },
    ) + sample("erth_tracked_tickets"@, Seq::empty(), "\t"@, tracked_tickets) + sample(
        "erth_scrape_duration"@,
        Seq::empty(),
        "\t"@,
        (data.scrape_duration / NANOS_PER_MILLI) as nat,
    ) + sample(
        "erth_scrape_timestamp"@,
        Seq::empty(),
        "\t"@,
        (data.created_timestamp / NANOS_PER_MILLI) as nat,
    )
}

/// The whole text: the citizen services, the drivers-license services, the
/// scrape, each under a comment line and parted by an empty line.
pub open spec fn metrics_text(data: DataFrame, tracked_tickets: nat) -> Seq<char> {
    "# Information on the citizen service\n"@ + queue_text(CITIZEN@, data.citizen_services)
        + "\n# Information on the drivers-license service\n"@ + queue_text(
        DRIVERS_LICENSE@,
        data.drivers_license_services,
    ) + "\n# Meta information\n"@ + meta_text(data, tracked_tickets)
}

/// Appends one line to `out`.
fn push_sample(out: &mut String, name: &str, labels: &str, gap: &str, value: u128)
    ensures
        final(out)@ == old(out)@ + sample(name@, labels@, gap@, value as nat),
{
    out.append(name);
    out.append(labels);
    out.append(gap);
    push_decimal(out, value);
    out.append("\n");
    assert(out@ =~= old(out)@ + sample(name@, labels@, gap@, value as nat));
}

/// The labels of a sample that belongs to `service`.
fn labels_of_service(service: &str) -> (labels: String)
    ensures
        labels@ == service_labels(service@),
{
    let mut labels = String::new();
    labels.append("{service=\"");
    labels.append(service);
    labels.append("\"}");
    assert(labels@ =~= service_labels(service@));
    labels
}

/// The labels of the sample that tells the ticket called last.
fn labels_of_ticket(service: &str, kind: TicketType) -> (labels: String)
    ensures
        labels@ == ticket_labels(service@, kind),
{
    let mut labels = String::new();
    labels.append("{service=\"");
    labels.append(service);
    labels.append("\",type=\"");
    labels.append(kind.label());
    labels.append("\"}");
    assert(labels@ =~= ticket_labels(service@, kind));
    labels
}

/// Appends the samples of one queue to `out`.
fn push_queue(out: &mut String, service: &str, frame: &QueueDataFrame)
    ensures
        final(out)@ == old(out)@ + queue_text(service@, *frame),
{
    let labels = labels_of_service(service);
    push_sample(out, "erth_people_waiting", labels.as_str(), "\t\t", frame.people_waiting as u128);
    let ghost first = out@;
    match frame.last_called_ticket.0 {
        TicketType::Absent => {},
        kind => {
            let with_type = labels_of_ticket(service, kind);
            push_sample(
                out,
                "erth_last_called_ticket",
                with_type.as_str(),
                "\t",
                frame.last_called_ticket.1 as u128,
            );
        },
    }
    assert(out@ =~= first + ticket_sample(service@, *frame));
    push_sample(
        out,
        "erth_waiting_time",
        labels.as_str(),
        "\t\t",
        frame.waiting_time_estimation as u128,
    );
    let ghost third = out@;
    match frame.tracked_waiting_time {
        Some(wait) => {
            push_sample(
                out,
                "erth_tracked_waiting_time",
                labels.as_str(),
                "\t\t",
                wait / NANOS_PER_SECOND,
            );
        },
        None => {},
    }
    assert(out@ =~= third + wait_sample(service@, *frame));
    assert(out@ =~= old(out)@ + queue_text(service@, *frame));
}

/// Appends the samples that tell of the scrape itself to `out`.
fn push_meta(out: &mut String, data: &DataFrame, tracked_tickets: u128)
    ensures
        final(out)@ == old(out)@ + meta_text(*data, tracked_tickets as nat),
{
    let cached: u128 = if data.cached {
        1
    } else {
        0
    };
    push_sample(out, "erth_cached", "", "\t\t", cached);
    push_sample(out, "erth_tracked_tickets", "", "\t", tracked_tickets);
    push_sample(out, "erth_scrape_duration", "", "\t", data.scrape_duration / NANOS_PER_MILLI);
    push_sample(out, "erth_scrape_timestamp", "", "\t", data.created_timestamp / NANOS_PER_MILLI);
    proof {
        reveal_strlit("");
        assert(""@ =~= Seq::<char>::empty());
        assert(out@ =~= old(out)@ + meta_text(*data, tracked_tickets as nat));
    }
}

/// Writes the metrics of `data` as text. `tracked_tickets` is the number of
/// tickets that the ticket tracker holds.
pub fn render(data: &DataFrame, tracked_tickets: u128) -> (text: String)
    ensures
        text@ == metrics_text(*data, tracked_tickets as nat),
{
    let mut text = String::new();
    text.append("# Information on the citizen service\n");
    push_queue(&mut text, CITIZEN, &data.citizen_services);
    text.append("\n# Information on the drivers-license service\n");
    push_queue(&mut text, DRIVERS_LICENSE, &data.drivers_license_services);
    text.append("\n# Meta information\n");
    push_meta(&mut text, data, tracked_tickets);
    assert(text@ =~= metrics_text(*data, tracked_tickets as nat));
    text
}

} // verus!
