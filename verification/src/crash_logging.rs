//! The report that a panic leaves in the crash log.

use vstd::prelude::*;

use crate::text::decimal_text;

verus! {

/// What a panic carried.
#[derive(Debug)]
pub enum PanicPayload {
    Text(String),
    Other,
}

/// What a panic carried, as a text.
pub open spec fn payload_text(payload: PanicPayload) -> Seq<char> {
    match payload {
        PanicPayload::Text(message) => message@,
        PanicPayload::Other => "non-string panic payload"@,
    }
}

/// What a panic carried, as a text.
pub fn extract_panic_payload(payload: PanicPayload) -> (r: String)
    ensures
        r@ == payload_text(payload),
        payload matches PanicPayload::Text(message) ==> r == message,
        payload is Other ==> r@ == "non-string panic payload"@,
{
    match payload {
        PanicPayload::Text(message) => message,
        PanicPayload::Other => "non-string panic payload".to_owned(),
    }
}

/// Where a panic happened.
#[derive(Debug)]
pub struct PanicLocation {
    pub file: String,
    pub line: u32,
}

/// Where a panic happened, as a text.
pub open spec fn location_text(location: Option<PanicLocation>) -> Seq<char> {
    match location {
        Some(place) => place.file@ + ":"@ + crate::text::decimal(place.line as nat),
        None => "unknown"@,
    }
}

/// The name of the thread, or `unnamed`.
pub open spec fn thread_text(name: Option<String>) -> Seq<char> {
    match name {
        Some(name) => name@,
        None => "unnamed"@,
    }
}

/// The entry of a panic in the crash log.
pub open spec fn report_text(
    timestamp: Seq<char>,
    thread: Option<String>,
    location: Option<PanicLocation>,
    payload: PanicPayload,
    backtrace: Seq<char>,
) -> Seq<char> {
    "["@ + timestamp + "] panic on thread '"@ + thread_text(thread) + "' at "@ + location_text(
        location,
    ) + "\nmessage: "@ + payload_text(payload) + "\nbacktrace:\n"@ + backtrace + "\n\n"@
}

/// The entry of a panic in the crash log.
pub fn panic_report(
    timestamp: &str,
    thread: Option<String>,
    location: Option<PanicLocation>,
    payload: PanicPayload,
    backtrace: &str,
) -> (r: String)
    ensures
        r@ == report_text(timestamp@, thread, location, payload, backtrace@),
        r@ == "["@ + timestamp@ + "] panic on thread '"@ + (match thread {
            Some(name) => name@,
            None => "unnamed"@,
        }) + "' at "@ + (match location {
            Some(place) => place.file@ + ":"@ + crate::text::decimal(place.line as nat),
            None => "unknown"@,
        }) + "\nmessage: "@ + (match payload {
            PanicPayload::Text(message) => message@,
            PanicPayload::Other => "non-string panic payload"@,
        }) + "\nbacktrace:\n"@ + backtrace@ + "\n\n"@,
{
    let thread_name: String = match thread {
        Some(name) => name,
        None => "unnamed".to_owned(),
    };
    let place: String = match location {
        Some(place) => {
            let mut text: String = place.file;
            text.append(":");
            text.append(decimal_text(place.line as u64).as_str());
            text
        },
        None => "unknown".to_owned(),
    };
    let mut report: String = "[".to_owned();
    report.append(timestamp);
    report.append("] panic on thread '");
    report.append(thread_name.as_str());
    report.append("' at ");
    report.append(place.as_str());
    report.append("\nmessage: ");
    report.append(extract_panic_payload(payload).as_str());
    report.append("\nbacktrace:\n");
    report.append(backtrace);
    report.append("\n\n");
    report
}

/// Nothing of a panic is lost: its report holds what it carried and the
/// backtrace, whatever else is known of it.
pub proof fn a_report_holds_what_the_panic_carried(
    timestamp: Seq<char>,
    thread: Option<String>,
    location: Option<PanicLocation>,
    payload: PanicPayload,
    backtrace: Seq<char>,
)
    ensures
        ({
            let report = report_text(timestamp, thread, location, payload, backtrace);
            &&& crate::text::contains_text(report, backtrace)
            &&& payload matches PanicPayload::Text(message) ==> crate::text::contains_text(
                report,
                message@,
            )
            &&& thread matches Some(name) ==> crate::text::contains_text(report, name@)
            &&& location matches Some(place) ==> crate::text::contains_text(
                report,
                place.file@ + ":"@ + crate::text::decimal(place.line as nat),
            )
            &&& crate::text::contains_text(report, timestamp)
        }),
{
    let report = report_text(timestamp, thread, location, payload, backtrace);
    let a = "["@ + timestamp + "] panic on thread '"@;
    let b = a + thread_text(thread) + "' at "@;
    let c = b + location_text(location) + "\nmessage: "@;
    let d = c + payload_text(payload) + "\nbacktrace:\n"@;
    assert(report == d + backtrace + "\n\n"@);
    crate::text::a_text_holds_what_stands_between(d, backtrace, "\n\n"@);
    let after_payload = "\nbacktrace:\n"@ + backtrace + "\n\n"@;
    assert(report =~= c + payload_text(payload) + after_payload);
    crate::text::a_text_holds_what_stands_between(c, payload_text(payload), after_payload);
    let after_place = "\nmessage: "@ + payload_text(payload) + after_payload;
    assert(report =~= b + location_text(location) + after_place);
    crate::text::a_text_holds_what_stands_between(b, location_text(location), after_place);
    let after_thread = "' at "@ + location_text(location) + after_place;
    assert(report =~= a + thread_text(thread) + after_thread);
    crate::text::a_text_holds_what_stands_between(a, thread_text(thread), after_thread);
    let after_time = "] panic on thread '"@ + thread_text(thread) + after_thread;
    assert(report =~= "["@ + timestamp + after_time);
    crate::text::a_text_holds_what_stands_between("["@, timestamp, after_time);
}

/// What is not known of a panic has a name of its own.
pub proof fn what_is_not_known_is_named()
    ensures
        payload_text(PanicPayload::Other) == "non-string panic payload"@,
        location_text(None) == "unknown"@,
        thread_text(None) == "unnamed"@,
{
}

} // verus!
