//! Alerts as text: a title and a body, the same for every channel.

use crate::api::{PowerInfo, PowerInfoView};
use crate::clock::LocalTime;
use crate::event::{NotificationEvent, NotificationEventView};
use crate::text::{amount_text, push_amount, push_timestamp, timestamp_text};
use vstd::prelude::*;
use vstd::string::StringExecFns;

verus! {

/// Title of a low-balance alert.
pub const LOW_BALANCE_TITLE: &'static str = "⚠️ [Low Power Warning]";

/// Title of a heartbeat.
pub const HEARTBEAT_TITLE: &'static str = "ℹ️ [Daily Report]";

/// Title of a login-failure alert.
pub const LOGIN_FAILURE_TITLE: &'static str = "❌ [Login Failed]";

/// Title of a fetch-failure alert.
pub const FETCH_FAILURE_TITLE: &'static str = "❌ [Fetch Failed]";

/// An alert put into words.
#[derive(Clone, Debug, PartialEq, Eq)]
pub struct Message {
    pub title: String,
    pub body: String,
}

/// An alert put into words, as a mathematical value.
pub struct MessageView {
    pub title: Seq<char>,
    pub body: Seq<char>,
}

impl View for Message {
    type V = MessageView;

    open spec fn view(&self) -> MessageView {
        MessageView { title: self.title@, body: self.body@ }
    }
}

/// The title that goes with an alert.
pub open spec fn event_title(event: NotificationEventView) -> Seq<char> {
    match event {
        NotificationEventView::LowBalance(_) => LOW_BALANCE_TITLE@,
        NotificationEventView::Heartbeat(_) => HEARTBEAT_TITLE@,
        NotificationEventView::LoginFailure(_) => LOGIN_FAILURE_TITLE@,
        NotificationEventView::ConsecutiveFetchFailures(_) => FETCH_FAILURE_TITLE@,
    }
}

/// The body of an alert about a reading: room, money, energy and time, with
/// `separator` between them.
pub open spec fn reading_body(reading: PowerInfoView, now: LocalTime, separator: Seq<char>) -> Seq<
    char,
> {
    "Room: "@ + reading.room_display_name + separator + "Money: "@ + amount_text(
        reading.remaining_money as int,
    ) + " CNY"@ + separator + "Energy: "@ + amount_text(reading.remaining_energy as int) + " kWh"@
        + separator + "Time: "@ + timestamp_text(now)
}

/// The body of an alert about a failure: what went wrong and when, with
/// `separator` between them.
pub open spec fn error_body(error: Seq<char>, now: LocalTime, separator: Seq<char>) -> Seq<char> {
    "Error: "@ + error + separator + "Time: "@ + timestamp_text(now)
}

/// The body that goes with an alert raised at `now`.
pub open spec fn event_body(event: NotificationEventView, now: LocalTime, separator: Seq<char>) -> Seq<
    char,
> {
    match event {
        NotificationEventView::LowBalance(reading) => reading_body(reading, now, separator),
        NotificationEventView::Heartbeat(reading) => reading_body(reading, now, separator),
        NotificationEventView::LoginFailure(error) => error_body(error, now, separator),
        NotificationEventView::ConsecutiveFetchFailures(error) => error_body(error, now, separator),
    }
}

/// An alert raised at `now`, put into words.
pub open spec fn event_message(event: NotificationEventView, now: LocalTime, separator: Seq<char>) -> MessageView {
    MessageView { title: event_title(event), body: event_body(event, now, separator) }
}

/// Title and body as one text, the title on a line of its own.
pub open spec fn message_text(message: MessageView) -> Seq<char> {
    message.title + "\n"@ + message.body
}

/// The title that goes with an alert.
pub fn title_of(event: &NotificationEvent) -> (title: &'static str)
    ensures
        title@ == event_title(event@),
{
    match event {
        NotificationEvent::LowBalance(_) => LOW_BALANCE_TITLE,
        NotificationEvent::Heartbeat(_) => HEARTBEAT_TITLE,
        NotificationEvent::LoginFailure(_) => LOGIN_FAILURE_TITLE,
        NotificationEvent::ConsecutiveFetchFailures(_) => FETCH_FAILURE_TITLE,
    }
}

/// Writes the body of an alert about a reading.
fn body_of_reading(reading: &PowerInfo, now: &LocalTime, separator: &str) -> (body: String)
    ensures
        body@ == reading_body(reading@, *now, separator@),
{
    let mut body = String::from_str("Room: ");
    body.append(reading.room_display_name.as_str());
    body.append(separator);
    body.append("Money: ");
    push_amount(&mut body, reading.remaining_money);
    body.append(" CNY");
    body.append(separator);
    body.append("Energy: ");
    push_amount(&mut body, reading.remaining_energy);
    body.append(" kWh");
    body.append(separator);
    body.append("Time: ");
    push_timestamp(&mut body, now);
    body
}

/// Writes the body of an alert about a failure.
fn body_of_error(error: &str, now: &LocalTime, separator: &str) -> (body: String)
    ensures
        body@ == error_body(error@, *now, separator@),
{
    let mut body = String::from_str("Error: ");
    body.append(error);
    body.append(separator);
    body.append("Time: ");
    push_timestamp(&mut body, now);
    body
}

/// Puts an alert raised at `now` into words. The parts of the body are
/// joined by `separator`: a line break for channels that show several lines,
/// a comma and a blank for those that show one.
pub fn format_event(event: &NotificationEvent, now: &LocalTime, separator: &str) -> (message: Message)
    ensures
        message@ == event_message(event@, *now, separator@),
{
    let title = String::from_str(title_of(event));
    let body = match event {
        NotificationEvent::LowBalance(reading) => body_of_reading(reading, now, separator),
        NotificationEvent::Heartbeat(reading) => body_of_reading(reading, now, separator),
        NotificationEvent::LoginFailure(error) => body_of_error(error.as_str(), now, separator),
        NotificationEvent::ConsecutiveFetchFailures(error) => body_of_error(
            error.as_str(),
            now,
            separator,
        ),
    };
    Message { title, body }
}

/// Joins title and body into one text, the title on a line of its own.
pub fn text_of(message: &Message) -> (text: String)
    ensures
        text@ == message_text(message@),
{
    let mut text = message.title.clone();
    text.append("\n");
    text.append(message.body.as_str());
    text
}

} // verus!
