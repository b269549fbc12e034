//! The alerts the engine can raise.

use crate::api::{PowerInfo, PowerInfoView};
use vstd::prelude::*;

verus! {

/// One alert, with what it is about.
#[derive(Debug, Clone, PartialEq, Eq)]
pub enum NotificationEvent {
    /// The balance is at or below the threshold.
    LowBalance(PowerInfo),
    /// The daily sign of life.
    Heartbeat(PowerInfo),
    /// Logging in failed; the text says how.
    LoginFailure(String),
    /// Fetching failed several times in a row; the text says how often.
    ConsecutiveFetchFailures(String),
}

/// An alert as a mathematical value.
pub enum NotificationEventView {
    LowBalance(PowerInfoView),
    Heartbeat(PowerInfoView),
    LoginFailure(Seq<char>),
    ConsecutiveFetchFailures(Seq<char>),
}

impl View for NotificationEvent {
    type V = NotificationEventView;

    open spec fn view(&self) -> NotificationEventView {
        match self {
            NotificationEvent::LowBalance(reading) => NotificationEventView::LowBalance(reading@),
            NotificationEvent::Heartbeat(reading) => NotificationEventView::Heartbeat(reading@),
            NotificationEvent::LoginFailure(text) => NotificationEventView::LoginFailure(text@),
            NotificationEvent::ConsecutiveFetchFailures(text) => {
                NotificationEventView::ConsecutiveFetchFailures(text@)
            },
        }
    }
}

/// The views of a list of alerts, in order.
pub open spec fn event_views(events: Seq<NotificationEvent>) -> Seq<NotificationEventView> {
    events.map_values(|e: NotificationEvent| e@)
}

} // verus!
