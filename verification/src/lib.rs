//! Decision engine of a balance monitor.
//!
//! The engine is told, poll by poll, what a fetch of the account balance
//! brought, and decides which alerts are due: a low balance, the daily
//! heartbeat, a failed login, a run of failed fetches. It puts each alert
//! into words and works out what every configured channel has to send for
//! it. Sending itself, like fetching and storing, is left to the caller.
//!
//! Amounts are whole hundredths throughout, and time is a plain record of
//! numbers, so that every decision is a function of its inputs.

pub mod api;
pub mod clock;
pub mod config;
pub mod event;
pub mod format;
pub mod laws;
pub mod notify;
pub mod recipients;
pub mod registry;
pub mod retry;
pub mod secrets;
pub mod sink;
pub mod text;
pub mod topic_url;
