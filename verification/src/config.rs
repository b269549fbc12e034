//! Static policy of the monitor, fixed once at start-up.

use vstd::prelude::*;

verus! {

/// The channels an alert can leave by.
#[derive(Clone, Copy, Debug, PartialEq, Eq, Structural)]
pub enum NotifyType {
    Console,
    Webhook,
    Telegram,
    Pushover,
    Ntfy,
    Email,
}

impl Default for NotifyType {
    fn default() -> (kind: NotifyType)
        ensures
            kind == NotifyType::Console,
    {
        NotifyType::Console
    }
}

/// How a mail session protects itself.
#[derive(Clone, Copy, Debug, PartialEq, Eq, Structural)]
pub enum SmtpEncryption {
    /// Start in the clear and upgrade with STARTTLS.
    StartTls,
    /// TLS from the first byte.
    Tls,
    /// No encryption at all.
    Plain,
}

/// What to alert about, how often, and through which channels.
#[derive(Clone, Debug)]
pub struct NotifyConfig {
    /// Master switch: with it off nothing is ever sent.
    pub enabled: bool,
    /// A balance at or below this many hundredths of a yuan counts as low.
    pub threshold: i64,
    /// Minutes that must pass before a standing low balance is reported again.
    pub cooldown_minutes: u64,
    /// Whether to send one heartbeat a day.
    pub heartbeat_enabled: bool,
    /// Local hour (0 to 23) in which the heartbeat goes out.
    pub heartbeat_hour: u32,
    /// Whether a failed login is reported.
    pub login_failure_enabled: bool,
    /// Whether runs of failed fetches are reported.
    pub fetch_failure_enabled: bool,
    /// Length of a run of failed fetches from which on it is reported.
    pub fetch_failure_threshold: u64,
    /// Minutes that must pass before a standing run of failures is reported again.
    pub fetch_failure_cooldown_minutes: u64,
    /// The channels to use, in the order in which they are served.
    pub notify_types: Vec<NotifyType>,
    pub webhook_url: String,
    pub telegram_bot_token: String,
    pub telegram_chat_id: String,
    pub pushover_api_token: String,
    pub pushover_user_key: String,
    pub pushover_priority: i32,
    /// Seconds between repeats of an emergency push.
    pub pushover_retry: u32,
    /// Seconds after which an emergency push stops repeating.
    pub pushover_expire: u32,
    pub ntfy_topic_url: String,
    pub ntfy_priority: u32,
    pub smtp_server: String,
    pub smtp_port: u16,
    pub smtp_username: String,
    pub smtp_password: String,
    pub smtp_encryption: SmtpEncryption,
    pub email_from: String,
    /// Recipients, separated by commas.
    pub email_to: String,
}

impl Default for NotifyConfig {
    /// Everything off, zero or empty; mail over STARTTLS.
    fn default() -> (config: NotifyConfig)
        ensures
            !config.enabled,
            config.threshold == 0,
            config.cooldown_minutes == 0,
            !config.heartbeat_enabled,
            config.heartbeat_hour == 0,
            !config.login_failure_enabled,
            !config.fetch_failure_enabled,
            config.fetch_failure_threshold == 0,
            config.fetch_failure_cooldown_minutes == 0,
            config.notify_types@ == Seq::<NotifyType>::empty(),
            config.webhook_url@ == Seq::<char>::empty(),
            config.telegram_bot_token@ == Seq::<char>::empty(),
            config.telegram_chat_id@ == Seq::<char>::empty(),
            config.pushover_api_token@ == Seq::<char>::empty(),
            config.pushover_user_key@ == Seq::<char>::empty(),
            config.pushover_priority == 0,
            config.pushover_retry == 0,
            config.pushover_expire == 0,
            config.ntfy_topic_url@ == Seq::<char>::empty(),
            config.ntfy_priority == 0,
            config.smtp_server@ == Seq::<char>::empty(),
            config.smtp_port == 0,
            config.smtp_username@ == Seq::<char>::empty(),
            config.smtp_password@ == Seq::<char>::empty(),
            config.smtp_encryption == SmtpEncryption::StartTls,
            config.email_from@ == Seq::<char>::empty(),
            config.email_to@ == Seq::<char>::empty(),
    {
        NotifyConfig {
            enabled: false,
            threshold: 0,
            cooldown_minutes: 0,
            heartbeat_enabled: false,
            heartbeat_hour: 0,
            login_failure_enabled: false,
            fetch_failure_enabled: false,
            fetch_failure_threshold: 0,
            fetch_failure_cooldown_minutes: 0,
            notify_types: Vec::new(),
            webhook_url: String::new(),
            telegram_bot_token: String::new(),
            telegram_chat_id: String::new(),
            pushover_api_token: String::new(),
            pushover_user_key: String::new(),
            pushover_priority: 0,
            pushover_retry: 0,
            pushover_expire: 0,
            ntfy_topic_url: String::new(),
            ntfy_priority: 0,
            smtp_server: String::new(),
            smtp_port: 0,
            smtp_username: String::new(),
            smtp_password: String::new(),
            smtp_encryption: SmtpEncryption::StartTls,
            email_from: String::new(),
            email_to: String::new(),
        }
    }
}

/// Everything the monitor is told at start-up.
#[derive(Clone, Debug)]
pub struct AppConfig {
    pub username: String,
    pub password: String,
    pub service_url: Option<String>,
    pub database_url: String,
    /// Seconds between two polls.
    pub interval_seconds: u64,
    pub notify: NotifyConfig,
}

/// Seconds between two polls when none is configured: ten minutes.
pub fn default_interval() -> (seconds: u64)
    ensures
        seconds == 600,
{
    600
}

/// Low-balance threshold when none is configured: five yuan, in hundredths.
pub fn default_threshold() -> (hundredths: i64)
    ensures
        hundredths == 500,
{
    500
}

/// Cooldown when none is configured: eight hours and forty minutes.
pub fn default_cooldown_minutes() -> (minutes: u64)
    ensures
        minutes == 520,
{
    520
}

/// Hour of the heartbeat when none is configured: nine in the morning.
pub fn default_heartbeat_hour() -> (hour: u32)
    ensures
        hour == 9,
{
    9
}

} // verus!
