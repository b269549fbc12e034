//! The channels: what each needs to be told, and what it sends for an alert.

use crate::api::{PowerInfo, PowerInfoView};
use crate::clock::LocalTime;
use crate::config::{NotifyType, SmtpEncryption};
use crate::event::{NotificationEvent, NotificationEventView};
use crate::format::{event_body, event_message, event_title, format_event, message_text, text_of};
use crate::text::{
    decimal, pair_views, push_decimal, push_signed, signed_decimal, text_views,
};
use vstd::prelude::*;
use vstd::string::StringExecFns;

verus! {

/// Where a chat bot posts its messages: this, the bot's token, and [`TELEGRAM_SEND`].
pub const TELEGRAM_API: &'static str = "https://api.telegram.org/bot";

/// The call that posts a chat message.
pub const TELEGRAM_SEND: &'static str = "/sendMessage";

/// Where pushes are handed in.
pub const PUSHOVER_URL: &'static str = "https://api.pushover.net/1/messages.json";

/// The lowest priority the push service knows.
pub const PUSHOVER_PRIORITY_MIN: i32 = -2;

/// The highest priority the push service knows: an emergency, repeated
/// until someone confirms it.
pub const PUSHOVER_PRIORITY_MAX: i32 = 2;

/// The shortest time, in seconds, between repeats of an emergency push.
pub const PUSHOVER_RETRY_MIN: u32 = 30;

/// The longest time, in seconds, for which an emergency push is repeated.
pub const PUSHOVER_EXPIRE_MAX: u32 = 10800;

/// The lowest priority a topic push can have.
pub const NTFY_PRIORITY_MIN: u32 = 1;

/// The highest priority a topic push can have.
pub const NTFY_PRIORITY_MAX: u32 = 5;

/// Prints alerts on standard output.
#[derive(Clone, Copy, Debug, PartialEq, Eq, Structural)]
pub struct ConsoleNotifier;

/// Posts readings to a URL.
#[derive(Clone, Debug, PartialEq, Eq)]
pub struct WebhookNotifier {
    pub url: String,
}

/// Sends chat messages through a bot.
#[derive(Clone, Debug, PartialEq, Eq)]
pub struct TelegramNotifier {
    pub bot_token: String,
    pub chat_id: String,
}

/// How an emergency push is repeated, in seconds.
#[derive(Clone, Copy, Debug, PartialEq, Eq, Structural)]
pub struct EmergencyRepeat {
    pub retry: u32,
    pub expire: u32,
}

/// Sends pushes through the push service.
#[derive(Clone, Debug, PartialEq, Eq)]
pub struct PushoverNotifier {
    pub api_token: String,
    pub user_key: String,
    pub priority: i32,
    /// Set exactly for pushes of the highest priority.
    pub emergency: Option<EmergencyRepeat>,
}

/// Publishes to a topic.
#[derive(Clone, Debug, PartialEq, Eq)]
pub struct NtfyNotifier {
    pub topic_url: String,
    pub priority: u32,
}

/// Sends mail.
#[derive(Clone, Debug, PartialEq, Eq)]
pub struct EmailNotifier {
    pub server: String,
    pub port: u16,
    pub username: String,
    pub password: String,
    pub encryption: SmtpEncryption,
    pub from: String,
    pub recipients: Vec<String>,
}

/// A channel, ready to be used.
#[derive(Clone, Debug, PartialEq, Eq)]
pub enum Sink {
    Console(ConsoleNotifier),
    Webhook(WebhookNotifier),
    Telegram(TelegramNotifier),
    Pushover(PushoverNotifier),
    Ntfy(NtfyNotifier),
    Email(EmailNotifier),
}

/// What a channel has to do for one alert. Carrying it out is left to the
/// caller.
#[derive(Clone, Debug, PartialEq, Eq)]
pub enum Delivery {
    /// Nothing to send; this counts as delivered.
    Nothing,
    /// Print a line.
    Print { line: String },
    /// Post the reading as JSON, with the kind of alert in the header `X-Event-Type`.
    PostReading { url: String, event_type: String, reading: PowerInfo },
    /// Post form fields.
    PostForm { url: String, fields: Vec<(String, String)> },
    /// Post a text, with headers.
    PostText { url: String, headers: Vec<(String, String)>, body: String },
    /// Send a mail to every recipient.
    Mail { from: String, recipients: Vec<String>, subject: String, body: String },
}

/// What a channel has to do for one alert, as a mathematical value.
pub enum DeliveryView {
    Nothing,
    Print { line: Seq<char> },
    PostReading { url: Seq<char>, event_type: Seq<char>, reading: PowerInfoView },
    PostForm { url: Seq<char>, fields: Seq<(Seq<char>, Seq<char>)> },
    PostText { url: Seq<char>, headers: Seq<(Seq<char>, Seq<char>)>, body: Seq<char> },
    Mail { from: Seq<char>, recipients: Seq<Seq<char>>, subject: Seq<char>, body: Seq<char> },
}

impl View for Delivery {
    type V = DeliveryView;

    open spec fn view(&self) -> DeliveryView {
        match self {
            Delivery::Nothing => DeliveryView::Nothing,
            Delivery::Print { line } => DeliveryView::Print { line: line@ },
            Delivery::PostReading { url, event_type, reading } => DeliveryView::PostReading {
                url: url@,
                event_type: event_type@,
                reading: reading@,
            },
            Delivery::PostForm { url, fields } => DeliveryView::PostForm {
                url: url@,
                fields: pair_views(fields@),
            },
            Delivery::PostText { url, headers, body } => DeliveryView::PostText {
                url: url@,
                headers: pair_views(headers@),
                body: body@,
            },
            Delivery::Mail { from, recipients, subject, body } => DeliveryView::Mail {
                from: from@,
                recipients: text_views(recipients@),
                subject: subject@,
                body: body@,
            },
        }
    }
}

/// What the console prints for an alert: title and body on one line.
pub open spec fn console_delivery(event: NotificationEventView, now: LocalTime) -> DeliveryView {
    DeliveryView::Print { line: event_title(event) + " "@ + event_body(event, now, ", "@) }
}

/// What a webhook posts for an alert. It knows only alerts about readings;
/// for any other it has nothing to do.
pub open spec fn webhook_delivery(url: Seq<char>, event: NotificationEventView) -> DeliveryView {
    match event {
        NotificationEventView::LowBalance(reading) => DeliveryView::PostReading {
            url,
            event_type: "low_balance"@,
            reading,
        },
        NotificationEventView::Heartbeat(reading) => DeliveryView::PostReading {
            url,
            event_type: "heartbeat"@,
            reading,
        },
        _ => DeliveryView::Nothing,
    }
}

/// What the chat bot posts for an alert.
pub open spec fn telegram_delivery(
    bot_token: Seq<char>,
    chat_id: Seq<char>,
    event: NotificationEventView,
    now: LocalTime,
) -> DeliveryView {
    DeliveryView::PostForm {
        url: TELEGRAM_API@ + bot_token + TELEGRAM_SEND@,
        fields: seq![
            ("chat_id"@, chat_id),
            ("text"@, message_text(event_message(event, now, "\n"@))),
        ],
    }
}

/// What the push service is handed for an alert.
pub open spec fn pushover_delivery(
    api_token: Seq<char>,
    user_key: Seq<char>,
    priority: i32,
    emergency: Option<EmergencyRepeat>,
    event: NotificationEventView,
    now: LocalTime,
) -> DeliveryView {
    let always = seq![
        ("token"@, api_token),
        ("user"@, user_key),
        ("title"@, event_title(event)),
        ("message"@, event_body(event, now, "\n"@)),
        ("priority"@, signed_decimal(priority as int, 1)),
    ];
    let repeat = match emergency {
        Some(e) => seq![
            ("retry"@, decimal(e.retry as nat)),
            ("expire"@, decimal(e.expire as nat)),
        ],
        None => Seq::<(Seq<char>, Seq<char>)>::empty(),
    };
    DeliveryView::PostForm { url: PUSHOVER_URL@, fields: always + repeat }
}

/// What is published to a topic for an alert.
pub open spec fn ntfy_delivery(
    topic_url: Seq<char>,
    priority: u32,
    event: NotificationEventView,
    now: LocalTime,
) -> DeliveryView {
    DeliveryView::PostText {
        url: topic_url,
        headers: seq![("Priority"@, decimal(priority as nat))],
        body: message_text(event_message(event, now, "\n"@)),
    }
}

/// The mail that is sent for an alert.
pub open spec fn email_delivery(
    from: Seq<char>,
    recipients: Seq<Seq<char>>,
    event: NotificationEventView,
    now: LocalTime,
) -> DeliveryView {
    DeliveryView::Mail {
        from,
        recipients,
        subject: event_title(event),
        body: event_body(event, now, "\n"@),
    }
}

/// A name and a value as a pair of texts.
fn pair(name: &str, value: String) -> (p: (String, String))
    ensures
        p.0@ == name@,
        p.1@ == value@,
{
    (String::from_str(name), value)
}

/// A copy of a list of texts that views the same.
pub fn duplicate_texts(texts: &Vec<String>) -> (copy: Vec<String>)
    ensures
        text_views(copy@) == text_views(texts@),
{
    let mut copy: Vec<String> = Vec::new();
    let mut i: usize = 0;
    while i < texts.len()
        invariant
            i <= texts.len(),
            text_views(copy@) == text_views(texts@.take(i as int)),
        decreases texts.len() - i,
    {
        copy.push(texts[i].clone());
        assert(text_views(texts@.take(i + 1)) =~= text_views(texts@.take(i as int)).push(
            texts@[i as int]@,
        ));
        i = i + 1;
    }
    copy
}

/// A channel: it knows what has to be sent for an alert.
pub trait Notifier {
    /// What this channel has to do for an alert raised at `now`.
    spec fn delivery(&self, event: NotificationEventView, now: LocalTime) -> DeliveryView;

    /// Works out what this channel has to do for an alert raised at `now`.
    fn notify(&self, event: &NotificationEvent, now: &LocalTime) -> (delivery: Delivery)
        ensures
            delivery@ == self.delivery(event@, *now),
    ;
}

impl Notifier for ConsoleNotifier {
    open spec fn delivery(&self, event: NotificationEventView, now: LocalTime) -> DeliveryView {
        console_delivery(event, now)
    }

    fn notify(&self, event: &NotificationEvent, now: &LocalTime) -> (delivery: Delivery) {
        let message = format_event(event, now, ", ");
        let mut line = message.title;
        line.append(" ");
        line.append(message.body.as_str());
        Delivery::Print { line }
    }
}

impl WebhookNotifier {
    /// A webhook that posts to `url`.
    pub fn new(url: String) -> (notifier: WebhookNotifier)
        ensures
            notifier.url == url,
    {
        WebhookNotifier { url }
    }
}

impl Notifier for WebhookNotifier {
    open spec fn delivery(&self, event: NotificationEventView, now: LocalTime) -> DeliveryView {
        webhook_delivery(self.url@, event)
    }

    fn notify(&self, event: &NotificationEvent, now: &LocalTime) -> (delivery: Delivery) {
        match event {
            NotificationEvent::LowBalance(reading) => Delivery::PostReading {
                url: self.url.clone(),
                event_type: String::from_str("low_balance"),
                reading: reading.duplicate(),
            },
            NotificationEvent::Heartbeat(reading) => Delivery::PostReading {
                url: self.url.clone(),
                event_type: String::from_str("heartbeat"),
                reading: reading.duplicate(),
            },
            _ => Delivery::Nothing,
        }
    }
}

impl TelegramNotifier {
    /// A bot with this token that writes to this chat.
    pub fn new(bot_token: String, chat_id: String) -> (notifier: TelegramNotifier)
        ensures
            notifier.bot_token == bot_token,
            notifier.chat_id == chat_id,
    {
        TelegramNotifier { bot_token, chat_id }
    }
}

impl Notifier for TelegramNotifier {
    open spec fn delivery(&self, event: NotificationEventView, now: LocalTime) -> DeliveryView {
        telegram_delivery(self.bot_token@, self.chat_id@, event, now)
    }

    fn notify(&self, event: &NotificationEvent, now: &LocalTime) -> (delivery: Delivery) {
        let mut url = String::from_str(TELEGRAM_API);
        url.append(self.bot_token.as_str());
        url.append(TELEGRAM_SEND);
        let message = format_event(event, now, "\n");
        let mut fields: Vec<(String, String)> = Vec::new();
        fields.push(pair("chat_id", self.chat_id.clone()));
        fields.push(pair("text", text_of(&message)));
        assert(pair_views(fields@) =~= seq![
            ("chat_id"@, self.chat_id@),
            ("text"@, message_text(event_message(event@, *now, "\n"@))),
        ]);
        Delivery::PostForm { url, fields }
    }
}

impl Notifier for PushoverNotifier {
    open spec fn delivery(&self, event: NotificationEventView, now: LocalTime) -> DeliveryView {
        pushover_delivery(
            self.api_token@,
            self.user_key@,
            self.priority,
            self.emergency,
            event,
            now,
        )
    }

    fn notify(&self, event: &NotificationEvent, now: &LocalTime) -> (delivery: Delivery) {
        let message = format_event(event, now, "\n");
        let mut priority = String::new();
        push_signed(&mut priority, self.priority as i64, 1);
        let mut fields: Vec<(String, String)> = Vec::new();
        fields.push(pair("token", self.api_token.clone()));
        fields.push(pair("user", self.user_key.clone()));
        fields.push(pair("title", message.title));
        fields.push(pair("message", message.body));
        fields.push(pair("priority", priority));
        match self.emergency {
            Some(e) => {
                let mut retry = String::new();
                push_decimal(&mut retry, e.retry as u64);
                let mut expire = String::new();
                push_decimal(&mut expire, e.expire as u64);
                fields.push(pair("retry", retry));
                fields.push(pair("expire", expire));
            },
            None => {},
        }
        let url = String::from_str(PUSHOVER_URL);
        assert(pair_views(fields@) =~= pushover_delivery(
            self.api_token@,
            self.user_key@,
            self.priority,
            self.emergency,
            event@,
            *now,
        )->PostForm_fields);
        Delivery::PostForm { url, fields }
    }
}

impl Notifier for NtfyNotifier {
    open spec fn delivery(&self, event: NotificationEventView, now: LocalTime) -> DeliveryView {
        ntfy_delivery(self.topic_url@, self.priority, event, now)
    }

    fn notify(&self, event: &NotificationEvent, now: &LocalTime) -> (delivery: Delivery) {
        let message = format_event(event, now, "\n");
        let mut priority = String::new();
        push_decimal(&mut priority, self.priority as u64);
        let mut headers: Vec<(String, String)> = Vec::new();
        headers.push(pair("Priority", priority));
        assert(pair_views(headers@) =~= seq![("Priority"@, decimal(self.priority as nat))]);
        Delivery::PostText { url: self.topic_url.clone(), headers, body: text_of(&message) }
    }
}

impl Notifier for EmailNotifier {
    open spec fn delivery(&self, event: NotificationEventView, now: LocalTime) -> DeliveryView {
        email_delivery(self.from@, text_views(self.recipients@), event, now)
    }

    fn notify(&self, event: &NotificationEvent, now: &LocalTime) -> (delivery: Delivery) {
        let message = format_event(event, now, "\n");
        Delivery::Mail {
            from: self.from.clone(),
            recipients: duplicate_texts(&self.recipients),
            subject: message.title,
            body: message.body,
        }
    }
}

impl Sink {
    /// The kind of channel this is.
    pub open spec fn kind_of(&self) -> NotifyType {
        match self {
            Sink::Console(_) => NotifyType::Console,
            Sink::Webhook(_) => NotifyType::Webhook,
            Sink::Telegram(_) => NotifyType::Telegram,
            Sink::Pushover(_) => NotifyType::Pushover,
            Sink::Ntfy(_) => NotifyType::Ntfy,
            Sink::Email(_) => NotifyType::Email,
        }
    }

    /// The kind of channel this is.
    pub fn kind(&self) -> (kind: NotifyType)
        ensures
            kind == self.kind_of(),
    {
        match self {
            Sink::Console(_) => NotifyType::Console,
            Sink::Webhook(_) => NotifyType::Webhook,
            Sink::Telegram(_) => NotifyType::Telegram,
            Sink::Pushover(_) => NotifyType::Pushover,
            Sink::Ntfy(_) => NotifyType::Ntfy,
            Sink::Email(_) => NotifyType::Email,
        }
    }

}

impl Notifier for Sink {
    open spec fn delivery(&self, event: NotificationEventView, now: LocalTime) -> DeliveryView {
        match self {
            Sink::Console(c) => c.delivery(event, now),
            Sink::Webhook(w) => w.delivery(event, now),
            Sink::Telegram(t) => t.delivery(event, now),
            Sink::Pushover(p) => p.delivery(event, now),
            Sink::Ntfy(n) => n.delivery(event, now),
            Sink::Email(e) => e.delivery(event, now),
        }
    }

    fn notify(&self, event: &NotificationEvent, now: &LocalTime) -> (delivery: Delivery) {
        match self {
            Sink::Console(c) => c.notify(event, now),
            Sink::Webhook(w) => w.notify(event, now),
            Sink::Telegram(t) => t.notify(event, now),
            Sink::Pushover(p) => p.notify(event, now),
            Sink::Ntfy(n) => n.notify(event, now),
            Sink::Email(e) => e.notify(event, now),
        }
    }
}

/// Whether `deliveries` holds, channel by channel, what each of `sinks` has
/// to do for `event`.
pub open spec fn fans_out(
    deliveries: Seq<Delivery>,
    sinks: Seq<Sink>,
    event: NotificationEventView,
    now: LocalTime,
) -> bool {
    &&& deliveries.len() == sinks.len()
    &&& forall|j: int|
        0 <= j < sinks.len() ==> (#[trigger] deliveries[j])@ == sinks[j].delivery(event, now)
}

/// Hands one alert to every channel: what comes back holds one delivery for
/// each channel, in the order of the channels. No channel is passed over.
pub fn fan_out(sinks: &Vec<Sink>, event: &NotificationEvent, now: &LocalTime) -> (deliveries: Vec<
    Delivery,
>)
    ensures
        fans_out(deliveries@, sinks@, event@, *now),
{
    let mut deliveries: Vec<Delivery> = Vec::new();
    let mut j: usize = 0;
    while j < sinks.len()
        invariant
            j <= sinks.len(),
            deliveries.len() == j,
            forall|k: int|
                0 <= k < j ==> (#[trigger] deliveries@[k])@ == sinks@[k].delivery(event@, *now),
        decreases sinks.len() - j,
    {
        deliveries.push(sinks[j].notify(event, now));
        j = j + 1;
    }
    deliveries
}

} // verus!
