//! Builds the channels that a policy asks for, leaving out every one that
//! lacks what it needs.

use crate::config::{NotifyConfig, NotifyType};
use crate::recipients::{parse_recipients, recipients};
use crate::sink::{
    ConsoleNotifier, EmailNotifier, EmergencyRepeat, NtfyNotifier, PushoverNotifier, Sink,
    TelegramNotifier, WebhookNotifier, NTFY_PRIORITY_MAX, NTFY_PRIORITY_MIN, PUSHOVER_EXPIRE_MAX,
    PUSHOVER_PRIORITY_MAX, PUSHOVER_PRIORITY_MIN, PUSHOVER_RETRY_MIN,
};
use crate::text::text_views;
use crate::topic_url::{
    check_topic_url, host_to_resolve, name_to_resolve, optional_text_view, topic_url_verdict,
    url_parts, HostAddr,
};
use vstd::prelude::*;

verus! {

/// The priority that pushes go out with: the configured one, brought into
/// the range the service knows.
pub open spec fn pushover_priority(config: NotifyConfig) -> i32 {
    if config.pushover_priority < PUSHOVER_PRIORITY_MIN {
        PUSHOVER_PRIORITY_MIN
    } else if config.pushover_priority > PUSHOVER_PRIORITY_MAX {
        PUSHOVER_PRIORITY_MAX
    } else {
        config.pushover_priority
    }
}

/// How emergency pushes are repeated: not at all below the highest
/// priority; at it, as configured, but no more often and for no longer than
/// the service accepts.
pub open spec fn pushover_emergency(config: NotifyConfig) -> Option<EmergencyRepeat> {
    if pushover_priority(config) == PUSHOVER_PRIORITY_MAX {
        Some(
            EmergencyRepeat {
                retry: if config.pushover_retry < PUSHOVER_RETRY_MIN {
                    PUSHOVER_RETRY_MIN
                } else {
                    config.pushover_retry
                },
                expire: if config.pushover_expire > PUSHOVER_EXPIRE_MAX {
                    PUSHOVER_EXPIRE_MAX
                } else {
                    config.pushover_expire
                },
            },
        )
    } else {
        None
    }
}

/// The priority that topic pushes go out with: the configured one, brought
/// into the range the service knows.
pub open spec fn ntfy_priority(config: NotifyConfig) -> u32 {
    if config.ntfy_priority < NTFY_PRIORITY_MIN {
        NTFY_PRIORITY_MIN
    } else if config.ntfy_priority > NTFY_PRIORITY_MAX {
        NTFY_PRIORITY_MAX
    } else {
        config.ntfy_priority
    }
}

/// The host name that has to be looked up before the channels can be
/// built: that of the topic URL, if the policy is switched on, lists a topic
/// channel, and the URL names its host.
pub open spec fn topic_host(config: NotifyConfig) -> Option<Seq<char>> {
    if config.enabled && config.notify_types@.contains(NotifyType::Ntfy) {
        name_to_resolve(url_parts(config.ntfy_topic_url@))
    } else {
        None
    }
}

/// Decides whether the policy lists a channel of this kind.
pub fn lists_kind(config: &NotifyConfig, kind: NotifyType) -> (listed: bool)
    ensures
        listed == config.notify_types@.contains(kind),
{
    let mut i: usize = 0;
    while i < config.notify_types.len()
        invariant
            i <= config.notify_types.len(),
            forall|k: int| 0 <= k < i ==> config.notify_types@[k] != kind,
        decreases config.notify_types.len() - i,
    {
        if config.notify_types[i] == kind {
            return true;
        }
        i = i + 1;
    }
    false
}

/// Picks out the host name that has to be looked up before the channels
/// can be built, if there is one.
pub fn topic_host_to_resolve(config: &NotifyConfig) -> (name: Option<String>)
    ensures
        optional_text_view(name) == topic_host(*config),
{
    if config.enabled && lists_kind(config, NotifyType::Ntfy) {
        host_to_resolve(config.ntfy_topic_url.as_str())
    } else {
        None
    }
}

/// Whether a channel of this kind is to be built: the policy is switched
/// on and holds all that the channel needs. A policy that is switched off
/// has no channel ready, whatever it lists and whatever credentials it
/// holds. `resolved` are the addresses that the host of the topic URL
/// resolves to.
pub open spec fn channel_ready(config: NotifyConfig, kind: NotifyType, resolved: Seq<HostAddr>) -> bool {
    config.enabled && match kind {
        NotifyType::Console => true,
        NotifyType::Webhook => config.webhook_url@.len() > 0,
        NotifyType::Telegram => config.telegram_bot_token@.len() > 0 && config.telegram_chat_id@.len()
            > 0,
        NotifyType::Pushover => config.pushover_api_token@.len() > 0
            && config.pushover_user_key@.len() > 0,
        NotifyType::Ntfy => config.ntfy_topic_url@.len() > 0 && topic_url_verdict(
            url_parts(config.ntfy_topic_url@),
            resolved,
        ) is Ok,
        NotifyType::Email => {
            &&& recipients(config.email_to@).len() > 0
            &&& config.smtp_server@.len() > 0
            &&& config.smtp_port != 0
            &&& config.email_from@.len() > 0
        },
    }
}

/// Whether `sink` is the channel of this kind that the policy describes.
pub open spec fn built_from(sink: Sink, config: NotifyConfig, kind: NotifyType) -> bool {
    match kind {
        NotifyType::Console => sink is Console,
        NotifyType::Webhook => sink matches Sink::Webhook(w) && w.url@ == config.webhook_url@,
        NotifyType::Telegram => {
            &&& sink matches Sink::Telegram(t)
            &&& t.bot_token@ == config.telegram_bot_token@
            &&& t.chat_id@ == config.telegram_chat_id@
        },
        NotifyType::Pushover => {
            &&& sink matches Sink::Pushover(p)
            &&& p.api_token@ == config.pushover_api_token@
            &&& p.user_key@ == config.pushover_user_key@
            &&& p.priority == pushover_priority(config)
            &&& p.emergency == pushover_emergency(config)
        },
        NotifyType::Ntfy => {
            &&& sink matches Sink::Ntfy(n)
            &&& n.topic_url@ == config.ntfy_topic_url@
            &&& n.priority == ntfy_priority(config)
        },
        NotifyType::Email => {
            &&& sink matches Sink::Email(e)
            &&& e.server@ == config.smtp_server@
            &&& e.port == config.smtp_port
            &&& e.username@ == config.smtp_username@
            &&& e.password@ == config.smtp_password@
            &&& e.encryption == config.smtp_encryption
            &&& e.from@ == config.email_from@
            &&& text_views(e.recipients@) == recipients(config.email_to@)
        },
    }
}

/// Whether a channel holds every credential it cannot work without, and
/// settings that its service accepts.
pub open spec fn well_equipped(sink: Sink) -> bool {
    match sink {
        Sink::Console(_) => true,
        Sink::Webhook(w) => w.url@.len() > 0,
        Sink::Telegram(t) => t.bot_token@.len() > 0 && t.chat_id@.len() > 0,
        Sink::Pushover(p) => {
            &&& p.api_token@.len() > 0
            &&& p.user_key@.len() > 0
            &&& PUSHOVER_PRIORITY_MIN <= p.priority <= PUSHOVER_PRIORITY_MAX
            &&& p.emergency is Some <==> p.priority == PUSHOVER_PRIORITY_MAX
            &&& p.emergency matches Some(e) ==> e.retry >= PUSHOVER_RETRY_MIN && e.expire
                <= PUSHOVER_EXPIRE_MAX
        },
        Sink::Ntfy(n) => n.topic_url@.len() > 0 && NTFY_PRIORITY_MIN <= n.priority
            <= NTFY_PRIORITY_MAX,
        Sink::Email(e) => {
            &&& e.recipients@.len() > 0
            &&& e.server@.len() > 0
            &&& e.port != 0
            &&& e.from@.len() > 0
        },
    }
}

/// The kinds of channel that are served, among the first `n` that the
/// policy lists: every kind that is ready, once, in the order of its first
/// appearance.
pub open spec fn served_kinds(
    config: NotifyConfig,
    resolved: Seq<HostAddr>,
    n: nat,
) -> Seq<NotifyType>
    decreases n,
{
    if n == 0 {
        Seq::<NotifyType>::empty()
    } else {
        let before = served_kinds(config, resolved, (n - 1) as nat);
        let kind = config.notify_types@[n - 1];
        if channel_ready(config, kind, resolved) && !before.contains(kind) {
            before.push(kind)
        } else {
            before
        }
    }
}

/// All the kinds of channel that are served.
pub open spec fn all_served_kinds(config: NotifyConfig, resolved: Seq<HostAddr>) -> Seq<NotifyType> {
    served_kinds(config, resolved, config.notify_types@.len())
}

/// The kind of each channel in a list.
pub open spec fn kinds_of(sinks: Seq<Sink>) -> Seq<NotifyType> {
    sinks.map_values(|s: Sink| s.kind_of())
}

/// Whether `sinks` are the channels that the policy asks for and has all
/// that is needed for, each built from the policy and well equipped.
pub open spec fn registry_of(sinks: Seq<Sink>, config: NotifyConfig, resolved: Seq<HostAddr>) -> bool {
    &&& kinds_of(sinks) == all_served_kinds(config, resolved)
    &&& forall|i: int|
        0 <= i < sinks.len() ==> built_from(#[trigger] sinks[i], config, sinks[i].kind_of())
            && well_equipped(sinks[i])
}

/// Builds the channel of one kind. There is none if the policy is switched
/// off, or if it lacks what the channel needs. `resolved` are the addresses
/// that the host of the topic URL resolves to; only a topic channel reads
/// them.
pub fn create_notifier(config: &NotifyConfig, kind: NotifyType, resolved: &Vec<HostAddr>) -> (sink:
    Option<Sink>)
    ensures
        sink is Some <==> config.enabled && channel_ready(*config, kind, resolved@),
        !config.enabled ==> sink is None,
        sink matches Some(s) ==> s.kind_of() == kind && built_from(s, *config, kind)
            && well_equipped(s),
{
    if !config.enabled {
        return None;
    }
    match kind {
        NotifyType::Console => Some(Sink::Console(ConsoleNotifier)),
        NotifyType::Webhook => {
            if config.webhook_url.as_str().is_empty() {
                None
            } else {
                Some(Sink::Webhook(WebhookNotifier::new(config.webhook_url.clone())))
            }
        },
        NotifyType::Telegram => {
            if config.telegram_bot_token.as_str().is_empty()
                || config.telegram_chat_id.as_str().is_empty() {
                None
            } else {
                Some(
                    Sink::Telegram(
                        TelegramNotifier::new(
                            config.telegram_bot_token.clone(),
                            config.telegram_chat_id.clone(),
                        ),
                    ),
                )
            }
        },
        NotifyType::Pushover => {
            if config.pushover_api_token.as_str().is_empty()
                || config.pushover_user_key.as_str().is_empty() {
                return None;
            }
            let priority = if config.pushover_priority < PUSHOVER_PRIORITY_MIN {
                PUSHOVER_PRIORITY_MIN
            } else if config.pushover_priority > PUSHOVER_PRIORITY_MAX {
                PUSHOVER_PRIORITY_MAX
            } else {
                config.pushover_priority
            };
            let emergency = if priority == PUSHOVER_PRIORITY_MAX {
                Some(
                    EmergencyRepeat {
                        retry: if config.pushover_retry < PUSHOVER_RETRY_MIN {
                            PUSHOVER_RETRY_MIN
                        } else {
                            config.pushover_retry
                        },
                        expire: if config.pushover_expire > PUSHOVER_EXPIRE_MAX {
                            PUSHOVER_EXPIRE_MAX
                        } else {
                            config.pushover_expire
                        },
                    },
                )
            } else {
                None
            };
            Some(
                Sink::Pushover(
                    PushoverNotifier {
                        api_token: config.pushover_api_token.clone(),
                        user_key: config.pushover_user_key.clone(),
                        priority,
                        emergency,
                    },
                ),
            )
        },
        NotifyType::Ntfy => {
            if config.ntfy_topic_url.as_str().is_empty() {
                return None;
            }
            match check_topic_url(config.ntfy_topic_url.as_str(), resolved) {
                Err(_) => None,
                Ok(()) => {
                    let priority = if config.ntfy_priority < NTFY_PRIORITY_MIN {
                        NTFY_PRIORITY_MIN
                    } else if config.ntfy_priority > NTFY_PRIORITY_MAX {
                        NTFY_PRIORITY_MAX
                    } else {
                        config.ntfy_priority
                    };
                    Some(
                        Sink::Ntfy(
                            NtfyNotifier { topic_url: config.ntfy_topic_url.clone(), priority },
                        ),
                    )
                },
            }
        },
        NotifyType::Email => {
            let to = parse_recipients(config.email_to.as_str());
            if to.len() == 0 || config.smtp_server.as_str().is_empty() || config.smtp_port == 0
                || config.email_from.as_str().is_empty() {
                None
            } else {
                Some(
                    Sink::Email(
                        EmailNotifier {
                            server: config.smtp_server.clone(),
                            port: config.smtp_port,
                            username: config.smtp_username.clone(),
                            password: config.smtp_password.clone(),
                            encryption: config.smtp_encryption,
                            from: config.email_from.clone(),
                            recipients: to,
                        },
                    ),
                )
            }
        },
    }
}

/// Decides whether a channel of this kind is among `sinks`.
fn has_kind(sinks: &Vec<Sink>, kind: NotifyType) -> (found: bool)
    ensures
        found == kinds_of(sinks@).contains(kind),
{
    let mut i: usize = 0;
    while i < sinks.len()
        invariant
            i <= sinks.len(),
            forall|k: int| 0 <= k < i ==> kinds_of(sinks@)[k] != kind,
        decreases sinks.len() - i,
    {
        if sinks[i].kind() == kind {
            assert(kinds_of(sinks@)[i as int] == kind);
            return true;
        }
        i = i + 1;
    }
    false
}

/// Builds the channels that the policy lists, in the order listed. A kind
/// listed twice is built once. A kind that lacks what it needs is left out,
/// and the others are built all the same; the list may come out empty, and
/// for a policy that is switched off it always does.
pub fn create_notifiers(config: &NotifyConfig, resolved: &Vec<HostAddr>) -> (sinks: Vec<Sink>)
    ensures
        registry_of(sinks@, *config, resolved@),
        !config.enabled ==> sinks@.len() == 0,
{
    let mut sinks: Vec<Sink> = Vec::new();
    let mut i: usize = 0;
    while i < config.notify_types.len()
        invariant
            i <= config.notify_types.len(),
            kinds_of(sinks@) == served_kinds(*config, resolved@, i as nat),
            forall|k: int|
                0 <= k < sinks.len() ==> built_from(#[trigger] sinks[k], *config, sinks[k].kind_of())
                    && well_equipped(sinks[k]),
        decreases config.notify_types.len() - i,
    {
        let kind = config.notify_types[i];
        if !has_kind(&sinks, kind) {
            match create_notifier(config, kind, resolved) {
                Some(sink) => {
                    sinks.push(sink);
                },
                None => {},
            }
        }
        i = i + 1;
    }
    proof {
        if !config.enabled {
            lemma_switched_off_prefix(*config, resolved@, config.notify_types@.len());
            assert(kinds_of(sinks@).len() == sinks@.len());
        }
    }
    sinks
}

/// A kind of channel is served exactly when the policy lists it, is
/// switched on and holds all that the channel needs: neither the order of
/// the list nor what the other channels have or lack makes a difference.
pub proof fn law_served_means_listed_and_ready(
    config: NotifyConfig,
    resolved: Seq<HostAddr>,
    kind: NotifyType,
    n: nat,
)
    requires
        n <= config.notify_types@.len(),
    ensures
        served_kinds(config, resolved, n).contains(kind) <==> config.notify_types@.take(
            n as int,
        ).contains(kind) && channel_ready(config, kind, resolved),
    decreases n,
{
    let listed = config.notify_types@;
    if n > 0 {
        let m = (n - 1) as nat;
        let before = served_kinds(config, resolved, m);
        let last = listed[n - 1];
        law_served_means_listed_and_ready(config, resolved, kind, m);
        assert(listed.take(n as int).contains(kind) <==> listed.take(m as int).contains(kind)
            || last == kind) by {
            if last == kind {
                assert(listed.take(n as int)[n - 1] == kind);
            }
        }
        if channel_ready(config, last, resolved) && !before.contains(last) {
            let after = before.push(last);
            assert(after.contains(kind) <==> before.contains(kind) || last == kind) by {
                if before.contains(kind) {
                    let j = choose|j: int| 0 <= j < before.len() && before[j] == kind;
                    assert(after[j] == kind);
                }
                if last == kind {
                    assert(after[before.len() as int] == kind);
                }
            }
        }
    }
}

/// A channel that lacks a credential it needs is never built, whatever
/// else the policy lists and in whatever order.
pub proof fn law_unready_channel_is_never_built(
    sinks: Seq<Sink>,
    config: NotifyConfig,
    resolved: Seq<HostAddr>,
    kind: NotifyType,
)
    requires
        registry_of(sinks, config, resolved),
        !channel_ready(config, kind, resolved),
    ensures
        forall|i: int| 0 <= i < sinks.len() ==> (#[trigger] sinks[i]).kind_of() != kind,
        forall|i: int| 0 <= i < sinks.len() ==> well_equipped(#[trigger] sinks[i]),
{
    law_served_means_listed_and_ready(config, resolved, kind, config.notify_types@.len());
    assert forall|i: int| 0 <= i < sinks.len() implies (#[trigger] sinks[i]).kind_of() != kind by {
        assert(kinds_of(sinks)[i] == sinks[i].kind_of());
    }
}

/// Of a policy that is switched off, no prefix of the list serves a kind.
proof fn lemma_switched_off_prefix(config: NotifyConfig, resolved: Seq<HostAddr>, n: nat)
    requires
        !config.enabled,
    ensures
        served_kinds(config, resolved, n).len() == 0,
    decreases n,
{
    if n > 0 {
        lemma_switched_off_prefix(config, resolved, (n - 1) as nat);
    }
}

/// A policy that is switched off serves no channel: no kind is ready,
/// whatever credentials the policy holds, and the registry is empty,
/// whatever the policy lists.
pub proof fn law_switched_off_serves_nothing(
    sinks: Seq<Sink>,
    config: NotifyConfig,
    resolved: Seq<HostAddr>,
)
    requires
        !config.enabled,
    ensures
        forall|kind: NotifyType| !channel_ready(config, kind, resolved),
        all_served_kinds(config, resolved).len() == 0,
        registry_of(sinks, config, resolved) ==> sinks.len() == 0,
{
    lemma_switched_off_prefix(config, resolved, config.notify_types@.len());
    if registry_of(sinks, config, resolved) {
        assert(kinds_of(sinks).len() == sinks.len());
    }
}

/// The order in which the policy lists its channels decides only the order
/// in which they are served, never which: two policies that list the same
/// kinds and agree in everything else serve the same kinds.
pub proof fn law_order_of_the_list_does_not_matter(
    config: NotifyConfig,
    reordered: Vec<NotifyType>,
    resolved: Seq<HostAddr>,
    kind: NotifyType,
)
    requires
        forall|k: NotifyType| config.notify_types@.contains(k) <==> reordered@.contains(k),
    ensures
        all_served_kinds(config, resolved).contains(kind) <==> all_served_kinds(
            NotifyConfig { notify_types: reordered, ..config },
            resolved,
        ).contains(kind),
{
    let other = NotifyConfig { notify_types: reordered, ..config };
    law_served_means_listed_and_ready(config, resolved, kind, config.notify_types@.len());
    law_served_means_listed_and_ready(other, resolved, kind, reordered@.len());
    assert(config.notify_types@.take(config.notify_types@.len() as int) =~= config.notify_types@);
    assert(reordered@.take(reordered@.len() as int) =~= reordered@);
}

/// No kind of channel is served twice.
pub proof fn law_served_kinds_are_distinct(config: NotifyConfig, resolved: Seq<HostAddr>, n: nat)
    ensures
        served_kinds(config, resolved, n).no_duplicates(),
    decreases n,
{
    if n > 0 {
        law_served_kinds_are_distinct(config, resolved, (n - 1) as nat);
    }
}

} // verus!
