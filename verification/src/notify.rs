//! The state machine that decides, signal by signal, which alerts are due.

use crate::api::{PowerInfo, PowerInfoView};
use crate::clock::{cooldown_over, is_cooldown_over, local_now, LocalDate, LocalTime};
use crate::config::NotifyConfig;
use crate::event::{event_views, NotificationEvent, NotificationEventView};
use crate::registry::{all_served_kinds, built_from, create_notifiers, registry_of, well_equipped};
use crate::sink::{fan_out, fans_out, Delivery, Sink};
use crate::text::{decimal, push_decimal};
use crate::topic_url::HostAddr;
use vstd::prelude::*;
use vstd::string::StringExecFns;

verus! {

/// What the engine remembers between signals. It starts empty with every
/// process: nothing of it is stored.
#[derive(Clone, Copy, Debug, PartialEq, Eq)]
pub struct NotificationState {
    /// When the last low-balance alert was raised, in epoch milliseconds.
    pub last_low_balance_alert_at: Option<i64>,
    /// The local date of the last heartbeat.
    pub last_heartbeat_date: Option<LocalDate>,
    /// The balance of the last reading, in hundredths.
    pub last_balance: Option<i64>,
    /// How many fetches have failed since the last one that succeeded.
    pub consecutive_fetch_failures: u64,
    /// When the last fetch-failure alert was raised, in epoch milliseconds.
    pub last_fetch_failure_alert_at: Option<i64>,
}

/// The memory of an engine that has seen nothing yet.
pub open spec fn initial_state() -> NotificationState {
    NotificationState {
        last_low_balance_alert_at: None,
        last_heartbeat_date: None,
        last_balance: None,
        consecutive_fetch_failures: 0,
        last_fetch_failure_alert_at: None,
    }
}

/// A heartbeat is due in the configured hour, once per local date.
pub open spec fn heartbeat_due(config: NotifyConfig, state: NotificationState, now: LocalTime) -> bool {
    &&& config.heartbeat_enabled
    &&& now.hour == config.heartbeat_hour
    &&& state.last_heartbeat_date != Some(now.date)
}

/// A low-balance alert is due when the balance is at or below the threshold
/// and either it has just fallen there (or no earlier balance is known), or
/// the cooldown since the last such alert has run out.
pub open spec fn low_balance_due(
    config: NotifyConfig,
    state: NotificationState,
    balance: i64,
    now: LocalTime,
) -> bool {
    &&& balance <= config.threshold
    &&& match state.last_balance {
        None => true,
        Some(previous) => previous > config.threshold || cooldown_over(
            state.last_low_balance_alert_at,
            now.epoch_millis,
            config.cooldown_minutes,
        ),
    }
}

/// The memory after a reading with `balance` arrived at `now`.
pub open spec fn state_after_reading(
    config: NotifyConfig,
    state: NotificationState,
    balance: i64,
    now: LocalTime,
) -> NotificationState {
    NotificationState {
        last_heartbeat_date: if heartbeat_due(config, state, now) {
            Some(now.date)
        } else {
            state.last_heartbeat_date
        },
        last_low_balance_alert_at: if low_balance_due(config, state, balance, now) {
            Some(now.epoch_millis)
        } else {
            state.last_low_balance_alert_at
        },
        last_balance: Some(balance),
        consecutive_fetch_failures: state.consecutive_fetch_failures,
        last_fetch_failure_alert_at: state.last_fetch_failure_alert_at,
    }
}

/// The alerts a reading raises: the heartbeat first, then the low balance.
pub open spec fn events_for_reading(
    config: NotifyConfig,
    state: NotificationState,
    reading: PowerInfoView,
    now: LocalTime,
) -> Seq<NotificationEventView> {
    let heartbeat = if heartbeat_due(config, state, now) {
        seq![NotificationEventView::Heartbeat(reading)]
    } else {
        Seq::<NotificationEventView>::empty()
    };
    let low = if low_balance_due(config, state, reading.remaining_money, now) {
        seq![NotificationEventView::LowBalance(reading)]
    } else {
        Seq::<NotificationEventView>::empty()
    };
    heartbeat + low
}

/// A failure count one higher; the largest count stays as it is.
pub open spec fn one_more(count: u64) -> u64 {
    if count < u64::MAX {
        (count + 1) as u64
    } else {
        count
    }
}

/// A fetch-failure alert is due when alerting is on, the run of failures,
/// this one included, has reached the threshold, and the cooldown since the
/// last such alert has run out.
pub open spec fn fetch_failure_due(config: NotifyConfig, state: NotificationState, now: LocalTime) -> bool {
    &&& config.fetch_failure_enabled
    &&& one_more(state.consecutive_fetch_failures) >= config.fetch_failure_threshold
    &&& cooldown_over(
        state.last_fetch_failure_alert_at,
        now.epoch_millis,
        config.fetch_failure_cooldown_minutes,
    )
}

/// The memory after a fetch failed at `now`.
pub open spec fn state_after_fetch_failure(
    config: NotifyConfig,
    state: NotificationState,
    now: LocalTime,
) -> NotificationState {
    NotificationState {
        last_low_balance_alert_at: state.last_low_balance_alert_at,
        last_heartbeat_date: state.last_heartbeat_date,
        last_balance: state.last_balance,
        consecutive_fetch_failures: one_more(state.consecutive_fetch_failures),
        last_fetch_failure_alert_at: if fetch_failure_due(config, state, now) {
            Some(now.epoch_millis)
        } else {
            state.last_fetch_failure_alert_at
        },
    }
}

/// The memory after a fetch succeeded.
pub open spec fn state_after_fetch_success(state: NotificationState) -> NotificationState {
    NotificationState {
        last_low_balance_alert_at: state.last_low_balance_alert_at,
        last_heartbeat_date: state.last_heartbeat_date,
        last_balance: state.last_balance,
        consecutive_fetch_failures: 0,
        last_fetch_failure_alert_at: state.last_fetch_failure_alert_at,
    }
}

/// The text of a fetch-failure alert after `count` failures in a row.
pub open spec fn fetch_failure_text(count: u64) -> Seq<char> {
    "Failed to fetch data "@ + decimal(count as nat) + " times consecutively"@
}

/// The alert, if any, that a failed fetch at `now` raises.
pub open spec fn event_for_fetch_failure(
    config: NotifyConfig,
    state: NotificationState,
    now: LocalTime,
) -> Option<NotificationEventView> {
    if fetch_failure_due(config, state, now) {
        Some(
            NotificationEventView::ConsecutiveFetchFailures(
                fetch_failure_text(one_more(state.consecutive_fetch_failures)),
            ),
        )
    } else {
        None
    }
}

/// The alert, if any, that a failed login raises.
pub open spec fn event_for_login_failure(config: NotifyConfig, error: Seq<char>) -> Option<
    NotificationEventView,
> {
    if config.login_failure_enabled {
        Some(NotificationEventView::LoginFailure(error))
    } else {
        None
    }
}

/// The view of an alert that may be absent.
pub open spec fn optional_event_view(event: Option<NotificationEvent>) -> Option<
    NotificationEventView,
> {
    match event {
        Some(e) => Some(e@),
        None => None,
    }
}

/// Whether `after` and `events` are what a reading at `now` leads to.
pub open spec fn reading_outcome(
    config: NotifyConfig,
    before: NotificationState,
    reading: PowerInfoView,
    now: LocalTime,
    after: NotificationState,
    events: Seq<NotificationEventView>,
) -> bool {
    &&& after == state_after_reading(config, before, reading.remaining_money, now)
    &&& events == events_for_reading(config, before, reading, now)
}

/// Whether `after` and `event` are what a failed fetch at `now` leads to.
pub open spec fn fetch_failure_outcome(
    config: NotifyConfig,
    before: NotificationState,
    now: LocalTime,
    after: NotificationState,
    event: Option<NotificationEventView>,
) -> bool {
    &&& after == state_after_fetch_failure(config, before, now)
    &&& event == event_for_fetch_failure(config, before, now)
}

/// How one poll of the balance endpoint ended.
#[derive(Clone, Debug, PartialEq, Eq)]
pub enum PollOutcome {
    /// The endpoint answered with a reading.
    Reading(PowerInfo),
    /// The endpoint answered, but had no reading to give.
    NoData,
    /// The endpoint could not be reached or did not answer properly.
    FetchFailed,
    /// Logging in failed; the text says how.
    LoginFailed(String),
}

/// The end of a poll as a mathematical value.
pub enum PollOutcomeView {
    Reading(PowerInfoView),
    NoData,
    FetchFailed,
    LoginFailed(Seq<char>),
}

impl View for PollOutcome {
    type V = PollOutcomeView;

    open spec fn view(&self) -> PollOutcomeView {
        match self {
            PollOutcome::Reading(reading) => PollOutcomeView::Reading(reading@),
            PollOutcome::NoData => PollOutcomeView::NoData,
            PollOutcome::FetchFailed => PollOutcomeView::FetchFailed,
            PollOutcome::LoginFailed(error) => PollOutcomeView::LoginFailed(error@),
        }
    }
}

/// Nothing, or the one alert.
pub open spec fn as_list(event: Option<NotificationEventView>) -> Seq<NotificationEventView> {
    match event {
        Some(e) => seq![e],
        None => Seq::<NotificationEventView>::empty(),
    }
}

/// The memory after a poll ended at `now`. A reading ends the run of failed
/// fetches and is then taken in; a failed fetch is counted; a poll without
/// data and a failed login leave the memory as it is.
pub open spec fn state_after_poll(
    config: NotifyConfig,
    state: NotificationState,
    outcome: PollOutcomeView,
    now: LocalTime,
) -> NotificationState {
    match outcome {
        PollOutcomeView::Reading(reading) => state_after_reading(
            config,
            state_after_fetch_success(state),
            reading.remaining_money,
            now,
        ),
        PollOutcomeView::NoData => state,
        PollOutcomeView::FetchFailed => state_after_fetch_failure(config, state, now),
        PollOutcomeView::LoginFailed(_) => state,
    }
}

/// The alerts that a poll raises when it ends at `now`.
pub open spec fn events_for_poll(
    config: NotifyConfig,
    state: NotificationState,
    outcome: PollOutcomeView,
    now: LocalTime,
) -> Seq<NotificationEventView> {
    match outcome {
        PollOutcomeView::Reading(reading) => events_for_reading(
            config,
            state_after_fetch_success(state),
            reading,
            now,
        ),
        PollOutcomeView::NoData => Seq::<NotificationEventView>::empty(),
        PollOutcomeView::FetchFailed => as_list(event_for_fetch_failure(config, state, now)),
        PollOutcomeView::LoginFailed(error) => as_list(event_for_login_failure(config, error)),
    }
}

/// Whether `after` and `events` are what a poll that ends at `now` leads to.
pub open spec fn poll_outcome(
    config: NotifyConfig,
    before: NotificationState,
    outcome: PollOutcomeView,
    now: LocalTime,
    after: NotificationState,
    events: Seq<NotificationEventView>,
) -> bool {
    &&& after == state_after_poll(config, before, outcome, now)
    &&& events == events_for_poll(config, before, outcome, now)
}

/// Whether `plan` holds, alert by alert, what each of `sinks` has to do.
pub open spec fn dispatch_plan(
    plan: Seq<Vec<Delivery>>,
    sinks: Seq<Sink>,
    events: Seq<NotificationEvent>,
    now: LocalTime,
) -> bool {
    &&& plan.len() == events.len()
    &&& forall|i: int|
        0 <= i < events.len() ==> fans_out((#[trigger] plan[i])@, sinks, events[i]@, now)
}

/// The engine: its policy, its channels and its memory.
pub struct NotificationManager {
    config: NotifyConfig,
    sinks: Vec<Sink>,
    state: NotificationState,
}

impl NotificationManager {
    /// The policy the engine was built with.
    pub closed spec fn config(&self) -> NotifyConfig {
        self.config
    }

    /// What the engine remembers.
    pub closed spec fn state(&self) -> NotificationState {
        self.state
    }

    /// The channels the engine sends through.
    pub closed spec fn sinks(&self) -> Seq<Sink> {
        self.sinks@
    }

    /// An engine is only ever built for a policy that is switched on, and
    /// with at least one channel; each channel is built from the policy and
    /// has what it needs.
    #[verifier::type_invariant]
    pub closed spec fn wf(&self) -> bool {
        &&& self.config.enabled
        &&& self.sinks@.len() > 0
        &&& forall|i: int|
            0 <= i < self.sinks@.len() ==> built_from(
                #[trigger] self.sinks@[i],
                self.config,
                self.sinks@[i].kind_of(),
            ) && well_equipped(self.sinks@[i])
    }

    /// Builds an engine with empty memory and the channels that the policy
    /// asks for. There is none if the policy is switched off or no channel
    /// can be built. `resolved` are the addresses that the host of the topic
    /// URL resolves to.
    pub fn new(config: NotifyConfig, resolved: &Vec<HostAddr>) -> (manager: Option<
        NotificationManager,
    >)
        ensures
            manager is Some <==> config.enabled && all_served_kinds(config, resolved@).len() > 0,
            manager matches Some(m) ==> m.config() == config && m.state() == initial_state()
                && registry_of(m.sinks(), config, resolved@),
    {
        if !config.enabled {
            return None;
        }
        let sinks = create_notifiers(&config, resolved);
        if sinks.len() == 0 {
            return None;
        }
        Some(
            NotificationManager {
                config,
                sinks,
                state: NotificationState {
                    last_low_balance_alert_at: None,
                    last_heartbeat_date: None,
                    last_balance: None,
                    consecutive_fetch_failures: 0,
                    last_fetch_failure_alert_at: None,
                },
            },
        )
    }

    /// What the engine remembers.
    pub fn current_state(&self) -> (state: NotificationState)
        ensures
            state == self.state(),
    {
        self.state
    }

    /// The policy the engine was built with. It is switched on.
    pub fn policy(&self) -> (config: &NotifyConfig)
        ensures
            *config == self.config(),
            config.enabled,
    {
        proof {
            use_type_invariant(self);
        }
        &self.config
    }

    /// The channels the engine sends through: at least one, and each with
    /// what it needs.
    pub fn active_sinks(&self) -> (sinks: &Vec<Sink>)
        ensures
            sinks@ == self.sinks(),
            sinks@.len() > 0,
            forall|i: int| 0 <= i < sinks@.len() ==> well_equipped(#[trigger] sinks@[i]),
    {
        proof {
            use_type_invariant(self);
        }
        &self.sinks
    }

    /// Works out what has to be sent for alerts raised at `now`: for each
    /// alert, in order, one delivery for each channel, in the order of the
    /// channels. Every channel gets every alert.
    pub fn deliveries_at(&self, events: &Vec<NotificationEvent>, now: &LocalTime) -> (plan: Vec<
        Vec<Delivery>,
    >)
        ensures
            dispatch_plan(plan@, self.sinks(), events@, *now),
    {
        let mut plan: Vec<Vec<Delivery>> = Vec::new();
        let mut i: usize = 0;
        while i < events.len()
            invariant
                i <= events.len(),
                plan.len() == i,
                forall|k: int|
                    0 <= k < i ==> fans_out((#[trigger] plan@[k])@, self.sinks@, events@[k]@, *now),
            decreases events.len() - i,
        {
            plan.push(fan_out(&self.sinks, &events[i], now));
            i = i + 1;
        }
        plan
    }

    /// Works out what has to be sent for alerts that are raised now, by the
    /// system clock. See [`NotificationManager::deliveries_at`].
    pub fn deliveries(&self, events: &Vec<NotificationEvent>) -> (plan: Vec<Vec<Delivery>>)
        ensures
            exists|now: LocalTime|
                now.valid() && #[trigger] dispatch_plan(plan@, self.sinks(), events@, now),
    {
        let now = local_now();
        let plan = self.deliveries_at(events, &now);
        plan
    }

    /// Takes in a reading that arrived at `now` and returns the alerts it
    /// raises, the heartbeat before the low balance. The memory is brought up
    /// to date at once, whether or not the alerts will reach anyone.
    pub fn on_reading_at(&mut self, reading: &PowerInfo, now: &LocalTime) -> (events: Vec<
        NotificationEvent,
    >)
        ensures
            final(self).config() == old(self).config(),
            final(self).sinks() == old(self).sinks(),
            final(self).state() == state_after_reading(
                old(self).config(),
                old(self).state(),
                reading.remaining_money,
                *now,
            ),
            event_views(events@) == events_for_reading(
                old(self).config(),
                old(self).state(),
                reading@,
                *now,
            ),
    {
        proof {
            use_type_invariant(&*self);
        }
        let mut events: Vec<NotificationEvent> = Vec::new();
        let heartbeat = self.config.heartbeat_enabled && now.hour == self.config.heartbeat_hour
            && !is_date(self.state.last_heartbeat_date, now.date);
        let balance = reading.remaining_money;
        let low = balance <= self.config.threshold && match self.state.last_balance {
            None => true,
            Some(previous) => previous > self.config.threshold || is_cooldown_over(
                self.state.last_low_balance_alert_at,
                now.epoch_millis,
                self.config.cooldown_minutes,
            ),
        };
        if heartbeat {
            events.push(NotificationEvent::Heartbeat(reading.duplicate()));
            self.state.last_heartbeat_date = Some(now.date);
        }
        if low {
            events.push(NotificationEvent::LowBalance(reading.duplicate()));
            self.state.last_low_balance_alert_at = Some(now.epoch_millis);
        }
        self.state.last_balance = Some(balance);
        events
    }

    /// Takes in a reading that arrives now, by the system clock. See
    /// [`NotificationManager::on_reading_at`] for what is decided.
    pub fn on_reading(&mut self, reading: &PowerInfo) -> (events: Vec<NotificationEvent>)
        ensures
            final(self).config() == old(self).config(),
            final(self).sinks() == old(self).sinks(),
            exists|now: LocalTime|
                now.valid() && #[trigger] reading_outcome(
                    old(self).config(),
                    old(self).state(),
                    reading@,
                    now,
                    final(self).state(),
                    event_views(events@),
                ),
    {
        let now = local_now();
        let events = self.on_reading_at(reading, &now);
        assert(reading_outcome(
            old(self).config(),
            old(self).state(),
            reading@,
            now,
            self.state(),
            event_views(events@),
        ));
        events
    }

    /// Takes in the failure of a fetch at `now`. The run of failures grows
    /// by one; the alert is raised once the run has reached the threshold,
    /// and again only after the cooldown. Only a success ends the run.
    pub fn on_fetch_failure_at(&mut self, now: &LocalTime) -> (event: Option<NotificationEvent>)
        ensures
            final(self).config() == old(self).config(),
            final(self).sinks() == old(self).sinks(),
            final(self).state() == state_after_fetch_failure(
                old(self).config(),
                old(self).state(),
                *now,
            ),
            optional_event_view(event) == event_for_fetch_failure(
                old(self).config(),
                old(self).state(),
                *now,
            ),
    {
        proof {
            use_type_invariant(&*self);
        }
        let count = if self.state.consecutive_fetch_failures < u64::MAX {
            self.state.consecutive_fetch_failures + 1
        } else {
            self.state.consecutive_fetch_failures
        };
        let due = self.config.fetch_failure_enabled && count >= self.config.fetch_failure_threshold
            && is_cooldown_over(
            self.state.last_fetch_failure_alert_at,
            now.epoch_millis,
            self.config.fetch_failure_cooldown_minutes,
        );
        self.state.consecutive_fetch_failures = count;
        if due {
            self.state.last_fetch_failure_alert_at = Some(now.epoch_millis);
            let mut text = String::from_str("Failed to fetch data ");
            push_decimal(&mut text, count);
            text.append(" times consecutively");
            Some(NotificationEvent::ConsecutiveFetchFailures(text))
        } else {
            None
        }
    }

    /// Takes in the failure of a fetch that happens now, by the system
    /// clock. See [`NotificationManager::on_fetch_failure_at`] for what is
    /// decided.
    pub fn on_fetch_failure(&mut self) -> (event: Option<NotificationEvent>)
        ensures
            final(self).config() == old(self).config(),
            final(self).sinks() == old(self).sinks(),
            exists|now: LocalTime|
                now.valid() && #[trigger] fetch_failure_outcome(
                    old(self).config(),
                    old(self).state(),
                    now,
                    final(self).state(),
                    optional_event_view(event),
                ),
    {
        let now = local_now();
        let event = self.on_fetch_failure_at(&now);
        assert(fetch_failure_outcome(
            old(self).config(),
            old(self).state(),
            now,
            self.state(),
            optional_event_view(event),
        ));
        event
    }

    /// Takes in the success of a fetch: the run of failures is over.
    pub fn on_fetch_success(&mut self)
        ensures
            final(self).config() == old(self).config(),
            final(self).sinks() == old(self).sinks(),
            final(self).state() == state_after_fetch_success(old(self).state()),
    {
        proof {
            use_type_invariant(&*self);
        }
        self.state.consecutive_fetch_failures = 0;
    }

    /// Takes in the end of a poll at `now` and returns the alerts it raises:
    /// a reading counts as a fetch that succeeded and is then taken in, a
    /// failed fetch and a failed login are taken in as such, and a poll
    /// without data changes nothing.
    pub fn on_poll_at(&mut self, outcome: &PollOutcome, now: &LocalTime) -> (events: Vec<
        NotificationEvent,
    >)
        ensures
            final(self).config() == old(self).config(),
            final(self).sinks() == old(self).sinks(),
            final(self).state() == state_after_poll(
                old(self).config(),
                old(self).state(),
                outcome@,
                *now,
            ),
            event_views(events@) == events_for_poll(
                old(self).config(),
                old(self).state(),
                outcome@,
                *now,
            ),
    {
        match outcome {
            PollOutcome::Reading(reading) => {
                self.on_fetch_success();
                self.on_reading_at(reading, now)
            },
            PollOutcome::NoData => {
                let events: Vec<NotificationEvent> = Vec::new();
                events
            },
            PollOutcome::FetchFailed => {
                let event = self.on_fetch_failure_at(now);
                one_or_none(event)
            },
            PollOutcome::LoginFailed(error) => {
                let event = self.on_login_failure(error.as_str());
                one_or_none(event)
            },
        }
    }

    /// Takes in the end of a poll that ends now, by the system clock. See
    /// [`NotificationManager::on_poll_at`] for what is decided.
    pub fn on_poll(&mut self, outcome: &PollOutcome) -> (events: Vec<NotificationEvent>)
        ensures
            final(self).config() == old(self).config(),
            final(self).sinks() == old(self).sinks(),
            exists|now: LocalTime|
                now.valid() && #[trigger] poll_outcome(
                    old(self).config(),
                    old(self).state(),
                    outcome@,
                    now,
                    final(self).state(),
                    event_views(events@),
                ),
    {
        let now = local_now();
        let events = self.on_poll_at(outcome, &now);
        assert(poll_outcome(
            old(self).config(),
            old(self).state(),
            outcome@,
            now,
            self.state(),
            event_views(events@),
        ));
        events
    }

    /// Takes in the failure of a login. It is reported every time, with no
    /// cooldown, as long as such reports are switched on. The memory does
    /// not change.
    pub fn on_login_failure(&self, error_message: &str) -> (event: Option<NotificationEvent>)
        ensures
            optional_event_view(event) == event_for_login_failure(self.config(), error_message@),
    {
        if self.config.login_failure_enabled {
            Some(NotificationEvent::LoginFailure(String::from_str(error_message)))
        } else {
            None
        }
    }
}

/// The alert as a list of one, or the empty list.
fn one_or_none(event: Option<NotificationEvent>) -> (events: Vec<NotificationEvent>)
    ensures
        event_views(events@) == as_list(optional_event_view(event)),
{
    let mut events: Vec<NotificationEvent> = Vec::new();
    match event {
        Some(e) => {
            events.push(e);
        },
        None => {},
    }
    events
}

/// Whether `date` is the date on record.
fn is_date(recorded: Option<LocalDate>, date: LocalDate) -> (same: bool)
    ensures
        same == (recorded == Some(date)),
{
    match recorded {
        None => false,
        Some(d) => d.year == date.year && d.month == date.month && d.day == date.day,
    }
}

} // verus!
