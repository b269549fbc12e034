//! What holds of the engine's decisions across calls.

use crate::api::PowerInfoView;
use crate::clock::{cooldown_over, minutes_elapsed, LocalDate, LocalTime};
use crate::config::NotifyConfig;
use crate::event::NotificationEventView;
use crate::notify::{
    event_for_fetch_failure, events_for_poll, events_for_reading, fetch_failure_due,
    heartbeat_due, low_balance_due, one_more, state_after_fetch_failure,
    state_after_fetch_success, state_after_poll, state_after_reading, NotificationState,
    PollOutcomeView,
};
use vstd::prelude::*;

verus! {

/// No alert in the list is a low-balance alert.
pub open spec fn no_low_balance(events: Seq<NotificationEventView>) -> bool {
    forall|i: int| 0 <= i < events.len() ==> !(#[trigger] events[i] is LowBalance)
}

/// No alert in the list is a heartbeat.
pub open spec fn no_heartbeat(events: Seq<NotificationEventView>) -> bool {
    forall|i: int| 0 <= i < events.len() ==> !(#[trigger] events[i] is Heartbeat)
}

/// A balance above the threshold never raises a low-balance alert: neither
/// the first of two such readings nor the second, whatever the engine
/// remembered before and whenever the readings arrive.
pub proof fn law_above_threshold_is_silent(
    config: NotifyConfig,
    state: NotificationState,
    first: PowerInfoView,
    first_at: LocalTime,
    second: PowerInfoView,
    second_at: LocalTime,
)
    requires
        first.remaining_money > config.threshold,
        second.remaining_money > config.threshold,
    ensures
        no_low_balance(events_for_reading(config, state, first, first_at)),
        no_low_balance(
            events_for_reading(
                config,
                state_after_reading(config, state, first.remaining_money, first_at),
                second,
                second_at,
            ),
        ),
{
}

/// Falling edge: a balance at or below the threshold that follows one above
/// it raises a low-balance alert, as the last alert of the reading, however
/// recent the previous alert and however long the cooldown.
pub proof fn law_falling_edge_alerts(
    config: NotifyConfig,
    state: NotificationState,
    reading: PowerInfoView,
    now: LocalTime,
)
    requires
        state.last_balance matches Some(previous) && previous > config.threshold,
        reading.remaining_money <= config.threshold,
    ensures
        low_balance_due(config, state, reading.remaining_money, now),
        events_for_reading(config, state, reading, now).last() == NotificationEventView::LowBalance(
            reading,
        ),
        state_after_reading(
            config,
            state,
            reading.remaining_money,
            now,
        ).last_low_balance_alert_at == Some(now.epoch_millis),
{
}

/// The first reading an engine ever sees raises a low-balance alert exactly
/// when its balance is at or below the threshold.
pub proof fn law_first_reading_alerts_when_low(
    config: NotifyConfig,
    state: NotificationState,
    reading: PowerInfoView,
    now: LocalTime,
)
    requires
        state.last_balance is None,
    ensures
        low_balance_due(config, state, reading.remaining_money, now) <==> reading.remaining_money
            <= config.threshold,
{
}

/// Cooldown: while the balance stays at or below the threshold, the alert is
/// repeated exactly when the time since the last alert is at least the
/// cooldown; until then the reading raises no low-balance alert and the time
/// of the last alert stays.
pub proof fn law_cooldown_spaces_repeats(
    config: NotifyConfig,
    state: NotificationState,
    reading: PowerInfoView,
    now: LocalTime,
)
    requires
        state.last_balance matches Some(previous) && previous <= config.threshold,
        state.last_low_balance_alert_at is Some,
        reading.remaining_money <= config.threshold,
    ensures
        low_balance_due(config, state, reading.remaining_money, now) <==> minutes_elapsed(
            state.last_low_balance_alert_at->0,
            now.epoch_millis,
            config.cooldown_minutes,
        ),
        !low_balance_due(config, state, reading.remaining_money, now) ==> no_low_balance(
            events_for_reading(config, state, reading, now),
        ) && state_after_reading(
            config,
            state,
            reading.remaining_money,
            now,
        ).last_low_balance_alert_at == state.last_low_balance_alert_at,
{
}

/// A standing low balance with no alert on record is reported: the missing
/// time never silences an alert.
pub proof fn law_missing_alert_time_fails_open(
    config: NotifyConfig,
    state: NotificationState,
    reading: PowerInfoView,
    now: LocalTime,
)
    requires
        state.last_low_balance_alert_at is None,
        reading.remaining_money <= config.threshold,
    ensures
        low_balance_due(config, state, reading.remaining_money, now),
{
}

/// One heartbeat a day: once a reading has raised the heartbeat, no later
/// reading on the same local date raises another, whatever the hour and
/// whatever the balances.
pub proof fn law_one_heartbeat_per_date(
    config: NotifyConfig,
    state: NotificationState,
    first: PowerInfoView,
    first_at: LocalTime,
    second: PowerInfoView,
    second_at: LocalTime,
)
    requires
        heartbeat_due(config, state, first_at),
        second_at.date == first_at.date,
    ensures
        events_for_reading(config, state, first, first_at)[0] == NotificationEventView::Heartbeat(
            first,
        ),
        no_heartbeat(
            events_for_reading(
                config,
                state_after_reading(config, state, first.remaining_money, first_at),
                second,
                second_at,
            ),
        ),
{
}

/// A heartbeat is never raised outside the configured hour, so a day whose
/// hour passed unseen gets none.
pub proof fn law_heartbeat_only_in_its_hour(
    config: NotifyConfig,
    state: NotificationState,
    reading: PowerInfoView,
    now: LocalTime,
)
    requires
        now.hour != config.heartbeat_hour,
    ensures
        no_heartbeat(events_for_reading(config, state, reading, now)),
        state_after_reading(config, state, reading.remaining_money, now).last_heartbeat_date
            == state.last_heartbeat_date,
{
}

/// The memory after a run of failed fetches, one at each of `times`.
pub open spec fn state_after_failures(
    config: NotifyConfig,
    state: NotificationState,
    times: Seq<LocalTime>,
) -> NotificationState
    decreases times.len(),
{
    if times.len() == 0 {
        state
    } else {
        state_after_fetch_failure(
            config,
            state_after_failures(config, state, times.drop_last()),
            times.last(),
        )
    }
}

/// A run of failed fetches that starts from a count of zero and stays
/// shorter than the threshold raises no alert: each failure only adds one
/// to the count.
pub proof fn law_short_runs_are_silent(
    config: NotifyConfig,
    state: NotificationState,
    times: Seq<LocalTime>,
)
    requires
        state.consecutive_fetch_failures == 0,
        times.len() < config.fetch_failure_threshold,
    ensures
        state_after_failures(config, state, times).consecutive_fetch_failures == times.len(),
        state_after_failures(config, state, times).last_fetch_failure_alert_at
            == state.last_fetch_failure_alert_at,
        forall|k: int|
            0 <= k < times.len() ==> event_for_fetch_failure(
                config,
                #[trigger] state_after_failures(config, state, times.take(k)),
                times[k],
            ) is None,
    decreases times.len(),
{
    if times.len() > 0 {
        let shorter = times.drop_last();
        law_short_runs_are_silent(config, state, shorter);
        assert forall|k: int| 0 <= k < times.len() implies event_for_fetch_failure(
            config,
            #[trigger] state_after_failures(config, state, times.take(k)),
            times[k],
        ) is None by {
            if k < shorter.len() {
                assert(times.take(k) =~= shorter.take(k));
            }
        }
    }
}

/// The failure that makes a run as long as the threshold raises the alert
/// exactly when such alerts are switched on and the cooldown since the last
/// one has run out; the alert then names the length of the run.
pub proof fn law_threshold_failure_alerts(
    config: NotifyConfig,
    state: NotificationState,
    times: Seq<LocalTime>,
    now: LocalTime,
)
    requires
        state.consecutive_fetch_failures == 0,
        times.len() + 1 == config.fetch_failure_threshold,
    ensures
        fetch_failure_due(config, state_after_failures(config, state, times), now) <==> (
        config.fetch_failure_enabled && cooldown_over(
            state.last_fetch_failure_alert_at,
            now.epoch_millis,
            config.fetch_failure_cooldown_minutes,
        )),
        state_after_fetch_failure(
            config,
            state_after_failures(config, state, times),
            now,
        ).consecutive_fetch_failures == config.fetch_failure_threshold,
{
    law_short_runs_are_silent(config, state, times);
}

/// A success starts the count afresh and touches nothing else, so the next
/// alert needs a whole new run of failures.
pub proof fn law_success_resets_the_run(state: NotificationState)
    ensures
        state_after_fetch_success(state).consecutive_fetch_failures == 0,
        state_after_fetch_success(state).last_fetch_failure_alert_at
            == state.last_fetch_failure_alert_at,
        state_after_fetch_success(state).last_low_balance_alert_at
            == state.last_low_balance_alert_at,
        state_after_fetch_success(state).last_heartbeat_date == state.last_heartbeat_date,
        state_after_fetch_success(state).last_balance == state.last_balance,
{
}

/// A run of failures that goes on past the threshold is not counted afresh:
/// the count keeps growing, and the alert is repeated only once the cooldown
/// since the last alert has run out.
pub proof fn law_long_runs_wait_for_cooldown(
    config: NotifyConfig,
    state: NotificationState,
    now: LocalTime,
)
    requires
        config.fetch_failure_enabled,
        state.consecutive_fetch_failures >= config.fetch_failure_threshold,
    ensures
        state_after_fetch_failure(config, state, now).consecutive_fetch_failures
            >= state.consecutive_fetch_failures,
        fetch_failure_due(config, state, now) <==> cooldown_over(
            state.last_fetch_failure_alert_at,
            now.epoch_millis,
            config.fetch_failure_cooldown_minutes,
        ),
{
}

/// Readings leave the count of failed fetches alone.
pub proof fn law_readings_keep_the_failure_count(
    config: NotifyConfig,
    state: NotificationState,
    balance: i64,
    now: LocalTime,
)
    ensures
        state_after_reading(config, state, balance, now).consecutive_fetch_failures
            == state.consecutive_fetch_failures,
        state_after_reading(config, state, balance, now).last_fetch_failure_alert_at
            == state.last_fetch_failure_alert_at,
        state_after_reading(config, state, balance, now).last_balance == Some(balance),
{
}

/// The count of failed fetches moves in two ways only: a failed fetch adds
/// one to it, and a reading, which is a fetch that succeeded, sets it to
/// zero. Nothing else touches it.
pub proof fn law_failure_count_moves(
    config: NotifyConfig,
    state: NotificationState,
    outcome: PollOutcomeView,
    now: LocalTime,
)
    ensures
        state_after_poll(config, state, outcome, now).consecutive_fetch_failures == match outcome {
            PollOutcomeView::Reading(_) => 0,
            PollOutcomeView::FetchFailed => one_more(state.consecutive_fetch_failures),
            _ => state.consecutive_fetch_failures,
        },
{
}

/// The time of the last low-balance alert changes only when such an alert
/// is raised, and then to the time of that alert.
pub proof fn law_alert_time_follows_alerts(
    config: NotifyConfig,
    state: NotificationState,
    outcome: PollOutcomeView,
    now: LocalTime,
)
    ensures
        no_low_balance(events_for_poll(config, state, outcome, now)) ==> state_after_poll(
            config,
            state,
            outcome,
            now,
        ).last_low_balance_alert_at == state.last_low_balance_alert_at,
        !no_low_balance(events_for_poll(config, state, outcome, now)) ==> state_after_poll(
            config,
            state,
            outcome,
            now,
        ).last_low_balance_alert_at == Some(now.epoch_millis),
{
    let events = events_for_poll(config, state, outcome, now);
    match outcome {
        PollOutcomeView::Reading(reading) => {
            let cleared = state_after_fetch_success(state);
            if low_balance_due(config, cleared, reading.remaining_money, now) {
                assert(events.last() is LowBalance);
            }
        },
        _ => {},
    }
}

/// One poll and the time at which it ends.
pub struct TimedPoll {
    pub outcome: PollOutcomeView,
    pub at: LocalTime,
}

/// The memory after a series of polls.
pub open spec fn state_after_polls(
    config: NotifyConfig,
    state: NotificationState,
    polls: Seq<TimedPoll>,
) -> NotificationState
    decreases polls.len(),
{
    if polls.len() == 0 {
        state
    } else {
        state_after_poll(
            config,
            state_after_polls(config, state, polls.drop_last()),
            polls.last().outcome,
            polls.last().at,
        )
    }
}

/// The number of heartbeats in a list of alerts.
pub open spec fn heartbeats_in(events: Seq<NotificationEventView>) -> nat
    decreases events.len(),
{
    if events.len() == 0 {
        0
    } else {
        heartbeats_in(events.drop_last()) + if events.last() is Heartbeat {
            1nat
        } else {
            0nat
        }
    }
}

/// The number of heartbeats that a series of polls raises.
pub open spec fn heartbeats_of_polls(
    config: NotifyConfig,
    state: NotificationState,
    polls: Seq<TimedPoll>,
) -> nat
    decreases polls.len(),
{
    if polls.len() == 0 {
        0
    } else {
        heartbeats_of_polls(config, state, polls.drop_last()) + heartbeats_in(
            events_for_poll(
                config,
                state_after_polls(config, state, polls.drop_last()),
                polls.last().outcome,
                polls.last().at,
            ),
        )
    }
}

/// One poll raises at most one heartbeat, and when it does, the date of the
/// poll is on record afterwards.
proof fn lemma_heartbeats_of_one_poll(
    config: NotifyConfig,
    state: NotificationState,
    outcome: PollOutcomeView,
    now: LocalTime,
)
    ensures
        heartbeats_in(events_for_poll(config, state, outcome, now)) <= 1,
        heartbeats_in(events_for_poll(config, state, outcome, now)) == 1 ==> state_after_poll(
            config,
            state,
            outcome,
            now,
        ).last_heartbeat_date == Some(now.date),
        state.last_heartbeat_date == Some(now.date) ==> heartbeats_in(
            events_for_poll(config, state, outcome, now),
        ) == 0 && state_after_poll(config, state, outcome, now).last_heartbeat_date == Some(
            now.date,
        ),
{
    reveal_with_fuel(heartbeats_in, 3);
}

/// However many polls end on one local date, and whatever they bring, they
/// raise at most one heartbeat between them.
pub proof fn law_at_most_one_heartbeat_a_day(
    config: NotifyConfig,
    state: NotificationState,
    polls: Seq<TimedPoll>,
    date: LocalDate,
)
    requires
        forall|i: int| 0 <= i < polls.len() ==> (#[trigger] polls[i]).at.date == date,
    ensures
        heartbeats_of_polls(config, state, polls) <= 1,
        heartbeats_of_polls(config, state, polls) == 1 ==> state_after_polls(
            config,
            state,
            polls,
        ).last_heartbeat_date == Some(date),
        state.last_heartbeat_date == Some(date) ==> heartbeats_of_polls(config, state, polls) == 0
            && state_after_polls(config, state, polls).last_heartbeat_date == Some(date),
    decreases polls.len(),
{
    if polls.len() > 0 {
        let earlier = polls.drop_last();
        law_at_most_one_heartbeat_a_day(config, state, earlier, date);
        lemma_heartbeats_of_one_poll(
            config,
            state_after_polls(config, state, earlier),
            polls.last().outcome,
            polls.last().at,
        );
    }
}

} // verus!
