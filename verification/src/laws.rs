//! What holds of every tick and of every run of ticks.

use crate::config::VmConfig;
use crate::heartbeat::reset_after_of;
use crate::monitoring::{Call, MonitorRuntime, SingleMachineMonitoringState};
use crate::notices::NoticeView;
use crate::thresholds::closest_threshold;
use crate::transitions::{
    accepted, concluded, deadlines_fit, degraded, escalation_outcome, grace_deadline,
    one_more_failure, ping_outcome, power_outcome, read_outcome, reset_outcome, resume_time,
    seconds_until, tick_outcome, write_outcome, Outcome, ReadingsView, TickOutcome,
};
use vstd::prelude::*;

verus! {

/// One tick of a run: when it happens and what the hypervisor answers.
pub struct TickInput {
    pub now: u64,
    pub readings: ReadingsView,
}

/// What the watchdog remembers after the ticks of `ticks`, one after the
/// other, from `runtime` on.
pub open spec fn after_ticks(
    runtime: MonitorRuntime,
    config: VmConfig,
    ticks: Seq<TickInput>,
) -> MonitorRuntime
    decreases ticks.len(),
{
    if ticks.len() == 0 {
        runtime
    } else {
        tick_outcome(
            after_ticks(runtime, config, ticks.drop_last()),
            config,
            ticks.last().now,
            ticks.last().readings,
        ).runtime
    }
}

/// What the tick of `ticks` at the place `i` does, after the ticks before it.
pub open spec fn tick_at(
    runtime: MonitorRuntime,
    config: VmConfig,
    ticks: Seq<TickInput>,
    i: int,
) -> TickOutcome {
    tick_outcome(after_ticks(runtime, config, ticks.take(i)), config, ticks[i].now, ticks[i].readings)
}

/// How many of the six states `state` is in.
pub open spec fn active_states(state: SingleMachineMonitoringState) -> nat {
    let okay: nat = if state is Okay { 1 } else { 0 };
    let no_data: nat = if state is NoData { 1 } else { 0 };
    let too_far: nat = if state is TooFar { 1 } else { 0 };
    let grace_period: nat = if state is GracePeriod { 1 } else { 0 };
    let resetting: nat = if state is Resetting { 1 } else { 0 };
    let power_off: nat = if state is PowerOff { 1 } else { 0 };
    okay + no_data + too_far + grace_period + resetting + power_off
}

/// Whether the answers of a tick at `now` show a guest that is alive: it
/// answered the ping, took the current time and named a time of reset that
/// lies in the future.
pub open spec fn guest_recovers(readings: ReadingsView, now: u64) -> bool {
    &&& readings.ping_ok
    &&& readings.write_ok
    &&& readings.reset_after matches Some(text)
    &&& reset_after_of(text) matches Some(deadline)
    &&& deadline > now
}

/// After every tick of every run the machine is in exactly one state.
pub proof fn lemma_exactly_one_state_active(
    runtime: MonitorRuntime,
    config: VmConfig,
    ticks: Seq<TickInput>,
)
    ensures
        forall|k: int|
            0 <= k <= ticks.len() ==> active_states(
                #[trigger] after_ticks(runtime, config, ticks.take(k)).state,
            ) == 1,
{
}

/// While the hypervisor reports that the machine does not run, the machine
/// counts as powered off: after the first such tick and after every later one.
pub proof fn lemma_off_reports_keep_power_off(
    runtime: MonitorRuntime,
    config: VmConfig,
    ticks: Seq<TickInput>,
)
    requires
        ticks.len() > 0,
        forall|i: int| 0 <= i < ticks.len() ==> (#[trigger] ticks[i]).readings.running == Some(false),
    ensures
        after_ticks(runtime, config, ticks).state is PowerOff,
        forall|k: int|
            1 <= k <= ticks.len() ==> (#[trigger] after_ticks(
                runtime,
                config,
                ticks.take(k),
            )).state is PowerOff,
    decreases ticks.len(),
{
    assert(ticks.last().readings.running == Some(false));
    assert forall|k: int| 1 <= k <= ticks.len() implies (#[trigger] after_ticks(
        runtime,
        config,
        ticks.take(k),
    )).state is PowerOff by {
        let prefix = ticks.take(k);
        assert(prefix.last() == ticks[k - 1]);
    }
    assert(ticks.take(ticks.len() as int) =~= ticks);
}

/// A machine that counts as powered off stays so, and nothing else is done
/// or said, until the hypervisor reports that it runs. That report ends it:
/// the machine is then left alone for the reset duration, or, where that is
/// over at once, watched again.
pub proof fn lemma_power_off_until_running(
    runtime: MonitorRuntime,
    config: VmConfig,
    now: u64,
    readings: ReadingsView,
)
    requires
        runtime.state is PowerOff,
    ensures
        readings.running != Some(true) ==> tick_outcome(runtime, config, now, readings)
            == (TickOutcome { runtime, notices: Seq::empty(), calls: seq![Call::IsRunning] }),
        readings.running == Some(true) ==> !(tick_outcome(
            runtime,
            config,
            now,
            readings,
        ).runtime.state is PowerOff),
        readings.running == Some(true) ==> tick_outcome(runtime, config, now, readings).notices[0]
            == NoticeView::PoweredOn,
{
    let outcome = tick_outcome(runtime, config, now, readings);
    if readings.running != Some(true) {
        assert(outcome.notices =~= Seq::empty());
    }
}

/// The fifth failed ping in a row on a machine that is well is announced
/// and starts a grace period, which is counted from that tick. Where the
/// grace period is no time at all the same tick ends it, and the machine is
/// left alone for the reset duration.
pub proof fn lemma_five_failed_pings_start_grace(
    runtime: MonitorRuntime,
    config: VmConfig,
    ticks: Seq<TickInput>,
)
    requires
        ticks.len() == 5,
        runtime.state is Okay,
        runtime.ping_fail_count == 0,
        forall|i: int|
            0 <= i < 5 ==> {
                &&& (#[trigger] ticks[i]).readings.running == Some(true)
                &&& !ticks[i].readings.ping_ok
                &&& deadlines_fit(config, ticks[i].now)
            },
        forall|k: int|
            1 <= k <= 4 ==> (#[trigger] after_ticks(runtime, config, ticks.take(k))).state is Okay,
    ensures
        tick_at(runtime, config, ticks, 4).notices[0] == NoticeView::PingsFailed,
        config.grace_period > 0 ==> after_ticks(runtime, config, ticks).state
            == SingleMachineMonitoringState::GracePeriod(grace_deadline(config, ticks[4].now)),
        config.grace_period == 0 ==> after_ticks(runtime, config, ticks).state
            == SingleMachineMonitoringState::Resetting(resume_time(config, ticks[4].now)),
{
    let r0 = after_ticks(runtime, config, ticks.take(0));
    let r1 = after_ticks(runtime, config, ticks.take(1));
    let r2 = after_ticks(runtime, config, ticks.take(2));
    let r3 = after_ticks(runtime, config, ticks.take(3));
    let r4 = after_ticks(runtime, config, ticks.take(4));
    assert(r0 == runtime);
    assert(ticks.take(1).drop_last() =~= ticks.take(0) && ticks.take(1).last() == ticks[0]);
    assert(ticks.take(2).drop_last() =~= ticks.take(1) && ticks.take(2).last() == ticks[1]);
    assert(ticks.take(3).drop_last() =~= ticks.take(2) && ticks.take(3).last() == ticks[2]);
    assert(ticks.take(4).drop_last() =~= ticks.take(3) && ticks.take(4).last() == ticks[3]);
    assert(ticks.drop_last() =~= ticks.take(4) && ticks.last() == ticks[4]);
    assert(r1.ping_fail_count == 1);
    assert(r2.ping_fail_count == 2);
    assert(r3.ping_fail_count == 3);
    assert(r4.ping_fail_count == 4);
    assert(r4.state is Okay);
}

/// Four failed pings in a row and then an answer start no grace period for
/// failed pings, and the count of failures starts again.
pub proof fn lemma_four_failed_pings_are_forgiven(
    runtime: MonitorRuntime,
    config: VmConfig,
    ticks: Seq<TickInput>,
)
    requires
        ticks.len() == 5,
        runtime.ping_fail_count == 0,
        forall|i: int| 0 <= i < 5 ==> (#[trigger] ticks[i]).readings.running == Some(true),
        forall|i: int| 0 <= i < 4 ==> !(#[trigger] ticks[i]).readings.ping_ok,
        ticks[4].readings.ping_ok,
    ensures
        forall|i: int|
            0 <= i < 5 ==> !(#[trigger] tick_at(runtime, config, ticks, i)).notices.contains(
                NoticeView::PingsFailed,
            ),
        after_ticks(runtime, config, ticks).ping_fail_count == 0,
{
    let r0 = after_ticks(runtime, config, ticks.take(0));
    let r1 = after_ticks(runtime, config, ticks.take(1));
    let r2 = after_ticks(runtime, config, ticks.take(2));
    let r3 = after_ticks(runtime, config, ticks.take(3));
    let r4 = after_ticks(runtime, config, ticks.take(4));
    assert(r0 == runtime);
    assert(ticks.take(1).drop_last() =~= ticks.take(0) && ticks.take(1).last() == ticks[0]);
    assert(ticks.take(2).drop_last() =~= ticks.take(1) && ticks.take(2).last() == ticks[1]);
    assert(ticks.take(3).drop_last() =~= ticks.take(2) && ticks.take(3).last() == ticks[2]);
    assert(ticks.take(4).drop_last() =~= ticks.take(3) && ticks.take(4).last() == ticks[3]);
    assert(ticks.drop_last() =~= ticks.take(4) && ticks.last() == ticks[4]);
    assert(r1.ping_fail_count <= 1);
    assert(r2.ping_fail_count <= 2);
    assert(r3.ping_fail_count <= 3);
    assert(r4.ping_fail_count <= 4);
    assert forall|i: int| 0 <= i < 5 implies !(#[trigger] tick_at(
        runtime,
        config,
        ticks,
        i,
    )).notices.contains(NoticeView::PingsFailed) by {
        let before = after_ticks(runtime, config, ticks.take(i));
        assert(before.ping_fail_count <= 4);
        assert(i < 4 ==> before.ping_fail_count <= 3);
        lemma_no_ping_notice_below_limit(before, config, ticks[i].now, ticks[i].readings);
    }
}

/// What is delivered of two runs of messages, one after the other, holds
/// a message exactly where one of the two holds it.
pub proof fn lemma_contains_of_concat(a: Seq<NoticeView>, b: Seq<NoticeView>, notice: NoticeView)
    ensures
        (a + b).contains(notice) <==> a.contains(notice) || b.contains(notice),
{
    if a.contains(notice) {
        let i = choose|i: int| 0 <= i < a.len() && a[i] == notice;
        assert((a + b)[i] == notice);
    }
    if b.contains(notice) {
        let i = choose|i: int| 0 <= i < b.len() && b[i] == notice;
        assert((a + b)[a.len() + i] == notice);
    }
    if (a + b).contains(notice) {
        let i = choose|i: int| 0 <= i < (a + b).len() && (a + b)[i] == notice;
        if i < a.len() {
            assert(a[i] == notice);
        } else {
            assert(b[i - a.len()] == notice);
        }
    }
}

/// Only the answer to a ping announces failed pings, and only a failure
/// that is the fifth in a row or a later one.
pub proof fn lemma_steps_without_ping_notice(
    runtime: MonitorRuntime,
    config: VmConfig,
    now: u64,
    readings: ReadingsView,
)
    ensures
        !power_outcome(runtime, config, now, readings.running).notices.contains(
            NoticeView::PingsFailed,
        ),
        !escalation_outcome(runtime, config, now).notices.contains(NoticeView::PingsFailed),
        readings.ping_ok || runtime.ping_fail_count < 4 ==> !ping_outcome(
            runtime,
            config,
            now,
            readings.ping_ok,
        ).notices.contains(NoticeView::PingsFailed),
        !write_outcome(runtime, config, now, readings.write_ok).notices.contains(
            NoticeView::PingsFailed,
        ),
        !read_outcome(runtime, config, now, readings.reset_after).notices.contains(
            NoticeView::PingsFailed,
        ),
        !reset_outcome(runtime, readings.reset_failure).notices.contains(NoticeView::PingsFailed),
{
    let wanted = NoticeView::PingsFailed;
    let power = power_outcome(runtime, config, now, readings.running).notices;
    assert forall|k: int| 0 <= k < power.len() implies power[k] != wanted by {}
    let reset = reset_outcome(runtime, readings.reset_failure).notices;
    assert forall|k: int| 0 <= k < reset.len() implies reset[k] != wanted by {}
    lemma_escalation_without_ping_notice(runtime, config, now);
    if readings.ping_ok {
        let ping = ping_outcome(runtime, config, now, readings.ping_ok).notices;
        assert(ping =~= Seq::empty());
    } else if runtime.ping_fail_count < 4 {
        let counted = MonitorRuntime {
            ping_fail_count: one_more_failure(runtime.ping_fail_count),
            ..runtime
        };
        lemma_escalation_without_ping_notice(counted, config, now);
        lemma_contains_of_concat(
            Seq::empty(),
            escalation_outcome(counted, config, now).notices,
            wanted,
        );
    }
    if readings.write_ok {
        let write = write_outcome(runtime, config, now, readings.write_ok).notices;
        assert(write =~= Seq::empty());
    } else {
        let (after, said) = degraded(runtime, config, now, seq![NoticeView::WriteFailed]);
        assert forall|k: int| 0 <= k < said.len() implies said[k] != wanted by {}
        lemma_escalation_without_ping_notice(after, config, now);
        lemma_contains_of_concat(said, escalation_outcome(after, config, now).notices, wanted);
    }
    let (after, said) = match readings.reset_after {
        None => degraded(runtime, config, now, seq![NoticeView::ReadFailed]),
        Some(text) => match reset_after_of(text) {
            None => degraded(
                runtime,
                config,
                now,
                seq![NoticeView::ParseFailed, NoticeView::UnparsableContent(text)],
            ),
            Some(deadline) => accepted(runtime, config, now, deadline),
        },
    };
    assert forall|k: int| 0 <= k < said.len() implies said[k] != wanted by {}
    lemma_escalation_without_ping_notice(after, config, now);
    lemma_contains_of_concat(said, escalation_outcome(after, config, now).notices, wanted);
}

/// What is decided after the heartbeat never announces failed pings.
pub proof fn lemma_escalation_without_ping_notice(
    runtime: MonitorRuntime,
    config: VmConfig,
    now: u64,
)
    ensures
        !escalation_outcome(runtime, config, now).notices.contains(NoticeView::PingsFailed),
{
    let notices = escalation_outcome(runtime, config, now).notices;
    assert forall|k: int| 0 <= k < notices.len() implies notices[k]
        != NoticeView::PingsFailed by {}
}

/// The end of a tick announces failed pings only where the tick did so
/// before or its last call does.
pub proof fn lemma_conclusion_without_ping_notice(
    before: Seq<NoticeView>,
    calls: Seq<Call>,
    last: Outcome,
    readings: ReadingsView,
)
    requires
        !before.contains(NoticeView::PingsFailed),
        !last.notices.contains(NoticeView::PingsFailed),
    ensures
        !concluded(before, calls, last, readings).notices.contains(NoticeView::PingsFailed),
{
    let wanted = NoticeView::PingsFailed;
    lemma_contains_of_concat(before, last.notices, wanted);
    let reset = reset_outcome(last.runtime, readings.reset_failure).notices;
    assert forall|k: int| 0 <= k < reset.len() implies reset[k] != wanted by {}
    lemma_contains_of_concat(
        before + last.notices,
        reset_outcome(last.runtime, readings.reset_failure).notices,
        wanted,
    );
}

/// A tick announces failed pings only where the ping fails and is the fifth
/// failure in a row or a later one.
pub proof fn lemma_no_ping_notice_below_limit(
    runtime: MonitorRuntime,
    config: VmConfig,
    now: u64,
    readings: ReadingsView,
)
    requires
        readings.ping_ok || runtime.ping_fail_count < 4 || readings.running != Some(true),
    ensures
        !tick_outcome(runtime, config, now, readings).notices.contains(NoticeView::PingsFailed),
{
    let wanted = NoticeView::PingsFailed;
    let empty = Seq::<NoticeView>::empty();
    assert(!empty.contains(wanted));
    let power = power_outcome(runtime, config, now, readings.running);
    lemma_steps_without_ping_notice(runtime, config, now, readings);
    if power.next != Some(Call::Ping) {
        lemma_conclusion_without_ping_notice(empty, seq![Call::IsRunning], power, readings);
    } else {
        assert(readings.running == Some(true));
        assert(power.runtime.ping_fail_count <= runtime.ping_fail_count);
        let ping = ping_outcome(power.runtime, config, now, readings.ping_ok);
        lemma_steps_without_ping_notice(power.runtime, config, now, readings);
        if ping.next != Some(Call::WriteTime) {
            lemma_conclusion_without_ping_notice(
                power.notices,
                seq![Call::IsRunning, Call::Ping],
                ping,
                readings,
            );
        } else {
            let write = write_outcome(ping.runtime, config, now, readings.write_ok);
            lemma_steps_without_ping_notice(ping.runtime, config, now, readings);
            lemma_contains_of_concat(power.notices, ping.notices, wanted);
            if write.next != Some(Call::ReadResetAfter) {
                lemma_conclusion_without_ping_notice(
                    power.notices + ping.notices,
                    seq![Call::IsRunning, Call::Ping, Call::WriteTime],
                    write,
                    readings,
                );
            } else {
                let read = read_outcome(write.runtime, config, now, readings.reset_after);
                lemma_steps_without_ping_notice(write.runtime, config, now, readings);
                lemma_contains_of_concat(power.notices + ping.notices, write.notices, wanted);
                lemma_conclusion_without_ping_notice(
                    power.notices + ping.notices + write.notices,
                    seq![Call::IsRunning, Call::Ping, Call::WriteTime, Call::ReadResetAfter],
                    read,
                    readings,
                );
            }
        }
    }
}

/// A time of reset that the guest names and that lies in the future decides
/// the state, whatever it was: within the allowed interval the machine is
/// well, beyond it the deadline counts as too far away.
pub proof fn lemma_valid_heartbeat_decides_state(
    runtime: MonitorRuntime,
    config: VmConfig,
    now: u64,
    readings: ReadingsView,
    deadline: u64,
)
    requires
        deadlines_fit(config, now),
        readings.running == Some(true),
        readings.ping_ok,
        readings.write_ok,
        readings.reset_after matches Some(text) && reset_after_of(text) == Some(deadline),
        seconds_until(deadline, now) > 0,
    ensures
        seconds_until(deadline, now) <= config.max_no_warning_interval ==> tick_outcome(
            runtime,
            config,
            now,
            readings,
        ).runtime.state == SingleMachineMonitoringState::Okay(deadline),
        seconds_until(deadline, now) > config.max_no_warning_interval ==> tick_outcome(
            runtime,
            config,
            now,
            readings,
        ).runtime.state == SingleMachineMonitoringState::TooFar(deadline),
{
}

/// A grace period that is over ends in the next tick that finds the machine
/// running and the guest not recovered: the machine is reset and left alone
/// for the reset duration. Where resets are only announced no reset is
/// asked for, and the operators are told so.
pub proof fn lemma_expired_grace_resets(
    runtime: MonitorRuntime,
    config: VmConfig,
    now: u64,
    readings: ReadingsView,
)
    requires
        deadlines_fit(config, now),
        runtime.state matches SingleMachineMonitoringState::GracePeriod(deadline) && deadline
            <= now,
        readings.running == Some(true),
        !guest_recovers(readings, now),
    ensures
        tick_outcome(runtime, config, now, readings).runtime.state
            == SingleMachineMonitoringState::Resetting(resume_time(config, now)),
        tick_outcome(runtime, config, now, readings).notices[0] == NoticeView::GraceExpired,
        config.dry_run ==> {
            &&& !tick_outcome(runtime, config, now, readings).calls.contains(Call::Reset)
            &&& tick_outcome(runtime, config, now, readings).notices == seq![
                NoticeView::GraceExpired,
                NoticeView::DryRun,
            ]
        },
        !config.dry_run ==> {
            &&& tick_outcome(runtime, config, now, readings).calls.last() == Call::Reset
            &&& !tick_outcome(runtime, config, now, readings).notices.contains(NoticeView::DryRun)
        },
{
    let outcome = tick_outcome(runtime, config, now, readings);
    if config.dry_run {
        assert(outcome.notices =~= seq![NoticeView::GraceExpired, NoticeView::DryRun]);
        assert forall|k: int| 0 <= k < outcome.calls.len() implies outcome.calls[k]
            != Call::Reset by {
        }
    } else {
        assert forall|k: int| 0 <= k < outcome.notices.len() implies outcome.notices[k]
            != NoticeView::DryRun by {
        }
    }
}

/// In a grace period that goes on, a tick says nothing but how much time is
/// left, and says it only where the threshold differs from the one that was
/// announced last.
pub proof fn lemma_warning_once_per_threshold(
    runtime: MonitorRuntime,
    config: VmConfig,
    now: u64,
    readings: ReadingsView,
)
    requires
        deadlines_fit(config, now),
        runtime.state matches SingleMachineMonitoringState::GracePeriod(deadline) && deadline
            > now,
        readings.running == Some(true),
        !guest_recovers(readings, now),
    ensures
        ({
            let deadline = runtime.state->GracePeriod_0;
            let threshold = closest_threshold(seconds_until(deadline, now));
            let outcome = tick_outcome(runtime, config, now, readings);
            &&& outcome.runtime.state == runtime.state
            &&& outcome.runtime.last_sent_threshold == Some(threshold)
            &&& outcome.notices == if runtime.last_sent_threshold == Some(threshold) {
                Seq::<NoticeView>::empty()
            } else {
                seq![NoticeView::WillReset(threshold)]
            }
        }),
{
    let deadline = runtime.state->GracePeriod_0;
    let threshold = closest_threshold(seconds_until(deadline, now));
    let outcome = tick_outcome(runtime, config, now, readings);
    assert(outcome.notices =~= if runtime.last_sent_threshold == Some(threshold) {
        Seq::<NoticeView>::empty()
    } else {
        seq![NoticeView::WillReset(threshold)]
    });
}

/// Of two ticks in a row within one grace period the second is silent where
/// the time that is left falls under the same threshold as at the first, and
/// sends exactly one warning, that of the new threshold, where it does not.
pub proof fn lemma_warnings_do_not_repeat(
    runtime: MonitorRuntime,
    config: VmConfig,
    first: TickInput,
    second: TickInput,
)
    requires
        deadlines_fit(config, first.now),
        deadlines_fit(config, second.now),
        runtime.state matches SingleMachineMonitoringState::GracePeriod(deadline) && deadline
            > first.now && deadline > second.now,
        first.readings.running == Some(true),
        second.readings.running == Some(true),
        !guest_recovers(first.readings, first.now),
        !guest_recovers(second.readings, second.now),
    ensures
        ({
            let deadline = runtime.state->GracePeriod_0;
            let earlier = closest_threshold(seconds_until(deadline, first.now));
            let later = closest_threshold(seconds_until(deadline, second.now));
            let between = tick_outcome(runtime, config, first.now, first.readings).runtime;
            let outcome = tick_outcome(between, config, second.now, second.readings);
            &&& earlier == later ==> outcome.notices == Seq::<NoticeView>::empty()
            &&& earlier != later ==> outcome.notices == seq![NoticeView::WillReset(later)]
        }),
{
    lemma_warning_once_per_threshold(runtime, config, first.now, first.readings);
    let between = tick_outcome(runtime, config, first.now, first.readings).runtime;
    lemma_warning_once_per_threshold(between, config, second.now, second.readings);
}

/// A grace period and the time for which a machine is left alone are
/// counted from the tick that starts them, and are not moved afterwards.
pub proof fn lemma_deadlines_count_from_now(
    runtime: MonitorRuntime,
    config: VmConfig,
    now: u64,
    readings: ReadingsView,
)
    ensures
        ({
            let after = tick_outcome(runtime, config, now, readings).runtime.state;
            after != runtime.state ==> {
                &&& after matches SingleMachineMonitoringState::GracePeriod(deadline) ==> deadline
                    == grace_deadline(config, now)
                &&& after matches SingleMachineMonitoringState::Resetting(resume_at) ==> resume_at
                    == resume_time(config, now)
            }
        }),
{
}

/// Announcing resets instead of performing them changes nothing about what
/// the watchdog remembers: only the reset itself is left out.
pub proof fn lemma_dry_run_keeps_state(
    runtime: MonitorRuntime,
    config: VmConfig,
    now: u64,
    readings: ReadingsView,
)
    ensures
        tick_outcome(runtime, VmConfig { dry_run: true, ..config }, now, readings).runtime
            == tick_outcome(runtime, VmConfig { dry_run: false, ..config }, now, readings).runtime,
        !tick_outcome(runtime, VmConfig { dry_run: true, ..config }, now, readings).calls.contains(
            Call::Reset,
        ),
{
    let calls = tick_outcome(runtime, VmConfig { dry_run: true, ..config }, now, readings).calls;
    assert forall|k: int| 0 <= k < calls.len() implies calls[k] != Call::Reset by {}
}

/// Outside a grace period no warning counts as sent. A tick that finds the
/// machine running and not in a grace period leaves it with no threshold
/// remembered, or in a grace period whose first warning it has just sent.
pub proof fn lemma_grace_period_starts_with_warning(
    runtime: MonitorRuntime,
    config: VmConfig,
    now: u64,
    readings: ReadingsView,
)
    requires
        !(runtime.state is GracePeriod),
        readings.running == Some(true),
    ensures
        ({
            let outcome = tick_outcome(runtime, config, now, readings);
            match outcome.runtime.state {
                SingleMachineMonitoringState::GracePeriod(deadline) => {
                    let threshold = closest_threshold(seconds_until(deadline, now));
                    &&& outcome.runtime.last_sent_threshold == Some(threshold)
                    &&& outcome.notices.len() > 0
                    &&& outcome.notices.last() == NoticeView::WillReset(threshold)
                },
                _ => outcome.runtime.last_sent_threshold is None,
            }
        }),
{
}

} // verus!
