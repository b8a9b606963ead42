//! What a tick of the watchdog decides, as mathematics: from the state of a
//! machine, the time and an answer of the hypervisor to the next state, the
//! messages to deliver and the next call to make.
//!
//! A tick asks the hypervisor whether the machine runs, pings the guest
//! agent, writes the current time into the guest, reads the time of the next
//! reset from it and, where the grace period is over, resets the machine.
//! Each answer decides whether the next call is made.

use crate::config::VmConfig;
use crate::heartbeat::reset_after_of;
use crate::monitoring::{Call, MonitorRuntime, SingleMachineMonitoringState};
use crate::notices::NoticeView;
use crate::thresholds::closest_threshold;
use vstd::prelude::*;

verus! {

/// How many failed pings in a row start a grace period.
pub const PING_FAILURE_LIMIT: u32 = 5;

/// What follows from one answer of the hypervisor.
pub struct Outcome {
    pub runtime: MonitorRuntime,
    pub notices: Seq<NoticeView>,
    /// The call to make next; `None` where the tick is over.
    pub next: Option<Call>,
}

/// The answers of the hypervisor during one tick, as contracts speak of them.
pub struct ReadingsView {
    pub running: Option<bool>,
    pub ping_ok: bool,
    pub write_ok: bool,
    pub reset_after: Option<Seq<char>>,
    pub reset_failure: Option<Seq<char>>,
}

/// What follows from one whole tick.
pub struct TickOutcome {
    pub runtime: MonitorRuntime,
    pub notices: Seq<NoticeView>,
    /// The calls that were made, in order.
    pub calls: Seq<Call>,
}

/// The state of a machine that has not been looked at yet.
pub open spec fn initial_runtime() -> MonitorRuntime {
    MonitorRuntime {
        state: SingleMachineMonitoringState::NoData,
        ping_fail_count: 0,
        last_sent_threshold: None,
    }
}

/// The times that a tick at `now` may set fit in 64 bits.
pub open spec fn deadlines_fit(config: VmConfig, now: u64) -> bool {
    &&& now + config.grace_period <= u64::MAX
    &&& now + config.reset_duration <= u64::MAX
}

/// When a grace period that starts at `now` ends.
pub open spec fn grace_deadline(config: VmConfig, now: u64) -> u64 {
    (now + config.grace_period) as u64
}

/// When a machine that is reset or powered on at `now` is watched again.
pub open spec fn resume_time(config: VmConfig, now: u64) -> u64 {
    (now + config.reset_duration) as u64
}

/// How many seconds lie between `now` and `deadline`; none where the
/// deadline has passed.
pub open spec fn seconds_until(deadline: u64, now: u64) -> u64 {
    if deadline > now {
        (deadline - now) as u64
    } else {
        0
    }
}

/// `runtime`, in a grace period that starts at `now`.
pub open spec fn in_grace(runtime: MonitorRuntime, config: VmConfig, now: u64) -> MonitorRuntime {
    MonitorRuntime {
        state: SingleMachineMonitoringState::GracePeriod(grace_deadline(config, now)),
        ..runtime
    }
}

/// A failure on a machine that was well starts a grace period and is
/// announced with `notices`; on any other machine it changes nothing.
pub open spec fn degraded(
    runtime: MonitorRuntime,
    config: VmConfig,
    now: u64,
    notices: Seq<NoticeView>,
) -> (MonitorRuntime, Seq<NoticeView>) {
    if runtime.state is Okay {
        (in_grace(runtime, config, now), notices)
    } else {
        (runtime, Seq::empty())
    }
}

/// `outcome`, with `notices` delivered before its own.
pub open spec fn preceded(notices: Seq<NoticeView>, outcome: Outcome) -> Outcome {
    Outcome { notices: notices + outcome.notices, ..outcome }
}

/// A machine that runs and was off is left alone for the reset duration,
/// and its failed pings are forgotten.
pub open spec fn woken(runtime: MonitorRuntime, config: VmConfig, now: u64) -> MonitorRuntime {
    if runtime.state is PowerOff {
        MonitorRuntime {
            state: SingleMachineMonitoringState::Resetting(resume_time(config, now)),
            ping_fail_count: 0,
            ..runtime
        }
    } else {
        runtime
    }
}

/// Outside a grace period no warning counts as sent.
pub open spec fn threshold_forgotten(runtime: MonitorRuntime) -> MonitorRuntime {
    if runtime.state is GracePeriod {
        runtime
    } else {
        MonitorRuntime { last_sent_threshold: None, ..runtime }
    }
}

/// Whether the time for which a machine was left alone is over at `now`.
pub open spec fn rest_is_over(runtime: MonitorRuntime, now: u64) -> bool {
    runtime.state matches SingleMachineMonitoringState::Resetting(resume_at) && now >= resume_at
}

/// A deadline that was too far away counts as a usual one as soon as it is
/// within the allowed interval.
pub open spec fn come_near(runtime: MonitorRuntime, config: VmConfig, now: u64) -> MonitorRuntime {
    match runtime.state {
        SingleMachineMonitoringState::TooFar(deadline) => if now + config.max_no_warning_interval
            >= deadline {
            MonitorRuntime { state: SingleMachineMonitoringState::Okay(deadline), ..runtime }
        } else {
            runtime
        },
        _ => runtime,
    }
}

/// What follows from the report on whether the machine runs; `None` stands
/// for a query that failed.
///
/// A failed query changes nothing and ends the tick. A machine that is off
/// is not watched: the tick ends, and the change is announced once. A
/// machine that runs is pinged next.
pub open spec fn power_outcome(
    runtime: MonitorRuntime,
    config: VmConfig,
    now: u64,
    report: Option<bool>,
) -> Outcome {
    match report {
        None => Outcome { runtime, notices: Seq::empty(), next: None },
        Some(false) => if runtime.state is PowerOff {
            Outcome { runtime, notices: Seq::empty(), next: None }
        } else {
            Outcome {
                runtime: MonitorRuntime { state: SingleMachineMonitoringState::PowerOff, ..runtime },
                notices: seq![NoticeView::PoweredOff],
                next: None,
            }
        },
        Some(true) => {
            let cleared = threshold_forgotten(woken(runtime, config, now));
            let resumed = if rest_is_over(cleared, now) {
                MonitorRuntime { state: SingleMachineMonitoringState::NoData, ..cleared }
            } else {
                cleared
            };
            Outcome {
                runtime: come_near(resumed, config, now),
                notices: (if runtime.state is PowerOff {
                    seq![NoticeView::PoweredOn]
                } else {
                    Seq::empty()
                }) + (if rest_is_over(cleared, now) {
                    seq![NoticeView::ResetTimerCompleted]
                } else {
                    Seq::empty()
                }),
                next: Some(Call::Ping),
            }
        },
    }
}

/// The number of failed pings in a row after one more.
pub open spec fn one_more_failure(count: u32) -> u32 {
    if count < u32::MAX {
        (count + 1) as u32
    } else {
        count
    }
}

/// What is decided once the heartbeat has been exchanged or given up.
///
/// A deadline that has passed starts a grace period, and so does a machine
/// of which nothing is known. A grace period that is over ends in a reset,
/// which is only announced where resets are not to be performed. In a grace
/// period that goes on, the time that is left is announced, once for each
/// threshold.
pub open spec fn escalation_outcome(runtime: MonitorRuntime, config: VmConfig, now: u64) -> Outcome {
    let (entered, entry) = match runtime.state {
        SingleMachineMonitoringState::Okay(deadline) => if deadline <= now {
            (in_grace(runtime, config, now), seq![NoticeView::HeartbeatStale(deadline)])
        } else {
            (runtime, Seq::empty())
        },
        SingleMachineMonitoringState::NoData => (
            in_grace(runtime, config, now),
            seq![NoticeView::NoHeartbeat],
        ),
        _ => (runtime, Seq::empty()),
    };
    match entered.state {
        SingleMachineMonitoringState::GracePeriod(deadline) => if deadline <= now {
            let resetting = MonitorRuntime {
                state: SingleMachineMonitoringState::Resetting(resume_time(config, now)),
                ..entered
            };
            if config.dry_run {
                Outcome {
                    runtime: resetting,
                    notices: entry + seq![NoticeView::GraceExpired, NoticeView::DryRun],
                    next: None,
                }
            } else {
                Outcome {
                    runtime: resetting,
                    notices: entry + seq![NoticeView::GraceExpired],
                    next: Some(Call::Reset),
                }
            }
        } else {
            let threshold = closest_threshold(seconds_until(deadline, now));
            if entered.last_sent_threshold == Some(threshold) {
                Outcome { runtime: entered, notices: entry, next: None }
            } else {
                Outcome {
                    runtime: MonitorRuntime { last_sent_threshold: Some(threshold), ..entered },
                    notices: entry + seq![NoticeView::WillReset(threshold)],
                    next: None,
                }
            }
        },
        _ => Outcome { runtime: entered, notices: entry, next: None },
    }
}

/// What follows from the answer to a ping.
///
/// After an answer the failures are forgotten and the current time is
/// written next. A failure is counted; the fifth in a row, or a later one,
/// starts a grace period on a machine that was well. After a failure no
/// heartbeat is exchanged.
pub open spec fn ping_outcome(
    runtime: MonitorRuntime,
    config: VmConfig,
    now: u64,
    answered: bool,
) -> Outcome {
    if answered {
        Outcome {
            runtime: MonitorRuntime { ping_fail_count: 0, ..runtime },
            notices: Seq::empty(),
            next: Some(Call::WriteTime),
        }
    } else {
        let counted = MonitorRuntime {
            ping_fail_count: one_more_failure(runtime.ping_fail_count),
            ..runtime
        };
        let (after, notices) = if counted.ping_fail_count >= PING_FAILURE_LIMIT {
            degraded(counted, config, now, seq![NoticeView::PingsFailed])
        } else {
            (counted, Seq::empty())
        };
        preceded(notices, escalation_outcome(after, config, now))
    }
}

/// What follows from the attempt to write the current time into the guest.
pub open spec fn write_outcome(
    runtime: MonitorRuntime,
    config: VmConfig,
    now: u64,
    written: bool,
) -> Outcome {
    if written {
        Outcome { runtime, notices: Seq::empty(), next: Some(Call::ReadResetAfter) }
    } else {
        let (after, notices) = degraded(runtime, config, now, seq![NoticeView::WriteFailed]);
        preceded(notices, escalation_outcome(after, config, now))
    }
}

/// What a deadline that the guest named does to the state: one beyond the
/// allowed interval is kept as too far, another one in the future makes the
/// machine well, and one that has passed changes nothing. A change of kind
/// is announced.
pub open spec fn accepted(
    runtime: MonitorRuntime,
    config: VmConfig,
    now: u64,
    deadline: u64,
) -> (MonitorRuntime, Seq<NoticeView>) {
    let left = seconds_until(deadline, now);
    if left > config.max_no_warning_interval {
        (
            MonitorRuntime { state: SingleMachineMonitoringState::TooFar(deadline), ..runtime },
            if runtime.state is TooFar {
                Seq::empty()
            } else {
                seq![NoticeView::TooFarAhead(deadline)]
            },
        )
    } else if left > 0 {
        (
            MonitorRuntime { state: SingleMachineMonitoringState::Okay(deadline), ..runtime },
            if runtime.state is Okay {
                Seq::empty()
            } else {
                seq![NoticeView::MachineOk]
            },
        )
    } else {
        (runtime, Seq::empty())
    }
}

/// What follows from the attempt to read the time of the next reset from the
/// guest; `None` stands for a read that failed.
pub open spec fn read_outcome(
    runtime: MonitorRuntime,
    config: VmConfig,
    now: u64,
    content: Option<Seq<char>>,
) -> Outcome {
    let (after, notices) = match content {
        None => degraded(runtime, config, now, seq![NoticeView::ReadFailed]),
        Some(text) => match reset_after_of(text) {
            None => degraded(
                runtime,
                config,
                now,
                seq![NoticeView::ParseFailed, NoticeView::UnparsableContent(text)],
            ),
            Some(deadline) => accepted(runtime, config, now, deadline),
        },
    };
    preceded(notices, escalation_outcome(after, config, now))
}

/// What follows from the attempt to reset the machine; `Some` holds the
/// reason of a failure. The state was settled when the reset was decided.
pub open spec fn reset_outcome(runtime: MonitorRuntime, failure: Option<Seq<char>>) -> Outcome {
    Outcome {
        runtime,
        notices: match failure {
            Some(reason) => seq![NoticeView::ResetFailed(reason)],
            None => Seq::empty(),
        },
        next: None,
    }
}

/// The end of a tick after `last`, the outcome of the call that `calls`
/// ends with: where a reset was decided it is made.
pub open spec fn concluded(
    before: Seq<NoticeView>,
    calls: Seq<Call>,
    last: Outcome,
    readings: ReadingsView,
) -> TickOutcome {
    if last.next == Some(Call::Reset) {
        let reset = reset_outcome(last.runtime, readings.reset_failure);
        TickOutcome {
            runtime: reset.runtime,
            notices: before + last.notices + reset.notices,
            calls: calls.push(Call::Reset),
        }
    } else {
        TickOutcome { runtime: last.runtime, notices: before + last.notices, calls }
    }
}

/// What one tick at `now` does where the hypervisor answers as `readings`
/// says. An answer to a call that is not made is not looked at.
pub open spec fn tick_outcome(
    runtime: MonitorRuntime,
    config: VmConfig,
    now: u64,
    readings: ReadingsView,
) -> TickOutcome {
    let power = power_outcome(runtime, config, now, readings.running);
    if power.next != Some(Call::Ping) {
        concluded(Seq::empty(), seq![Call::IsRunning], power, readings)
    } else {
        let ping = ping_outcome(power.runtime, config, now, readings.ping_ok);
        if ping.next != Some(Call::WriteTime) {
            concluded(power.notices, seq![Call::IsRunning, Call::Ping], ping, readings)
        } else {
            let write = write_outcome(ping.runtime, config, now, readings.write_ok);
            if write.next != Some(Call::ReadResetAfter) {
                concluded(
                    power.notices + ping.notices,
                    seq![Call::IsRunning, Call::Ping, Call::WriteTime],
                    write,
                    readings,
                )
            } else {
                let read = read_outcome(write.runtime, config, now, readings.reset_after);
                concluded(
                    power.notices + ping.notices + write.notices,
                    seq![Call::IsRunning, Call::Ping, Call::WriteTime, Call::ReadResetAfter],
                    read,
                    readings,
                )
            }
        }
    }
}

} // verus!
