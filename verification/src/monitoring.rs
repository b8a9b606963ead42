//! The watchdog of one machine.
//!
//! A tick is a conversation with the hypervisor. The watchdog does not make
//! the calls itself: its caller asks whether the machine runs and hands the
//! answer to [`SingleMachineMonitoring::power_reported`], which says what to
//! deliver and which call to make next, and so on until no call is left.
//! [`SingleMachineMonitoring::tick`] runs one whole tick on answers that are
//! known beforehand.

use crate::config::VmConfig;
use crate::heartbeat::parse_reset_after;
use crate::notices::{emit, Notice, NoticeView};
use crate::text::text_view;
use crate::thresholds::threshold_for;
use crate::transitions::{
    accepted, deadlines_fit, escalation_outcome, in_grace, initial_runtime, ping_outcome,
    power_outcome, read_outcome, reset_outcome, tick_outcome, write_outcome, Outcome,
    ReadingsView, PING_FAILURE_LIMIT,
};
use vstd::prelude::*;
use vstd::string::*;

verus! {

/// Where the watchdog stands with one machine. Times are Unix times in seconds.
#[derive(Debug, Clone, Copy, PartialEq, Eq, Structural)]
pub enum SingleMachineMonitoringState {
    /// The guest asked to be reset after the given time, which is within
    /// the allowed interval.
    Okay(u64),
    /// No time of reset has been read from the guest yet.
    NoData,
    /// The guest asked to be reset after the given time, which is unusually
    /// far in the future.
    TooFar(u64),
    /// The heartbeat is missing; the machine is reset at the given time
    /// unless it recovers.
    GracePeriod(u64),
    /// The machine was reset or powered on and is left alone until the
    /// given time.
    Resetting(u64),
    /// The machine is powered off and is not watched.
    PowerOff,
}

/// What the watchdog remembers of one machine from tick to tick.
#[derive(Debug, Clone, Copy, PartialEq, Eq)]
pub struct MonitorRuntime {
    pub state: SingleMachineMonitoringState,
    /// How many pings in a row the guest agent has not answered.
    pub ping_fail_count: u32,
    /// The threshold of the last warning sent in the current grace period.
    pub last_sent_threshold: Option<u64>,
}

/// A call to the hypervisor that a tick may ask for.
#[derive(Debug, Clone, Copy, PartialEq, Eq, Structural)]
pub enum Call {
    /// Ask whether the machine runs.
    IsRunning,
    /// Ping the guest agent.
    Ping,
    /// Write the current Unix time into the guest.
    WriteTime,
    /// Read the time of the next reset from the guest.
    ReadResetAfter,
    /// Reset the machine.
    Reset,
}

/// What the watchdog decided on one answer of the hypervisor.
#[derive(Debug)]
pub struct Step {
    /// The messages to deliver, in order, before the next call is made.
    pub notices: Vec<Notice>,
    /// The call to make next; `None` where the tick is over.
    pub next: Option<Call>,
}

/// The answers of the hypervisor during one tick.
#[derive(Debug)]
pub struct Readings {
    /// Whether the machine runs; `None` where the query failed.
    pub running: Option<bool>,
    /// Whether the guest agent answered the ping.
    pub ping_ok: bool,
    /// Whether the current time was written into the guest.
    pub write_ok: bool,
    /// What the guest's file holds; `None` where it could not be read.
    pub reset_after: Option<String>,
    /// Why the reset failed; `None` where it succeeded.
    pub reset_failure: Option<String>,
}

/// What one tick did.
#[derive(Debug)]
pub struct TickReport {
    /// The messages to deliver, in order.
    pub notices: Vec<Notice>,
    /// The calls that were made, in order.
    pub calls: Vec<Call>,
}

/// A message for the operators, ready to be sent.
#[derive(Debug)]
pub struct OutgoingMessage {
    /// Where to post the message.
    pub url: String,
    /// The chat that receives it.
    pub chat_id: String,
    /// The text, which names the machine.
    pub text: String,
}

/// The watchdog of one machine: what it was told and what it remembers.
pub struct SingleMachineMonitoring {
    runtime: MonitorRuntime,
    config: VmConfig,
}

impl View for Readings {
    type V = ReadingsView;

    open spec fn view(&self) -> ReadingsView {
        ReadingsView {
            running: self.running,
            ping_ok: self.ping_ok,
            write_ok: self.write_ok,
            reset_after: text_view(self.reset_after),
            reset_failure: text_view(self.reset_failure),
        }
    }
}

impl Step {
    /// The step is what `outcome` says: the same messages and the same next call.
    pub open spec fn is_outcome(&self, outcome: Outcome) -> bool {
        &&& self.notices.deep_view() == outcome.notices
        &&& self.next == outcome.next
    }
}

/// The text that is sent for `message` about the machine of `config`.
pub open spec fn message_text(config: VmConfig, message: Seq<char>) -> Seq<char> {
    "VMID "@ + config.vmid@ + " ("@ + config.friendly_name@ + "): "@ + message
}

/// Where a message is posted for the bot with the token `token`.
pub open spec fn message_url(token: Seq<char>) -> Seq<char> {
    "https://api.telegram.org/bot"@ + token + "/sendMessage"@
}

/// `runtime`, in a grace period that starts at `now`.
fn enter_grace(runtime: MonitorRuntime, config: &VmConfig, now: u64) -> (r: MonitorRuntime)
    requires
        deadlines_fit(*config, now),
    ensures
        r == in_grace(runtime, *config, now),
{
    MonitorRuntime {
        state: SingleMachineMonitoringState::GracePeriod(now + config.grace_period),
        ping_fail_count: runtime.ping_fail_count,
        last_sent_threshold: runtime.last_sent_threshold,
    }
}

/// Starts a grace period on a machine that was well and says whether it did.
fn degrade(runtime: MonitorRuntime, config: &VmConfig, now: u64) -> (r: (MonitorRuntime, bool))
    requires
        deadlines_fit(*config, now),
    ensures
        r.1 == (runtime.state is Okay),
        r.0 == (if runtime.state is Okay {
            in_grace(runtime, *config, now)
        } else {
            runtime
        }),
{
    match runtime.state {
        SingleMachineMonitoringState::Okay(_) => (enter_grace(runtime, config, now), true),
        _ => (runtime, false),
    }
}

/// Decides what follows once the heartbeat has been exchanged or given up.
fn escalate(runtime: MonitorRuntime, config: &VmConfig, now: u64, notices: &mut Vec<Notice>) -> (r:
    (MonitorRuntime, Option<Call>))
    requires
        deadlines_fit(*config, now),
    ensures
        r.0 == escalation_outcome(runtime, *config, now).runtime,
        r.1 == escalation_outcome(runtime, *config, now).next,
        final(notices).deep_view() == old(notices).deep_view() + escalation_outcome(
            runtime,
            *config,
            now,
        ).notices,
{
    let ghost before = notices.deep_view();
    let mut current = runtime;
    match runtime.state {
        SingleMachineMonitoringState::Okay(deadline) => {
            if deadline <= now {
                current = enter_grace(runtime, config, now);
                emit(notices, Notice::HeartbeatStale(deadline));
            }
        },
        SingleMachineMonitoringState::NoData => {
            current = enter_grace(runtime, config, now);
            emit(notices, Notice::NoHeartbeat);
        },
        _ => {},
    }
    let ghost entry = notices.deep_view();
    let mut next: Option<Call> = None;
    match current.state {
        SingleMachineMonitoringState::GracePeriod(deadline) => {
            if deadline <= now {
                current.state = SingleMachineMonitoringState::Resetting(now + config.reset_duration);
                emit(notices, Notice::GraceExpired);
                if config.dry_run {
                    emit(notices, Notice::DryRun);
                } else {
                    next = Some(Call::Reset);
                }
            } else {
                let threshold = threshold_for(deadline - now);
                let sent = match current.last_sent_threshold {
                    Some(last) => last == threshold,
                    None => false,
                };
                if !sent {
                    current.last_sent_threshold = Some(threshold);
                    emit(notices, Notice::WillReset(threshold));
                }
            }
        },
        _ => {},
    }
    assert(notices.deep_view() =~= before + escalation_outcome(runtime, *config, now).notices);
    (current, next)
}

/// Takes a deadline that the guest named into the state.
fn accept(
    runtime: MonitorRuntime,
    config: &VmConfig,
    now: u64,
    deadline: u64,
    notices: &mut Vec<Notice>,
) -> (r: MonitorRuntime)
    ensures
        r == accepted(runtime, *config, now, deadline).0,
        final(notices).deep_view() == old(notices).deep_view() + accepted(
            runtime,
            *config,
            now,
            deadline,
        ).1,
{
    let ghost before = notices.deep_view();
    let left: u64 = if deadline > now {
        deadline - now
    } else {
        0
    };
    let mut current = runtime;
    if left > config.max_no_warning_interval {
        match runtime.state {
            SingleMachineMonitoringState::TooFar(_) => {},
            _ => {
                emit(notices, Notice::TooFarAhead(deadline));
            },
        }
        current.state = SingleMachineMonitoringState::TooFar(deadline);
    } else if left > 0 {
        match runtime.state {
            SingleMachineMonitoringState::Okay(_) => {},
            _ => {
                emit(notices, Notice::MachineOk);
            },
        }
        current.state = SingleMachineMonitoringState::Okay(deadline);
    }
    assert(notices.deep_view() =~= before + accepted(runtime, *config, now, deadline).1);
    current
}

/// Moves the messages of `more` to the end of `all`.
fn deliver_after(all: &mut Vec<Notice>, more: Vec<Notice>)
    ensures
        final(all).deep_view() == old(all).deep_view() + more.deep_view(),
{
    let ghost before = all.deep_view();
    let ghost added = more.deep_view();
    let mut more = more;
    all.append(&mut more);
    assert(all.deep_view() =~= before + added);
}

impl SingleMachineMonitoring {
    /// What the watchdog remembers of the machine.
    pub closed spec fn runtime(&self) -> MonitorRuntime {
        self.runtime
    }

    /// What the watchdog was told about the machine.
    pub closed spec fn config(&self) -> VmConfig {
        self.config
    }

    /// A watchdog for the machine of `config`, of which nothing is known yet.
    pub fn new(config: VmConfig) -> (monitor: Self)
        ensures
            monitor.config() == config,
            monitor.runtime() == initial_runtime(),
    {
        SingleMachineMonitoring {
            runtime: MonitorRuntime {
                state: SingleMachineMonitoringState::NoData,
                ping_fail_count: 0,
                last_sent_threshold: None,
            },
            config,
        }
    }

    /// Where the watchdog stands with the machine.
    pub fn state(&self) -> (state: SingleMachineMonitoringState)
        ensures
            state == self.runtime().state,
    {
        self.runtime.state
    }

    /// How many pings in a row the guest agent has not answered.
    pub fn ping_fail_count(&self) -> (count: u32)
        ensures
            count == self.runtime().ping_fail_count,
    {
        self.runtime.ping_fail_count
    }

    /// The threshold of the last warning sent in the current grace period.
    pub fn last_sent_threshold(&self) -> (threshold: Option<u64>)
        ensures
            threshold == self.runtime().last_sent_threshold,
    {
        self.runtime.last_sent_threshold
    }

    /// What the watchdog was told about the machine.
    pub fn vm_config(&self) -> (config: &VmConfig)
        ensures
            *config == self.config(),
    {
        &self.config
    }

    /// Whether a tick may run at `now`: the times that it may set must fit
    /// in 64 bits.
    pub fn can_tick_at(&self, now: u64) -> (fits: bool)
        ensures
            fits == deadlines_fit(self.config(), now),
    {
        now <= u64::MAX - self.config.grace_period && now <= u64::MAX - self.config.reset_duration
    }

    /// Begins a tick at `now` with the report on whether the machine runs;
    /// `None` stands for a query that failed.
    pub fn power_reported(&mut self, now: u64, report: Option<bool>) -> (step: Step)
        requires
            deadlines_fit(old(self).config(), now),
        ensures
            final(self).config() == old(self).config(),
            final(self).runtime() == power_outcome(
                old(self).runtime(),
                old(self).config(),
                now,
                report,
            ).runtime,
            step.is_outcome(power_outcome(old(self).runtime(), old(self).config(), now, report)),
    {
        let ghost outcome = power_outcome(self.runtime, self.config, now, report);
        let mut notices: Vec<Notice> = Vec::new();
        assert(notices.deep_view() =~= Seq::<NoticeView>::empty());
        let running = match report {
            None => {
                return Step { notices, next: None };
            },
            Some(running) => running,
        };
        if !running {
            match self.runtime.state {
                SingleMachineMonitoringState::PowerOff => {},
                _ => {
                    self.runtime.state = SingleMachineMonitoringState::PowerOff;
                    emit(&mut notices, Notice::PoweredOff);
                    assert(notices.deep_view() =~= outcome.notices);
                },
            }
            return Step { notices, next: None };
        }
        match self.runtime.state {
            SingleMachineMonitoringState::PowerOff => {
                self.runtime.state = SingleMachineMonitoringState::Resetting(
                    now + self.config.reset_duration,
                );
                self.runtime.ping_fail_count = 0;
                emit(&mut notices, Notice::PoweredOn);
            },
            _ => {},
        }
        match self.runtime.state {
            SingleMachineMonitoringState::GracePeriod(_) => {},
            _ => {
                self.runtime.last_sent_threshold = None;
            },
        }
        match self.runtime.state {
            SingleMachineMonitoringState::Resetting(resume_at) => {
                if now >= resume_at {
                    self.runtime.state = SingleMachineMonitoringState::NoData;
                    emit(&mut notices, Notice::ResetTimerCompleted);
                }
            },
            _ => {},
        }
        match self.runtime.state {
            SingleMachineMonitoringState::TooFar(deadline) => {
                if deadline <= now || deadline - now <= self.config.max_no_warning_interval {
                    self.runtime.state = SingleMachineMonitoringState::Okay(deadline);
                }
            },
            _ => {},
        }
        assert(notices.deep_view() =~= outcome.notices);
        Step { notices, next: Some(Call::Ping) }
    }

    /// Goes on with the answer to the ping: whether the guest agent answered.
    pub fn ping_answered(&mut self, now: u64, answered: bool) -> (step: Step)
        requires
            deadlines_fit(old(self).config(), now),
        ensures
            final(self).config() == old(self).config(),
            final(self).runtime() == ping_outcome(
                old(self).runtime(),
                old(self).config(),
                now,
                answered,
            ).runtime,
            step.is_outcome(ping_outcome(old(self).runtime(), old(self).config(), now, answered)),
    {
        let ghost outcome = ping_outcome(self.runtime, self.config, now, answered);
        let mut notices: Vec<Notice> = Vec::new();
        assert(notices.deep_view() =~= Seq::<NoticeView>::empty());
        if answered {
            self.runtime.ping_fail_count = 0;
            return Step { notices, next: Some(Call::WriteTime) };
        }
        if self.runtime.ping_fail_count < u32::MAX {
            self.runtime.ping_fail_count = self.runtime.ping_fail_count + 1;
        }
        if self.runtime.ping_fail_count >= PING_FAILURE_LIMIT {
            let (after, started) = degrade(self.runtime, &self.config, now);
            self.runtime = after;
            if started {
                emit(&mut notices, Notice::PingsFailed);
            }
        }
        let (after, next) = escalate(self.runtime, &self.config, now, &mut notices);
        self.runtime = after;
        assert(notices.deep_view() =~= outcome.notices);
        Step { notices, next }
    }

    /// Goes on with the answer to the write: whether the current time was
    /// written into the guest.
    pub fn write_answered(&mut self, now: u64, written: bool) -> (step: Step)
        requires
            deadlines_fit(old(self).config(), now),
        ensures
            final(self).config() == old(self).config(),
            final(self).runtime() == write_outcome(
                old(self).runtime(),
                old(self).config(),
                now,
                written,
            ).runtime,
            step.is_outcome(write_outcome(old(self).runtime(), old(self).config(), now, written)),
    {
        let ghost outcome = write_outcome(self.runtime, self.config, now, written);
        let mut notices: Vec<Notice> = Vec::new();
        assert(notices.deep_view() =~= Seq::<NoticeView>::empty());
        if written {
            return Step { notices, next: Some(Call::ReadResetAfter) };
        }
        let (after, started) = degrade(self.runtime, &self.config, now);
        self.runtime = after;
        if started {
            emit(&mut notices, Notice::WriteFailed);
        }
        let (after, next) = escalate(self.runtime, &self.config, now, &mut notices);
        self.runtime = after;
        assert(notices.deep_view() =~= outcome.notices);
        Step { notices, next }
    }

    /// Goes on with the answer to the read: what the guest's file holds, or
    /// `None` where it could not be read.
    pub fn read_answered(&mut self, now: u64, content: Option<&str>) -> (step: Step)
        requires
            deadlines_fit(old(self).config(), now),
        ensures
            final(self).config() == old(self).config(),
            final(self).runtime() == read_outcome(
                old(self).runtime(),
                old(self).config(),
                now,
                match content {
                    Some(text) => Some(text@),
                    None => None,
                },
            ).runtime,
            step.is_outcome(
                read_outcome(
                    old(self).runtime(),
                    old(self).config(),
                    now,
                    match content {
                        Some(text) => Some(text@),
                        None => None,
                    },
                ),
            ),
    {
        let ghost outcome = read_outcome(
            self.runtime,
            self.config,
            now,
            match content {
                Some(text) => Some(text@),
                None => None,
            },
        );
        let mut notices: Vec<Notice> = Vec::new();
        assert(notices.deep_view() =~= Seq::<NoticeView>::empty());
        match content {
            None => {
                let (after, started) = degrade(self.runtime, &self.config, now);
                self.runtime = after;
                if started {
                    emit(&mut notices, Notice::ReadFailed);
                }
            },
            Some(text) => match parse_reset_after(text) {
                None => {
                    let (after, started) = degrade(self.runtime, &self.config, now);
                    self.runtime = after;
                    if started {
                        emit(&mut notices, Notice::ParseFailed);
                        emit(&mut notices, Notice::UnparsableContent(String::from_str(text)));
                    }
                },
                Some(deadline) => {
                    let after = accept(self.runtime, &self.config, now, deadline, &mut notices);
                    self.runtime = after;
                },
            },
        }
        let (after, next) = escalate(self.runtime, &self.config, now, &mut notices);
        self.runtime = after;
        assert(notices.deep_view() =~= outcome.notices);
        Step { notices, next }
    }

    /// Ends a tick with the answer to the reset: the reason of a failure, or
    /// `None` where the machine was reset.
    pub fn reset_answered(&self, failure: Option<&str>) -> (step: Step)
        ensures
            step.is_outcome(
                reset_outcome(
                    self.runtime(),
                    match failure {
                        Some(reason) => Some(reason@),
                        None => None,
                    },
                ),
            ),
    {
        let mut notices: Vec<Notice> = Vec::new();
        assert(notices.deep_view() =~= Seq::<NoticeView>::empty());
        match failure {
            Some(reason) => {
                emit(&mut notices, Notice::ResetFailed(String::from_str(reason)));
                assert(notices.deep_view() =~= seq![NoticeView::ResetFailed(reason@)]);
            },
            None => {},
        }
        Step { notices, next: None }
    }

    /// Runs one tick at `now` on the answers in `readings`. An answer to a
    /// call that the tick does not make is not looked at.
    pub fn tick(&mut self, now: u64, readings: &Readings) -> (report: TickReport)
        requires
            deadlines_fit(old(self).config(), now),
        ensures
            final(self).config() == old(self).config(),
            final(self).runtime() == tick_outcome(
                old(self).runtime(),
                old(self).config(),
                now,
                readings@,
            ).runtime,
            report.notices.deep_view() == tick_outcome(
                old(self).runtime(),
                old(self).config(),
                now,
                readings@,
            ).notices,
            report.calls@ == tick_outcome(
                old(self).runtime(),
                old(self).config(),
                now,
                readings@,
            ).calls,
    {
        let ghost outcome = tick_outcome(self.runtime, self.config, now, readings@);
        let mut notices: Vec<Notice> = Vec::new();
        let mut calls: Vec<Call> = Vec::new();
        assert(notices.deep_view() =~= Seq::<NoticeView>::empty());
        calls.push(Call::IsRunning);
        let power = self.power_reported(now, readings.running);
        let mut next = power.next;
        deliver_after(&mut notices, power.notices);
        if let Some(Call::Ping) = next {
            calls.push(Call::Ping);
            let ping = self.ping_answered(now, readings.ping_ok);
            next = ping.next;
            deliver_after(&mut notices, ping.notices);
            if let Some(Call::WriteTime) = next {
                calls.push(Call::WriteTime);
                let write = self.write_answered(now, readings.write_ok);
                next = write.next;
                deliver_after(&mut notices, write.notices);
                if let Some(Call::ReadResetAfter) = next {
                    calls.push(Call::ReadResetAfter);
                    let content: Option<&str> = match &readings.reset_after {
                        Some(text) => Some(text.as_str()),
                        None => None,
                    };
                    let read = self.read_answered(now, content);
                    next = read.next;
                    deliver_after(&mut notices, read.notices);
                }
            }
        }
        if let Some(Call::Reset) = next {
            calls.push(Call::Reset);
            let failure: Option<&str> = match &readings.reset_failure {
                Some(reason) => Some(reason.as_str()),
                None => None,
            };
            let reset = self.reset_answered(failure);
            deliver_after(&mut notices, reset.notices);
        }
        assert(notices.deep_view() =~= outcome.notices);
        assert(calls@ =~= outcome.calls);
        TickReport { notices, calls }
    }

    /// Prepares `message` for the operators of the machine: `None` where no
    /// bot or no chat is configured.
    pub fn say(&self, message: &str) -> (outgoing: Option<OutgoingMessage>)
        ensures
            match (self.config().telegram_bot_token, self.config().telegram_chat_id) {
                (Some(token), Some(chat_id)) => {
                    &&& outgoing matches Some(m)
                    &&& m.url@ == message_url(token@)
                    &&& m.chat_id@ == chat_id@
                    &&& m.text@ == message_text(self.config(), message@)
                },
                _ => outgoing is None,
            },
    {
        match (&self.config.telegram_bot_token, &self.config.telegram_chat_id) {
            (Some(token), Some(chat_id)) => {
                let mut text = String::from_str("VMID ");
                text.append(self.config.vmid.as_str());
                text.append(" (");
                text.append(self.config.friendly_name.as_str());
                text.append("): ");
                text.append(message);
                let mut url = String::from_str("https://api.telegram.org/bot");
                url.append(token.as_str());
                url.append("/sendMessage");
                Some(OutgoingMessage { url, chat_id: chat_id.clone(), text })
            },
            _ => None,
        }
    }
}

} // verus!
