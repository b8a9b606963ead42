//! What the watchdog tells its operators.

use crate::clock::{format_time, time_text};
use crate::thresholds::{label_for, threshold_label};
use vstd::prelude::*;
use vstd::string::*;

verus! {

/// One message to the operators of a machine.
#[derive(Debug, Clone, PartialEq, Eq)]
pub enum Notice {
    /// The machine was off and is on again.
    PoweredOn,
    /// The machine was switched off.
    PoweredOff,
    /// The time that a machine is left alone after a reset is over.
    ResetTimerCompleted,
    /// The guest agent did not answer five times in a row.
    PingsFailed,
    /// The current time could not be written into the guest.
    WriteFailed,
    /// The time of the next reset could not be read from the guest.
    ReadFailed,
    /// What the guest wrote is no Unix time.
    ParseFailed,
    /// What the guest wrote, where it is no Unix time.
    UnparsableContent(String),
    /// The guest asks for a reset unusually far in the future, at this Unix time.
    TooFarAhead(u64),
    /// The guest asks for a reset within the allowed interval.
    MachineOk,
    /// The time at which the guest asked to be reset, this Unix time, has passed.
    HeartbeatStale(u64),
    /// No time of reset has been read from the guest yet.
    NoHeartbeat,
    /// The grace period is over.
    GraceExpired,
    /// The machine would have been reset, but resets are only announced.
    DryRun,
    /// The hypervisor refused the reset, for this reason.
    ResetFailed(String),
    /// The machine will be reset in about as many seconds.
    WillReset(u64),
}

/// A message as contracts speak of it: texts are sequences of characters.
pub enum NoticeView {
    PoweredOn,
    PoweredOff,
    ResetTimerCompleted,
    PingsFailed,
    WriteFailed,
    ReadFailed,
    ParseFailed,
    UnparsableContent(Seq<char>),
    TooFarAhead(u64),
    MachineOk,
    HeartbeatStale(u64),
    NoHeartbeat,
    GraceExpired,
    DryRun,
    ResetFailed(Seq<char>),
    WillReset(u64),
}

impl View for Notice {
    type V = NoticeView;

    open spec fn view(&self) -> NoticeView {
        match *self {
            Notice::PoweredOn => NoticeView::PoweredOn,
            Notice::PoweredOff => NoticeView::PoweredOff,
            Notice::ResetTimerCompleted => NoticeView::ResetTimerCompleted,
            Notice::PingsFailed => NoticeView::PingsFailed,
            Notice::WriteFailed => NoticeView::WriteFailed,
            Notice::ReadFailed => NoticeView::ReadFailed,
            Notice::ParseFailed => NoticeView::ParseFailed,
            Notice::UnparsableContent(text) => NoticeView::UnparsableContent(text@),
            Notice::TooFarAhead(deadline) => NoticeView::TooFarAhead(deadline),
            Notice::MachineOk => NoticeView::MachineOk,
            Notice::HeartbeatStale(deadline) => NoticeView::HeartbeatStale(deadline),
            Notice::NoHeartbeat => NoticeView::NoHeartbeat,
            Notice::GraceExpired => NoticeView::GraceExpired,
            Notice::DryRun => NoticeView::DryRun,
            Notice::ResetFailed(reason) => NoticeView::ResetFailed(reason@),
            Notice::WillReset(threshold) => NoticeView::WillReset(threshold),
        }
    }
}

impl DeepView for Notice {
    type V = NoticeView;

    open spec fn deep_view(&self) -> NoticeView {
        self.view()
    }
}

/// Appends `notice` to `notices`.
pub fn emit(notices: &mut Vec<Notice>, notice: Notice)
    ensures
        final(notices).deep_view() == old(notices).deep_view().push(notice@),
{
    let ghost before = notices.deep_view();
    notices.push(notice);
    assert(notices.deep_view() =~= before.push(notice@));
}

/// The words of a message.
pub open spec fn notice_text(notice: NoticeView) -> Seq<char> {
    match notice {
        NoticeView::PoweredOn => "Machine has been powered on, beginnning reset timer"@,
        NoticeView::PoweredOff => "Machine has been powered off, stopping monitoring"@,
        NoticeView::ResetTimerCompleted => "Machine reset timer has completed, resuming monitoring"@,
        NoticeView::PingsFailed => "The machine has failed to respond to 5 QEMU guest-agent pings in a row. Grace period started"@,
        NoticeView::WriteFailed => "Watchdog failed to write the current time to the guest into /tmp/watchdog_current_unix_time. Grace period started"@,
        NoticeView::ReadFailed => "Watchdog failed to read the reset time from the guest into /tmp/watchdog_reset_after. Perhaps the file doesn't exist? Grace period started"@,
        NoticeView::ParseFailed => "Watchdog failed to parse /tmp/watchdog_reset_after as a Unix time. Grace period started"@,
        NoticeView::UnparsableContent(text) => "The current text in /tmp/watchdog_reset_after is: \n\n```\n"@
            + text + "\n```"@,
        NoticeView::TooFarAhead(deadline) => "Machine requested reset at "@ + time_text(deadline)
            + ", which is too far into the future. This is OK if you are performing manual maintenance."@,
        NoticeView::MachineOk => "Machine is OK"@,
        NoticeView::HeartbeatStale(deadline) => "Machine has not updated its /tmp/watchdog_reset_after in a while (last update was at "@
            + time_text(deadline) + "). Grace period started"@,
        NoticeView::NoHeartbeat => "Could not read the next reset time from the file at /tmp/watchdog_reset_after. Grace period started"@,
        NoticeView::GraceExpired => "Grace period has expired. Resetting machine now"@,
        NoticeView::DryRun => "Dry-run mode: not actually resetting the machine"@,
        NoticeView::ResetFailed(reason) => "Failed to reset machine: "@ + reason,
        NoticeView::WillReset(threshold) => "Machine will reset in "@ + threshold_label(threshold)
            + " unless the issue is fixed"@,
    }
}

impl Notice {
    /// The words of the message.
    pub fn text(&self) -> (text: String)
        ensures
            text@ == notice_text(self@),
    {
        match self {
            Notice::PoweredOn => String::from_str(
                "Machine has been powered on, beginnning reset timer",
            ),
            Notice::PoweredOff => String::from_str(
                "Machine has been powered off, stopping monitoring",
            ),
            Notice::ResetTimerCompleted => String::from_str(
                "Machine reset timer has completed, resuming monitoring",
            ),
            Notice::PingsFailed => String::from_str(
                "The machine has failed to respond to 5 QEMU guest-agent pings in a row. Grace period started",
            ),
            Notice::WriteFailed => String::from_str(
                "Watchdog failed to write the current time to the guest into /tmp/watchdog_current_unix_time. Grace period started",
            ),
            Notice::ReadFailed => String::from_str(
                "Watchdog failed to read the reset time from the guest into /tmp/watchdog_reset_after. Perhaps the file doesn't exist? Grace period started",
            ),
            Notice::ParseFailed => String::from_str(
                "Watchdog failed to parse /tmp/watchdog_reset_after as a Unix time. Grace period started",
            ),
            Notice::UnparsableContent(content) => {
                let mut text = String::from_str(
                    "The current text in /tmp/watchdog_reset_after is: \n\n```\n",
                );
                text.append(content.as_str());
                text.append("\n```");
                text
            },
            Notice::TooFarAhead(deadline) => {
                let mut text = String::from_str("Machine requested reset at ");
                let time = format_time(*deadline);
                text.append(time.as_str());
                text.append(
                    ", which is too far into the future. This is OK if you are performing manual maintenance.",
                );
                text
            },
            Notice::MachineOk => String::from_str("Machine is OK"),
            Notice::HeartbeatStale(deadline) => {
                let mut text = String::from_str(
                    "Machine has not updated its /tmp/watchdog_reset_after in a while (last update was at ",
                );
                let time = format_time(*deadline);
                text.append(time.as_str());
                text.append("). Grace period started");
                text
            },
            Notice::NoHeartbeat => String::from_str(
                "Could not read the next reset time from the file at /tmp/watchdog_reset_after. Grace period started",
            ),
            Notice::GraceExpired => String::from_str(
                "Grace period has expired. Resetting machine now",
            ),
            Notice::DryRun => String::from_str("Dry-run mode: not actually resetting the machine"),
            Notice::ResetFailed(reason) => {
                let mut text = String::from_str("Failed to reset machine: ");
                text.append(reason.as_str());
                text
            },
            Notice::WillReset(threshold) => {
                let mut text = String::from_str("Machine will reset in ");
                text.append(label_for(*threshold));
                text.append(" unless the issue is fixed");
                text
            },
        }
    }
}

} // verus!
