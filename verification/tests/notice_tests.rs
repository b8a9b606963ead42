use vm_watchdog::clock::{format_time, time_or_seconds};
use vm_watchdog::notices::{emit, Notice};

#[test]
fn plain_notices_have_their_words() {
    let expected = [
        (Notice::PoweredOn, "Machine has been powered on, beginnning reset timer"),
        (Notice::PoweredOff, "Machine has been powered off, stopping monitoring"),
        (Notice::ResetTimerCompleted, "Machine reset timer has completed, resuming monitoring"),
        (
            Notice::PingsFailed,
            "The machine has failed to respond to 5 QEMU guest-agent pings in a row. Grace period started",
        ),
        (
            Notice::WriteFailed,
            "Watchdog failed to write the current time to the guest into /tmp/watchdog_current_unix_time. Grace period started",
        ),
        (
            Notice::ReadFailed,
            "Watchdog failed to read the reset time from the guest into /tmp/watchdog_reset_after. Perhaps the file doesn't exist? Grace period started",
        ),
        (
            Notice::ParseFailed,
            "Watchdog failed to parse /tmp/watchdog_reset_after as a Unix time. Grace period started",
        ),
        (Notice::MachineOk, "Machine is OK"),
        (
            Notice::NoHeartbeat,
            "Could not read the next reset time from the file at /tmp/watchdog_reset_after. Grace period started",
        ),
        (Notice::GraceExpired, "Grace period has expired. Resetting machine now"),
        (Notice::DryRun, "Dry-run mode: not actually resetting the machine"),
    ];
    for (notice, words) in expected {
        assert_eq!(notice.text(), words);
    }
}

#[test]
fn unparsable_content_is_quoted_in_a_block() {
    assert_eq!(
        Notice::UnparsableContent("tomorrow\n".to_string()).text(),
        "The current text in /tmp/watchdog_reset_after is: \n\n```\ntomorrow\n\n```"
    );
}

#[test]
fn reset_failure_gives_the_reason() {
    assert_eq!(
        Notice::ResetFailed("connection refused".to_string()).text(),
        "Failed to reset machine: connection refused"
    );
}

#[test]
fn warning_names_the_threshold() {
    assert_eq!(
        Notice::WillReset(600).text(),
        "Machine will reset in 10 minutes unless the issue is fixed"
    );
    assert_eq!(
        Notice::WillReset(60).text(),
        "Machine will reset in 1 minute unless the issue is fixed"
    );
    assert_eq!(
        Notice::WillReset(7200).text(),
        "Machine will reset in 2 hours unless the issue is fixed"
    );
}

#[test]
fn times_are_written_as_the_calendar_has_them() {
    assert_eq!(format_time(0), "1970-01-01 00:00:00 UTC");
    assert_eq!(format_time(1431648000), "2015-05-15 00:00:00 UTC");
    assert_eq!(format_time(1_700_000_000), "2023-11-14 22:13:20 UTC");
    assert_eq!(
        Notice::TooFarAhead(1_700_000_000).text(),
        "Machine requested reset at 2023-11-14 22:13:20 UTC, which is too far into the future. This is OK if you are performing manual maintenance."
    );
    assert_eq!(
        Notice::HeartbeatStale(1431648000).text(),
        "Machine has not updated its /tmp/watchdog_reset_after in a while (last update was at 2015-05-15 00:00:00 UTC). Grace period started"
    );
}

#[test]
fn times_beyond_the_calendar_are_written_in_seconds() {
    assert_eq!(format_time(u64::MAX), "18446744073709551615");
    assert_eq!(format_time(1u64 << 63), "9223372036854775808");
    assert_eq!(format_time(i64::MAX as u64), "9223372036854775807");
    assert_eq!(
        Notice::TooFarAhead(u64::MAX).text(),
        "Machine requested reset at 18446744073709551615, which is too far into the future. This is OK if you are performing manual maintenance."
    );
}

#[test]
fn calendar_text_wins_over_seconds() {
    assert_eq!(time_or_seconds(Some("noon".to_string()), 5), "noon");
    assert_eq!(time_or_seconds(None, 5), "5");
}

#[test]
fn emit_appends() {
    let mut notices = vec![Notice::MachineOk];
    emit(&mut notices, Notice::DryRun);
    assert_eq!(notices, vec![Notice::MachineOk, Notice::DryRun]);
}
