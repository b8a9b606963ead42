use vm_watchdog::heartbeat::{
    chars_of, current_time_text, decimal_text, is_whitespace, parse_reset_after,
    CURRENT_TIME_PATH, RESET_AFTER_PATH,
};
use vm_watchdog::thresholds::{label_for, threshold_for};

#[test]
fn paths_of_the_heartbeat_files() {
    assert_eq!(CURRENT_TIME_PATH, "/tmp/watchdog_current_unix_time");
    assert_eq!(RESET_AFTER_PATH, "/tmp/watchdog_reset_after");
}

#[test]
fn parses_plain_numbers() {
    assert_eq!(parse_reset_after("0"), Some(0));
    assert_eq!(parse_reset_after("1700000000"), Some(1_700_000_000));
    assert_eq!(parse_reset_after("00012"), Some(12));
    assert_eq!(parse_reset_after("+5"), Some(5));
}

#[test]
fn parses_numbers_within_white_space() {
    assert_eq!(parse_reset_after("1700000000\n"), Some(1_700_000_000));
    assert_eq!(parse_reset_after("  \t 42 \r\n"), Some(42));
    assert_eq!(parse_reset_after("\u{3000}7\u{a0}"), Some(7));
    assert_eq!(parse_reset_after("\u{2028}+8\u{205f}\u{85}"), Some(8));
}

#[test]
fn rejects_what_is_no_number() {
    for text in [
        "", " ", "\n", "+", "-", "-5", "+-5", "++5", "12a", "a12", "1 2", "+ 5", "1.5", "1e3",
        "0x10", "1_000", "١٢٣", "١", "\u{180e}5", "\u{200b}5", "5\u{feff}",
    ] {
        assert_eq!(parse_reset_after(text), None, "{:?}", text);
    }
}

#[test]
fn parses_up_to_the_largest_number_and_not_beyond() {
    assert_eq!(parse_reset_after("18446744073709551615"), Some(u64::MAX));
    assert_eq!(parse_reset_after("018446744073709551615"), Some(u64::MAX));
    assert_eq!(parse_reset_after("18446744073709551616"), None);
    assert_eq!(parse_reset_after("18446744073709551620"), None);
    assert_eq!(parse_reset_after("99999999999999999999"), None);
    assert_eq!(parse_reset_after("100000000000000000000000000"), None);
}

#[test]
fn parsing_agrees_with_trim_and_parse() {
    let pieces = ["", " ", "\n", "+", "-", "0", "7", "12", "a", "\u{a0}", "184467440737095516"];
    for a in pieces {
        for b in pieces {
            for c in pieces {
                let text = format!("{}{}{}", a, b, c);
                assert_eq!(
                    parse_reset_after(&text),
                    text.trim().parse::<u64>().ok(),
                    "{:?}",
                    text
                );
            }
        }
    }
}

#[test]
fn white_space_is_what_the_standard_library_trims() {
    for code in 0..=0x10ffffu32 {
        if let Some(c) = char::from_u32(code) {
            assert_eq!(is_whitespace(c), c.is_whitespace(), "U+{:04X}", code);
        }
    }
}

#[test]
fn chars_are_kept_in_order() {
    assert_eq!(chars_of(""), Vec::<char>::new());
    assert_eq!(chars_of("aß水🦀"), vec!['a', 'ß', '水', '🦀']);
}

#[test]
fn writes_decimal_digits() {
    assert_eq!(decimal_text(0), "0");
    assert_eq!(decimal_text(9), "9");
    assert_eq!(decimal_text(10), "10");
    assert_eq!(decimal_text(1_700_000_000), "1700000000");
    assert_eq!(decimal_text(u64::MAX), "18446744073709551615");
    let mut n: u64 = 1;
    for _ in 0..64 {
        assert_eq!(decimal_text(n), n.to_string());
        assert_eq!(decimal_text(n - 1), (n - 1).to_string());
        n = n.wrapping_mul(2);
    }
}

#[test]
fn written_time_reads_back() {
    for now in [0u64, 1, 59, 1_700_000_000, u64::MAX - 1, u64::MAX] {
        assert_eq!(parse_reset_after(&current_time_text(now)), Some(now));
    }
    assert_eq!(current_time_text(1_700_000_123), "1700000123");
}

#[test]
fn threshold_is_the_smallest_above_the_time_left() {
    let expected = [
        (0u64, 60u64),
        (1, 60),
        (59, 60),
        (60, 120),
        (119, 120),
        (120, 180),
        (179, 180),
        (180, 240),
        (239, 240),
        (240, 300),
        (299, 300),
        (300, 600),
        (599, 600),
        (600, 900),
        (899, 900),
        (900, 1800),
        (1799, 1800),
        (1800, 3600),
        (3599, 3600),
        (3600, 7200),
        (7199, 7200),
    ];
    for (left, threshold) in expected {
        assert_eq!(threshold_for(left), threshold, "{}", left);
    }
}

#[test]
fn threshold_is_the_largest_where_none_is_above() {
    assert_eq!(threshold_for(7200), 7200);
    assert_eq!(threshold_for(7201), 7200);
    assert_eq!(threshold_for(u64::MAX), 7200);
}

#[test]
fn thresholds_have_their_labels() {
    let expected = [
        (60u64, "1 minute"),
        (120, "2 minutes"),
        (180, "3 minutes"),
        (240, "4 minutes"),
        (300, "5 minutes"),
        (600, "10 minutes"),
        (900, "15 minutes"),
        (1800, "30 minutes"),
        (3600, "1 hour"),
        (7200, "2 hours"),
    ];
    for (threshold, label) in expected {
        assert_eq!(label_for(threshold), label);
    }
}
