use gqrx_scanner::bookmarks::ci_contains_bytes;
use gqrx_scanner::config::DateFormat;
use gqrx_scanner::numbers::{format_u64, parse_u64};
use gqrx_scanner::protocol::{
    format_get_frequency, format_get_level, format_set_frequency, format_set_squelch, parse_level,
    parse_rprt, trim_line_ending,
};
use gqrx_scanner::timefmt::format_timestamp;
use gqrx_scanner::udp::UdpActivityMonitor;

#[test]
fn commands_render_as_protocol_lines() {
    assert_eq!(format_set_frequency(145_500_000), b"F 145500000\n".to_vec());
    assert_eq!(format_set_frequency(0), b"F 0\n".to_vec());
    assert_eq!(format_get_level(), b"l\n".to_vec());
    assert_eq!(format_get_frequency(), b"f\n".to_vec());
    assert_eq!(format_set_squelch(-650), b"L -6.50\n".to_vec());
    assert_eq!(format_set_squelch(0), b"L 0.00\n".to_vec());
    assert_eq!(format_set_squelch(12345), b"L 123.45\n".to_vec());
    assert_eq!(format_set_squelch(-7), b"L -0.07\n".to_vec());
}

#[test]
fn decimal_numerals_round_trip() {
    assert_eq!(format_u64(0), b"0".to_vec());
    assert_eq!(format_u64(10_000), b"10000".to_vec());
    assert_eq!(format_u64(u64::MAX), b"18446744073709551615".to_vec());
    assert_eq!(parse_u64(&b"145500000".to_vec()), Some(145_500_000));
    assert_eq!(parse_u64(&b"18446744073709551615".to_vec()), Some(u64::MAX));
    assert_eq!(parse_u64(&b"18446744073709551616".to_vec()), None);
    assert_eq!(parse_u64(&b"".to_vec()), None);
    assert_eq!(parse_u64(&b"12a3".to_vec()), None);
    assert_eq!(parse_u64(&format_u64(9_876_543_210)), Some(9_876_543_210));
}

#[test]
fn level_replies_parse_to_hundredths_of_a_decibel() {
    assert_eq!(parse_level(&b"-73.4".to_vec()), Some(-7340));
    assert_eq!(parse_level(&b"-73.45".to_vec()), Some(-7345));
    // digits past the second fraction place are read but do not count
    assert_eq!(parse_level(&b"-73.456".to_vec()), Some(-7345));
    assert_eq!(parse_level(&b"0.0".to_vec()), Some(0));
    assert_eq!(parse_level(&b"12".to_vec()), Some(1200));
    assert_eq!(parse_level(&b"-5".to_vec()), Some(-500));
    assert_eq!(parse_level(&b"".to_vec()), None);
    assert_eq!(parse_level(&b"-".to_vec()), None);
    assert_eq!(parse_level(&b"3.".to_vec()), None);
    assert_eq!(parse_level(&b".5".to_vec()), None);
    assert_eq!(parse_level(&b"1.2.3".to_vec()), None);
    assert_eq!(parse_level(&b"abc".to_vec()), None);
}

#[test]
fn acknowledgement_lines_parse_to_their_code() {
    assert_eq!(parse_rprt(&b"RPRT 0".to_vec()), Some(0));
    assert_eq!(parse_rprt(&b"RPRT 1".to_vec()), Some(1));
    assert_eq!(parse_rprt(&b"RPRT -1".to_vec()), Some(-1));
    assert_eq!(parse_rprt(&b"RPRT ".to_vec()), None);
    assert_eq!(parse_rprt(&b"RPRT x".to_vec()), None);
    assert_eq!(parse_rprt(&b"-73.4".to_vec()), None);
    assert_eq!(parse_rprt(&b"".to_vec()), None);
}

#[test]
fn line_endings_are_trimmed_once() {
    assert_eq!(trim_line_ending(&b"RPRT 0\n".to_vec()), b"RPRT 0".to_vec());
    assert_eq!(trim_line_ending(&b"-73.4\r\n".to_vec()), b"-73.4".to_vec());
    assert_eq!(trim_line_ending(&b"-73.4".to_vec()), b"-73.4".to_vec());
    assert_eq!(trim_line_ending(&b"\n".to_vec()), b"".to_vec());
    // a carriage return alone is not a line ending
    assert_eq!(trim_line_ending(&b"x\r".to_vec()), b"x\r".to_vec());
}

#[test]
fn timestamps_follow_the_chosen_layout() {
    assert_eq!(
        format_timestamp(DateFormat::MonthDayYear, 2026, 10, 9, 12, 5, 7),
        b"10-09-26 12:05:07".to_vec()
    );
    assert_eq!(
        format_timestamp(DateFormat::DayMonthYear, 2026, 10, 9, 12, 5, 7),
        b"09-10-26 12:05:07".to_vec()
    );
    assert_eq!(
        format_timestamp(DateFormat::MonthDayYear, 1999, 1, 31, 0, 0, 0),
        b"01-31-99 00:00:00".to_vec()
    );
}

#[test]
fn case_insensitive_substring_matching() {
    assert!(ci_contains_bytes(&b"FIRE Dispatch".to_vec(), &b"fire".to_vec()));
    assert!(ci_contains_bytes(&b"city fire tac".to_vec(), &b"FIRE".to_vec()));
    assert!(ci_contains_bytes(&b"Police".to_vec(), &b"lic".to_vec()));
    assert!(!ci_contains_bytes(&b"Police".to_vec(), &b"fire".to_vec()));
    // the empty needle occurs everywhere
    assert!(ci_contains_bytes(&b"".to_vec(), &b"".to_vec()));
    assert!(!ci_contains_bytes(&b"ab".to_vec(), &b"abc".to_vec()));
}

#[test]
fn datagram_monitor_reports_activity_inside_the_window() {
    let mut m = UdpActivityMonitor::new();
    assert!(!m.is_active(1_000, 500));
    m.record(1_000);
    assert!(m.is_active(1_000, 500));
    assert!(m.is_active(1_500, 500));
    assert!(!m.is_active(1_501, 500));
    // a record from the future does not count yet
    assert!(!m.is_active(999, 500));
}
