use nqrustbackup_installer::clock::{
    current_clock, format_compact, format_hms, local_now, now_compact, reading_or_epoch, LocalClock,
};
use nqrustbackup_installer::log::{console_line, tag_of, LogEntry, LogRing};
use nqrustbackup_installer::model::LogLevel;
use nqrustbackup_installer::text::{
    chars_of, dec_string, lines_of, parse_uint, split_chars, string_of, tokens_of, trim_chars,
};

fn clock(year: i32, h: u32, m: u32, s: u32, ns: u32) -> LocalClock {
    LocalClock { year, month: 3, day: 7, hour: h, minute: m, second: s, nanosecond: ns }
}

fn texts(v: &[Vec<char>]) -> Vec<String> {
    v.iter().map(|l| l.iter().collect()).collect()
}

#[test]
fn lines_like_std() {
    for s in ["", "a", "a\n", "a\n\nb", "a\r\nb\r\n", "x\r", "\n\n", "one\ntwo\r\nthree"] {
        let ours = texts(&lines_of(s));
        let std: Vec<String> = s.lines().map(|l| l.to_string()).collect();
        assert_eq!(ours, std, "lines of {s:?}");
    }
}

#[test]
fn split_and_tokens_like_std() {
    for s in ["|a|b||c|", "", "abc", "||"] {
        let cs: Vec<char> = s.chars().collect();
        let ours = texts(&split_chars(&cs, '|'));
        let std: Vec<String> = s.split('|').map(|x| x.to_string()).collect();
        assert_eq!(ours, std);
    }
    for s in ["  a b\t c  ", "", "   ", "x", "Uid:\t0\t1\u{a0}2"] {
        let cs: Vec<char> = s.chars().collect();
        let ours = texts(&tokens_of(&cs));
        let std: Vec<String> = s.split_whitespace().map(|x| x.to_string()).collect();
        assert_eq!(ours, std);
    }
}

#[test]
fn trim_like_std() {
    for s in ["  hi  ", "\u{3000}x\u{2003}", "", "   ", "a b"] {
        let cs: Vec<char> = s.chars().collect();
        let t: String = trim_chars(&cs).into_iter().collect();
        assert_eq!(t, s.trim());
    }
}

#[test]
fn integer_parsing_like_std() {
    for s in ["0", "42", "+7", "", "+", "-1", "4294967295", "4294967296", "12a", " 1"] {
        let cs: Vec<char> = s.chars().collect();
        assert_eq!(parse_uint(&cs, u32::MAX as u64), s.parse::<u32>().ok().map(|v| v as u64), "{s:?}");
    }
    let cs = chars_of("18446744073709551615");
    assert_eq!(parse_uint(&cs, u64::MAX), Some(u64::MAX));
    let cs = chars_of("18446744073709551616");
    assert_eq!(parse_uint(&cs, u64::MAX), None);
}

#[test]
fn decimal_printing() {
    assert_eq!(dec_string(0), "0");
    assert_eq!(dec_string(9100), "9100");
    assert_eq!(dec_string(u64::MAX), u64::MAX.to_string());
    assert_eq!(string_of(&['a', 'b']), "ab");
}

#[test]
fn clock_formats() {
    assert_eq!(format_hms(&clock(2024, 9, 5, 7, 0)), "09:05:07");
    assert_eq!(format_hms(&clock(2024, 23, 59, 59, 1_500_000_000)), "23:59:60");
    assert_eq!(format_compact(&clock(2024, 14, 3, 9, 0)), "20240307-140309");
    assert_eq!(format_compact(&clock(987, 0, 0, 0, 0)), "09870307-000000");
    assert_eq!(format_compact(&clock(-44, 0, 0, 0, 0)), "-00440307-000000");
    assert_eq!(format_compact(&clock(12345, 0, 0, 0, 0)), "+123450307-000000");
}

#[test]
fn log_keeps_newest() {
    let mut log = LogRing::new(2);
    assert_eq!(log.len(), 0);
    log.push_at(clock(2024, 1, 0, 0, 0), LogLevel::Info, "one".to_string());
    log.push_at(clock(2024, 2, 0, 0, 0), LogLevel::Warn, "two".to_string());
    log.push_at(clock(2024, 3, 0, 0, 0), LogLevel::Error, "three".to_string());
    let snap = log.snapshot();
    assert_eq!(snap.len(), 2);
    assert_eq!(snap[0].message, "two");
    assert_eq!(snap[1].message, "three");
    assert_eq!(snap[1].level, LogLevel::Error);
    log.push(LogLevel::Success, "four".to_string());
    let snap = log.snapshot();
    assert_eq!(snap.len(), 2);
    assert_eq!(snap[1].message, "four");
}

#[test]
fn log_with_zero_capacity_stays_empty() {
    let mut log = LogRing::new(0);
    log.push(LogLevel::Info, "dropped".to_string());
    assert_eq!(log.len(), 0);
}

#[test]
fn console_lines() {
    assert_eq!(tag_of(LogLevel::Success), "OK  ");
    assert_eq!(tag_of(LogLevel::Error), "ERR ");
    let e = LogEntry { time: clock(2024, 8, 30, 1, 0), level: LogLevel::Warn, message: "careful".to_string() };
    assert_eq!(console_line(&e), "08:30:01  WARN  careful");
}

#[test]
fn clock_readings() {
    let c = current_clock();
    assert!((1..=12).contains(&c.month) && (1..=31).contains(&c.day));
    assert!(c.hour < 24 && c.minute < 60 && c.second < 60);
    assert!(c.year >= 2000);
    let now = local_now().expect("the test machine's clock reads after 1970");
    assert!(now.year >= 2000);
    let epoch = reading_or_epoch(None);
    assert_eq!(epoch, LocalClock { year: 1970, month: 1, day: 1, hour: 0, minute: 0, second: 0, nanosecond: 0 });
    assert_eq!(format_compact(&epoch), "19700101-000000");
    let some = clock(2024, 1, 2, 3, 0);
    assert_eq!(reading_or_epoch(Some(some)), some);
    let stamp = now_compact();
    assert_eq!(stamp.len(), 15);
    assert_eq!(&stamp[8..9], "-");
}

#[test]
fn clock_formats_out_of_range_fields() {
    assert_eq!(format_hms(&clock(2024, 123, 5, 7, 0)), "123:05:07");
    let e = LogEntry { time: clock(2024, 99, 100, 4, 0), level: LogLevel::Info, message: "x".to_string() };
    assert_eq!(console_line(&e), "99:100:04  INFO  x");
}
