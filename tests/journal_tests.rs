use journal::entry::{JournalEntry, JournalError};
use journal::journal::{
    get_journal_path, join_words, journal_path_from_home, journal_path_in, new_entry_line, parse_args, parse_count,
    show_last, show_last_of_lines, Command,
};
use journal::timestamp::Timestamp;

fn ts(year: u32, month: u32, day: u32, hour: u32, minute: u32, second: u32, nanosecond: u32) -> Timestamp {
    Timestamp { year, month, day, hour, minute, second, nanosecond }
}

fn strings(words: &[&str]) -> Vec<String> {
    words.iter().map(|w| w.to_string()).collect()
}

fn stored(t: Timestamp, text: &str) -> String {
    JournalEntry::new(t, text.to_string()).to_json_line().unwrap()
}

fn is_display_shape(s: &str) -> bool {
    let cs: Vec<char> = s.chars().collect();
    cs.len() == 19
        && cs.iter().enumerate().all(|(i, c)| match i {
            4 | 7 => *c == '-',
            10 => *c == ' ',
            13 | 16 => *c == ':',
            _ => c.is_ascii_digit(),
        })
}

#[test]
fn append_then_read_hello() {
    let line = new_entry_line("hello").unwrap();
    let shown = show_last_of_lines(&vec![line], 1).unwrap();
    assert_eq!(shown.len(), 1);
    assert!(shown[0].ends_with("- hello"));
    assert!(is_display_shape(&shown[0][..19]));
    assert_eq!(&shown[0][19..], " - hello");
}

#[test]
fn order_is_kept() {
    let lines = vec![
        stored(ts(2024, 1, 1, 8, 0, 0, 0), "a"),
        stored(ts(2024, 1, 1, 9, 0, 0, 0), "b"),
        stored(ts(2024, 1, 1, 10, 0, 0, 0), "c"),
    ];
    let shown = show_last_of_lines(&lines, 3).unwrap();
    assert_eq!(
        shown,
        vec![
            "2024-01-01 08:00:00 - a".to_string(),
            "2024-01-01 09:00:00 - b".to_string(),
            "2024-01-01 10:00:00 - c".to_string(),
        ]
    );
}

#[test]
fn last_two_of_three() {
    let lines = vec![
        stored(ts(2024, 1, 1, 8, 0, 0, 0), "a"),
        stored(ts(2024, 1, 1, 9, 0, 0, 0), "b"),
        stored(ts(2024, 1, 1, 10, 0, 0, 0), "c"),
    ];
    let shown = show_last_of_lines(&lines, 2).unwrap();
    assert_eq!(
        shown,
        vec!["2024-01-01 09:00:00 - b".to_string(), "2024-01-01 10:00:00 - c".to_string()]
    );
}

#[test]
fn count_beyond_an_empty_journal() {
    let shown = show_last_of_lines(&Vec::new(), 10).unwrap();
    assert!(shown.is_empty());
}

#[test]
fn count_beyond_two_entries() {
    let lines = vec![
        stored(ts(2023, 12, 31, 23, 59, 59, 0), "first"),
        stored(ts(2024, 2, 29, 0, 0, 1, 0), "second"),
    ];
    let shown = show_last_of_lines(&lines, 10).unwrap();
    assert_eq!(
        shown,
        vec![
            "2023-12-31 23:59:59 - first".to_string(),
            "2024-02-29 00:00:01 - second".to_string(),
        ]
    );
}

#[test]
fn zero_entries_asked() {
    let lines = vec![stored(ts(2024, 1, 1, 8, 0, 0, 0), "a")];
    let shown = show_last_of_lines(&lines, 0).unwrap();
    assert!(shown.is_empty());
}

#[test]
fn show_last_on_entries() {
    let entries = vec![
        JournalEntry::new(ts(2024, 5, 6, 7, 8, 9, 10), "x".to_string()),
        JournalEntry::new(ts(2024, 5, 6, 7, 8, 10, 0), "y z".to_string()),
    ];
    assert_eq!(show_last(&entries, 1), vec!["2024-05-06 07:08:10 - y z".to_string()]);
}

#[test]
fn text_survives_a_round_trip() {
    let texts = [
        "",
        "hello",
        "with spaces and punctuation: !?.,;'\"",
        "back\\slash / slash",
        "tab\tnew\nline\rcarriage",
        "bell\u{7} nul\u{0} unit\u{1f} del\u{7f}",
        "non-ASCII: é ü 日本語 🚀",
    ];
    for text in texts {
        let t = ts(2024, 3, 4, 5, 6, 7, 891_000_000);
        let line = stored(t, text);
        let e = JournalEntry::from_json_line(&line).unwrap();
        assert_eq!(e.entry, text);
        assert_eq!(e.timestamp, t);
    }
}

#[test]
fn text_is_stored_as_json() {
    let texts = [
        "plain",
        "quote \" and backslash \\",
        "controls \u{0}\u{1}\u{8}\u{9}\u{a}\u{c}\u{d}\u{1b}\u{1f}",
        "del \u{7f} and é 🚀 /",
    ];
    for text in texts {
        let line = stored(ts(2024, 1, 2, 3, 4, 5, 0), text);
        let json = serde_json::to_string(text).unwrap();
        assert_eq!(line, format!("{{\"timestamp\":\"2024-01-02T03:04:05Z\",\"entry\":{}}}", json));
    }
}

#[test]
fn escaped_quote() {
    let line = stored(ts(2024, 1, 2, 3, 4, 5, 0), "say \"hi\"\n");
    assert!(line.ends_with(",\"entry\":\"say \\\"hi\\\"\\n\"}"));
}

#[test]
fn stored_line_format() {
    let line = stored(ts(2024, 1, 2, 3, 4, 5, 0), "hi");
    assert_eq!(line, "{\"timestamp\":\"2024-01-02T03:04:05Z\",\"entry\":\"hi\"}");
}

#[test]
fn stored_fractions() {
    assert_eq!(ts(2024, 1, 2, 3, 4, 5, 5_000_000).to_rfc3339(), "2024-01-02T03:04:05.005Z");
    assert_eq!(ts(2024, 1, 2, 3, 4, 5, 123_456_000).to_rfc3339(), "2024-01-02T03:04:05.123456Z");
    assert_eq!(ts(2024, 1, 2, 3, 4, 5, 123_456_789).to_rfc3339(), "2024-01-02T03:04:05.123456789Z");
    assert_eq!(ts(7, 1, 2, 3, 4, 5, 1).to_rfc3339(), "0007-01-02T03:04:05.000000001Z");
}

#[test]
fn reads_a_line_written_elsewhere() {
    let line = "{\"timestamp\":\"2024-01-02T03:04:05.123456789Z\",\"entry\":\"caf\\u00e9 \\/ \\\"x\\\"\"}";
    let e = JournalEntry::from_json_line(line).unwrap();
    assert_eq!(e.timestamp, ts(2024, 1, 2, 3, 4, 5, 123_456_789));
    assert_eq!(e.entry, "café / \"x\"");
}

#[test]
fn timestamp_parse() {
    assert_eq!(Timestamp::from_rfc3339("2024-01-02T03:04:05.250Z"), Some(ts(2024, 1, 2, 3, 4, 5, 250_000_000)));
    assert_eq!(Timestamp::from_rfc3339("2024-01-02T03:04:05.25Z"), Some(ts(2024, 1, 2, 3, 4, 5, 250_000_000)));
    assert_eq!(Timestamp::from_rfc3339("2024-01-02T03:04:05+00:00"), Some(ts(2024, 1, 2, 3, 4, 5, 0)));
    assert_eq!(Timestamp::from_rfc3339("2024-01-02T05:34:05+02:30"), Some(ts(2024, 1, 2, 3, 4, 5, 0)));
    assert_eq!(Timestamp::from_rfc3339("2024-01-02 03:04:05Z"), Some(ts(2024, 1, 2, 3, 4, 5, 0)));
    assert_eq!(Timestamp::from_rfc3339("2024-13-02T03:04:05Z"), None);
    assert_eq!(Timestamp::from_rfc3339("2024-02-30T03:04:05Z"), None);
    assert_eq!(Timestamp::from_rfc3339("yesterday"), None);
}

#[test]
fn stored_timestamps_read_back() {
    for t in [
        ts(2024, 1, 2, 3, 4, 5, 0),
        ts(2024, 2, 29, 23, 59, 59, 5_000_000),
        ts(1999, 12, 31, 0, 0, 0, 123_456_000),
        ts(2024, 7, 1, 12, 30, 0, 123_456_789),
    ] {
        assert_eq!(Timestamp::from_rfc3339(&t.to_rfc3339()), Some(t));
    }
}

#[test]
fn reads_other_json_layouts() {
    let lines = [
        "{\"entry\":\"x\",\"timestamp\":\"2024-01-02T03:04:05Z\"}",
        "{\"timestamp\": \"2024-01-02T03:04:05Z\", \"entry\": \"x\"}",
        " { \"timestamp\" : \"2024-01-02T03:04:05.000Z\" , \"entry\" : \"x\" } ",
        "{\"timestamp\":\"2024-01-02T04:04:05+01:00\",\"entry\":\"\\u0078\"}",
    ];
    for line in lines {
        let e = JournalEntry::from_json_line(line).unwrap();
        assert_eq!(e.timestamp, ts(2024, 1, 2, 3, 4, 5, 0));
        assert_eq!(e.entry, "x");
    }
    let e = JournalEntry::from_json_line("{\"timestamp\":\"2024-01-02T03:04:05Z\",\"entry\":\"\\ud83d\\ude80\"}").unwrap();
    assert_eq!(e.entry, "🚀");
}

#[test]
fn timestamp_display() {
    assert_eq!(ts(2024, 1, 2, 3, 4, 5, 999_999_999).display(), "2024-01-02 03:04:05");
    assert_eq!(ts(1999, 12, 31, 23, 59, 60, 0).display(), "1999-12-31 23:59:60");
}

#[test]
fn timestamp_from_fields() {
    assert_eq!(Timestamp::from_fields(2024, 6, 30, 23, 59, 59, 1_500_000_000), Some(ts(2024, 6, 30, 23, 59, 60, 500_000_000)));
    assert_eq!(Timestamp::from_fields(2024, 6, 30, 23, 59, 59, 7), Some(ts(2024, 6, 30, 23, 59, 59, 7)));
    assert_eq!(Timestamp::from_fields(10000, 1, 1, 0, 0, 0, 0), None);
    assert_eq!(Timestamp::from_fields(-1, 1, 1, 0, 0, 0, 0), None);
    assert_eq!(Timestamp::from_fields(2024, 13, 1, 0, 0, 0, 0), None);
    assert_eq!(Timestamp::from_fields(2024, 2, 29, 0, 0, 0, 0), Some(ts(2024, 2, 29, 0, 0, 0, 0)));
    assert_eq!(Timestamp::from_fields(2023, 2, 29, 0, 0, 0, 0), None);
    assert_eq!(Timestamp::from_fields(2000, 2, 29, 0, 0, 0, 0), Some(ts(2000, 2, 29, 0, 0, 0, 0)));
    assert_eq!(Timestamp::from_fields(1900, 2, 29, 0, 0, 0, 0), None);
    assert_eq!(Timestamp::from_fields(2024, 4, 31, 0, 0, 0, 0), None);
}

#[test]
fn now_is_a_recent_time() {
    let t = Timestamp::now().unwrap();
    assert!(t.year >= 2024);
    assert!(1 <= t.month && t.month <= 12);
    let e = JournalEntry::new_now("note").unwrap();
    assert_eq!(e.entry, "note");
    assert!(e.timestamp.year >= 2024);
}

#[test]
fn malformed_lines_are_rejected() {
    let bad = [
        "",
        "not json",
        "{\"timestamp\":\"2024-01-02T03:04:05Z\",\"entry\":\"unterminated}",
        "{\"timestamp\":\"2024-01-02T03:04:05Z\",\"entry\":\"bare \" quote\"}",
        "{\"timestamp\":\"yesterday\",\"entry\":\"x\"}",
        "{\"timestamp\":\"2024-02-30T03:04:05Z\",\"entry\":\"x\"}",
        "{\"timestamp\":\"2024-01-02T03:04:05Z\"}",
        "{\"timestamp\":\"2024-01-02T03:04:05Z\",\"entry\":5}",
        "{\"timestamp\":\"2024-01-02T03:04:05Z\",\"entry\":\"bad \\q escape\"}",
    ];
    for line in bad {
        assert_eq!(JournalEntry::from_json_line(line).unwrap_err(), JournalError::DeserializationError);
    }
}

#[test]
fn one_bad_line_rejects_the_read() {
    let lines = vec![stored(ts(2024, 1, 1, 8, 0, 0, 0), "a"), "garbage".to_string()];
    assert_eq!(show_last_of_lines(&lines, 1), Err(JournalError::DeserializationError));
}

#[test]
fn multi_word_entry() {
    let args = strings(&["journal", "buy", "milk", "today"]);
    assert_eq!(parse_args(&args), Ok(Command::Append("buy milk today".to_string())));
}

#[test]
fn single_word_entry() {
    let args = strings(&["journal", "hello"]);
    assert_eq!(parse_args(&args), Ok(Command::Append("hello".to_string())));
    assert_eq!(join_words(&strings(&["a", "", "b"]), 0), "a  b");
}

#[test]
fn count_flag() {
    assert_eq!(parse_args(&strings(&["journal", "-n", "5"])), Ok(Command::ShowLast(5)));
    assert_eq!(parse_args(&strings(&["journal", "-n", "+12", "extra"])), Ok(Command::ShowLast(12)));
    assert_eq!(parse_args(&strings(&["journal", "-n", "0"])), Ok(Command::ShowLast(0)));
}

#[test]
fn invalid_arguments() {
    assert_eq!(parse_args(&strings(&["journal"])), Err(JournalError::InvalidArguments));
    assert_eq!(parse_args(&strings(&[])), Err(JournalError::InvalidArguments));
    assert_eq!(parse_args(&strings(&["journal", "-n"])), Err(JournalError::InvalidArguments));
    assert_eq!(parse_args(&strings(&["journal", "-n", "ten"])), Err(JournalError::InvalidArguments));
    assert_eq!(parse_args(&strings(&["journal", "-n", "-3"])), Err(JournalError::InvalidArguments));
}

#[test]
fn count_parsing_agrees_with_std() {
    let cases = ["0", "7", "+7", "007", "", "+", "-1", "1a", " 1", "18446744073709551615", "18446744073709551616", "99999999999999999999"];
    for c in cases {
        assert_eq!(parse_count(c), c.parse::<usize>().ok(), "{}", c);
    }
}

#[test]
fn path_in_home() {
    assert_eq!(journal_path_in("/home/ana"), "/home/ana/journal.json");
    assert_eq!(journal_path_in(""), "/journal.json");
}

#[test]
fn path_from_home() {
    assert_eq!(journal_path_from_home(Some("/home/ana".to_string())), Ok("/home/ana/journal.json".to_string()));
    assert_eq!(journal_path_from_home(None), Err(JournalError::HomeDirectoryUnavailable));
}

#[test]
fn path_of_current_user() {
    let p = get_journal_path().unwrap();
    assert!(p.ends_with("/journal.json"));
    assert!(p.len() > "/journal.json".len());
}
