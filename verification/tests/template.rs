use chrono::{DateTime, Utc};
use logtra::msg::{Color, LogIntensity, LogMessage};
use logtra::time::Timestamp;

fn epoch() -> Timestamp {
    let zero = DateTime::<Utc>::default();
    Timestamp::new(zero.timestamp(), zero.timestamp_subsec_nanos()).unwrap()
}

fn sample<'a>() -> LogMessage<'a> {
    LogMessage {
        time: epoch(),
        thread: "ThreadId(2)",
        scope: "core",
        file: "x.rs",
        line: 12,
        msg: "hello",
        intensity: LogIntensity::Info,
        color: Color::Red,
    }
}

#[test]
fn log_message_parsing_works() {
    let msg = LogMessage {
        time: epoch(),
        thread: "ThreadId(2)",
        scope: "logtra",
        file: "lib.rs",
        line: 12,
        msg: "Hello world!",
        intensity: LogIntensity::Info,
        color: Color::Red,
    };

    let result = msg.parse("[%t][%c][%[%s%]][%f:%l]: %m");
    assert_eq!(
        "[1970-01-01T00:00:00+00:00][ThreadId(2)][\x1b[31mlogtra\x1b[0m][lib.rs:12]: Hello world!",
        &result
    );
}

#[test]
fn template_round_trip() {
    let msg = sample();
    let time = msg.time.to_rfc3339();
    let expected = format!(
        "[{}][{}][{}{}{}][{}]{}",
        time,
        "ThreadId(2)",
        Color::Red.ansi(),
        "core",
        Color::Default.ansi(),
        "x.rs:12",
        ": hello"
    );
    let result = msg.parse("[%t][%c][%[%s%]][%f:%l]: %m");
    assert_eq!(expected.as_bytes(), result.as_bytes());
}

#[test]
fn escaped_markers_give_the_markers() {
    assert_eq!(sample().parse("\\%\\%"), "%%");
    let other = LogMessage {
        time: Timestamp::new(1_700_000_000, 5).unwrap(),
        thread: "main",
        scope: "",
        file: "",
        line: 0,
        msg: "%m\\",
        intensity: LogIntensity::Fatal,
        color: Color::Grey,
    };
    assert_eq!(other.parse("\\%\\%"), "%%");
    assert_eq!(other.parse("\\\\\\m"), "\\m");
}

#[test]
fn every_directive_expands() {
    let msg = sample();
    assert_eq!(msg.parse("%t"), "1970-01-01T00:00:00+00:00");
    assert_eq!(msg.parse("%c"), "ThreadId(2)");
    assert_eq!(msg.parse("%i"), "Info ");
    assert_eq!(msg.parse("%m"), "hello");
    assert_eq!(msg.parse("%f"), "x.rs");
    assert_eq!(msg.parse("%l"), "12");
    assert_eq!(msg.parse("%s"), "core");
    assert_eq!(msg.parse("%["), "\x1b[31m");
    assert_eq!(msg.parse("%]"), "\x1b[0m");
}

#[test]
fn unknown_directives_are_dropped() {
    let msg = sample();
    assert_eq!(msg.parse("a%xb%%c%Td"), "abcd");
    assert_eq!(msg.parse("%\\n"), "n");
}

#[test]
fn marker_at_the_end_gives_nothing() {
    let msg = sample();
    assert_eq!(msg.parse("abc\\"), "abc");
    assert_eq!(msg.parse("abc%"), "abc");
    assert_eq!(msg.parse("%"), "");
    assert_eq!(msg.parse("\\"), "");
    assert_eq!(msg.parse(""), "");
}

#[test]
fn colour_span_need_not_be_closed() {
    let msg = sample();
    assert_eq!(msg.parse("%[%m"), "\x1b[31mhello");
    assert_eq!(msg.parse("%]%m%["), "\x1b[0mhello\x1b[31m");
}

#[test]
fn text_beyond_ascii_is_kept() {
    let msg = LogMessage {
        time: epoch(),
        thread: "t",
        scope: "größe",
        file: "ü.rs",
        line: 7,
        msg: "héllo ✓",
        intensity: LogIntensity::Warn,
        color: Color::Blue,
    };
    assert_eq!(msg.parse("→ %s|%f|%m \\✓"), "→ größe|ü.rs|héllo ✓ ✓");
}

#[test]
fn render_with_takes_the_given_time() {
    let msg = sample();
    assert_eq!(msg.render_with("%t %m %t", "now"), "now hello now");
    assert_eq!(msg.render_with("%l:%i", "now"), "12:Info ");
}

#[test]
fn line_numbers_are_decimal() {
    let mut msg = sample();
    msg.line = 0;
    assert_eq!(msg.parse("%l"), "0");
    msg.line = 9;
    assert_eq!(msg.parse("%l"), "9");
    msg.line = 10;
    assert_eq!(msg.parse("%l"), "10");
    msg.line = 1_000_000;
    assert_eq!(msg.parse("%l"), "1000000");
    msg.line = u32::MAX;
    assert_eq!(msg.parse("%l"), "4294967295");
}

#[test]
fn push_decimal_appends() {
    let mut out = String::from("n=");
    logtra::text::push_decimal(&mut out, 305);
    assert_eq!(out, "n=305");
}

#[test]
fn labels_have_five_characters() {
    let all = [
        (LogIntensity::Trace, "Trace"),
        (LogIntensity::Debug, "Debug"),
        (LogIntensity::Info, "Info "),
        (LogIntensity::Warn, "Warn "),
        (LogIntensity::Error, "Error"),
        (LogIntensity::Fatal, "Fatal"),
    ];
    for (severity, label) in all {
        assert_eq!(severity.to_string(), label);
        assert_eq!(severity.to_string().chars().count(), 5);
    }
}

#[test]
fn severities_are_ordered() {
    let all = [
        LogIntensity::Trace,
        LogIntensity::Debug,
        LogIntensity::Info,
        LogIntensity::Warn,
        LogIntensity::Error,
        LogIntensity::Fatal,
    ];
    let ranks: [i8; 6] = [-2, -1, 0, 1, 2, 3];
    for i in 0..6 {
        assert_eq!(all[i].rank(), ranks[i]);
        for j in 0..6 {
            assert_eq!(all[i] < all[j], i < j);
            assert_eq!(all[i] >= all[j], all[i].rank() >= all[j].rank());
            assert_eq!(all[i] == all[j], i == j);
        }
    }
}

#[test]
fn colours_have_their_codes() {
    assert_eq!(Color::Default.ansi(), "\x1b[0m");
    assert_eq!(Color::Grey.ansi(), "\x1b[90m");
    assert_eq!(Color::Blue.ansi(), "\x1b[34m");
    assert_eq!(Color::White.ansi(), "\x1b[97m");
    assert_eq!(Color::Orange.ansi(), "\x1b[33m");
    assert_eq!(Color::Red.ansi(), "\x1b[31m");
    assert_eq!(Color::DarkRed.ansi(), "\x1b[91m");
}

#[test]
fn severities_have_their_colours() {
    assert_eq!(LogIntensity::Trace.color(), Color::Grey);
    assert_eq!(LogIntensity::Debug.color(), Color::Blue);
    assert_eq!(LogIntensity::Info.color(), Color::Default);
    assert_eq!(LogIntensity::Warn.color(), Color::Orange);
    assert_eq!(LogIntensity::Error.color(), Color::Red);
    assert_eq!(LogIntensity::Fatal.color(), Color::DarkRed);
}

#[test]
fn timestamps_keep_their_parts() {
    let t = Timestamp::new(1_431_648_000, 123_000_000).unwrap();
    assert_eq!(t.secs(), 1_431_648_000);
    assert_eq!(t.nanos(), 123_000_000);
    assert_eq!(t.to_rfc3339(), "2015-05-15T00:00:00.123+00:00");
    let before = Timestamp::new(-1, 999_999_999).unwrap();
    assert_eq!(before.to_rfc3339(), "1969-12-31T23:59:59.999999999+00:00");
}

#[test]
fn timestamps_outside_the_calendar_are_refused() {
    assert!(Timestamp::new(i64::MAX, 0).is_none());
    assert!(Timestamp::new(i64::MIN, 0).is_none());
    assert!(Timestamp::new(0, 2_000_000_000).is_none());
    assert_eq!(
        Timestamp::new(i64::MAX, 0).is_some(),
        DateTime::<Utc>::from_timestamp(i64::MAX, 0).is_some()
    );
}

#[test]
fn messages_compare_by_their_fields() {
    let a = sample();
    let mut b = sample();
    assert_eq!(a, b);
    b.line = 13;
    assert_ne!(a, b);
}
