use chrono::{TimeZone, Utc};
use q_debug::{Formatter, LogError, LogLocation, Logger, Output, OutputSink, SinkError, Span, Timestamp};

fn testing_logger() -> Logger<String> {
    Logger::new(String::new())
}

fn at(h: u32, m: u32, s: u32) -> Timestamp {
    let t = Utc.with_ymd_and_hms(2020, 6, 22, h, m, s).unwrap();
    Timestamp { secs: t.timestamp(), nanos: 0 }
}

fn plus_millis(t: Timestamp, ms: i64) -> Timestamp {
    let total = t.instant_nanos() + (ms as i128) * 1_000_000;
    Timestamp {
        secs: total.div_euclid(1_000_000_000) as i64,
        nanos: total.rem_euclid(1_000_000_000) as u32,
    }
}

fn loc(file: &str, func: &str, lineno: u32) -> LogLocation {
    LogLocation::new(file, func, lineno)
}

/// The text one call appended to the logger's sink.
fn appended(logger: &mut Logger<String>, now: Timestamp, site: LogLocation, line: &str) -> String {
    let before = logger.sink().len();
    logger.log_line_at(now, site, line).unwrap();
    logger.sink()[before..].to_string()
}

#[test]
fn test_header_returns_some_if_not_logged_previously() {
    let logger = testing_logger();
    let now = at(20, 5, 32);
    let loc = loc("src/lib.rs", "crate::foo::bar", 42);

    // Sanity check
    assert_eq!(*logger.prev(), None);

    assert_eq!(
        logger.header(now, &loc),
        Some(String::from("[20:05:32 src/lib.rs crate::foo::bar:42]"))
    );
}

#[test]
fn test_header_returns_some_if_prev_function_differs() {
    let now = at(20, 5, 32);
    let prev_loc = loc("src/lib.rs", "crate::foo::bar", 42);
    let logger = {
        let mut logger = testing_logger();
        logger.log_line_at(now, prev_loc, ">").unwrap();
        logger
    };
    let loc = loc("src/lib.rs", "crate::foo::baz", 42);

    assert_eq!(
        logger.header(now, &loc),
        Some(String::from("[20:05:32 src/lib.rs crate::foo::baz:42]"))
    );
}

#[test]
fn test_header_returns_some_if_prev_module_differs() {
    let now = at(20, 5, 32);
    let prev_loc = loc("src/lib.rs", "crate::foo::bar", 42);
    let logger = {
        let mut logger = testing_logger();
        logger.log_line_at(now, prev_loc, ">").unwrap();
        logger
    };
    let loc = loc("src/lib.rs", "crate::baz::bat", 42);

    assert_eq!(
        logger.header(now, &loc),
        Some(String::from("[20:05:32 src/lib.rs crate::baz::bat:42]"))
    );
}

#[test]
fn test_header_returns_some_if_header_interval_elapsed() {
    let prev_time = at(20, 5, 32);
    let header_interval = Span::seconds(2);
    let loc = loc("src/lib.rs", "crate::foo::bar", 42);
    let logger = {
        let mut logger = testing_logger();
        logger.log_line_at(prev_time, loc.clone(), ">").unwrap();
        logger.set_header_interval(header_interval).unwrap();
        logger
    };

    // 3 seconds after `prev_time`
    let now = at(20, 5, 35);

    assert_eq!(
        logger.header(now, &loc),
        Some(String::from("[20:05:35 src/lib.rs crate::foo::bar:42]"))
    );
}

#[test]
fn test_header_returns_none_if_header_interval_not_elapsed_and_prev_module_and_function_same() {
    let prev_time = at(20, 5, 32);
    let header_interval = Span::seconds(2);
    let loc = loc("src/lib.rs", "crate::foo::bar", 42);
    let logger = {
        let mut logger = testing_logger();
        logger.log_line_at(prev_time, loc.clone(), ">").unwrap();
        logger.set_header_interval(header_interval).unwrap();
        logger
    };

    // 1 second after `prev_time`
    let now = at(20, 5, 33);

    assert_eq!(logger.header(now, &loc), None);
}

#[test]
fn new_logger_starts_empty_with_two_second_interval() {
    let logger = testing_logger();
    assert_eq!(*logger.prev(), None);
    assert_eq!(logger.header_interval(), Span::seconds(2));
    assert_eq!(logger.sink(), "");
}

#[test]
fn first_call_of_each_kind_has_header() {
    let site = loc("src/a.rs", "a::f", 3);

    let mut l1 = testing_logger();
    l1.q(site.clone()).unwrap();
    let mut l2 = testing_logger();
    l2.q_literal(&"x", site.clone()).unwrap();
    let mut l3 = testing_logger();
    l3.q_expr(&7, "y", site.clone()).unwrap();

    for (logger, body) in [(&l1, ">"), (&l2, "> \"x\""), (&l3, "> y = 7")] {
        let lines: Vec<&str> = logger.sink().lines().collect();
        assert_eq!(lines.len(), 2);
        assert!(lines[0].starts_with('['));
        assert!(lines[0].ends_with(" src/a.rs a::f:3]"));
        assert_eq!(lines[0].len(), "[HH:MM:SS src/a.rs a::f:3]".len());
        assert_eq!(lines[1], body);
        assert!(logger.sink().ends_with('\n'));
    }
}

#[test]
fn same_site_short_interval_suppresses_header() {
    let mut logger = testing_logger();
    let t1 = at(20, 5, 32);
    let first = appended(&mut logger, t1, loc("src/lib", "pkg::f", 10), "> 1");
    let second = appended(&mut logger, plus_millis(t1, 1999), loc("src/lib", "pkg::f", 11), "> 2");
    assert_eq!(first, "[20:05:32 src/lib pkg::f:10]\n> 1\n");
    assert_eq!(second, "> 2\n");
    assert_eq!(logger.sink(), "[20:05:32 src/lib pkg::f:10]\n> 1\n> 2\n");
}

#[test]
fn same_site_interval_elapsed_retriggers_header() {
    let mut logger = testing_logger();
    let t1 = at(20, 5, 32);
    let site = loc("src/lib", "pkg::f", 10);
    let first = appended(&mut logger, t1, site.clone(), ">");
    // exactly the interval later: still a header
    let second = appended(&mut logger, at(20, 5, 34), site.clone(), ">");
    assert_eq!(first, "[20:05:32 src/lib pkg::f:10]\n>\n");
    assert_eq!(second, "[20:05:34 src/lib pkg::f:10]\n>\n");
}

#[test]
fn site_change_retriggers_header_but_line_alone_does_not() {
    let mut logger = testing_logger();
    let t = at(8, 0, 0);
    appended(&mut logger, t, loc("src/lib", "pkg::f", 10), ">");
    let other_func = appended(&mut logger, t, loc("src/lib", "pkg::g", 10), ">");
    assert_eq!(other_func, "[08:00:00 src/lib pkg::g:10]\n>\n");
    let other_file = appended(&mut logger, t, loc("src/other", "pkg::g", 10), ">");
    assert_eq!(other_file, "[08:00:00 src/other pkg::g:10]\n>\n");
    let other_line = appended(&mut logger, t, loc("src/other", "pkg::g", 99), ">");
    assert_eq!(other_line, ">\n");
}

#[test]
fn earlier_clock_reading_does_not_bring_header() {
    let mut logger = testing_logger();
    let site = loc("f", "g", 1);
    appended(&mut logger, at(9, 0, 10), site.clone(), ">");
    assert_eq!(appended(&mut logger, at(9, 0, 0), site.clone(), ">"), ">\n");
}

#[test]
fn zero_interval_gives_header_every_time() {
    let mut logger = testing_logger();
    logger.set_header_interval(Span::seconds(0)).unwrap();
    let site = loc("f", "g", 1);
    let t = at(9, 0, 0);
    appended(&mut logger, t, site.clone(), ">");
    assert_eq!(appended(&mut logger, t, site.clone(), ">"), "[09:00:00 f g:1]\n>\n");
}

#[test]
fn setting_interval_twice_and_negative_interval() {
    let mut logger = testing_logger();
    assert_eq!(logger.set_header_interval(Span::milliseconds(500)), Ok(()));
    assert_eq!(logger.set_header_interval(Span::milliseconds(500)), Ok(()));
    assert_eq!(logger.header_interval(), Span::milliseconds(500));
    assert_eq!(
        logger.set_header_interval(Span::milliseconds(-1)),
        Err(LogError::NegativeInterval)
    );
    assert_eq!(logger.header_interval(), Span::milliseconds(500));

    let site = loc("f", "g", 1);
    let t = at(9, 0, 0);
    appended(&mut logger, t, site.clone(), ">");
    assert_eq!(appended(&mut logger, plus_millis(t, 499), site.clone(), ">"), ">\n");
    assert_eq!(appended(&mut logger, plus_millis(t, 999), site.clone(), ">"), "[09:00:00 f g:1]\n>\n");
}

#[test]
fn serialized_calls_write_one_entry_each() {
    let mut logger = testing_logger();
    let t = at(12, 0, 0);
    let calls = [
        (t, loc("a", "m::f", 1)),
        (plus_millis(t, 10), loc("a", "m::f", 2)),
        (plus_millis(t, 20), loc("a", "m::g", 3)),
        (plus_millis(t, 30), loc("b", "m::g", 4)),
        (plus_millis(t, 3000), loc("b", "m::g", 5)),
    ];
    for (i, (now, site)) in calls.iter().enumerate() {
        let line = format!("> {}", i);
        logger.log_line_at(*now, site.clone(), &line).unwrap();
    }
    let body_lines = logger.sink().lines().filter(|l| l.starts_with('>')).count();
    assert_eq!(body_lines, 5);
    assert_eq!(
        logger.sink(),
        "[12:00:00 a m::f:1]\n> 0\n> 1\n[12:00:00 a m::g:3]\n> 2\n[12:00:00 b m::g:4]\n> 3\n[12:00:03 b m::g:5]\n> 4\n"
    );
    assert_eq!(*logger.prev(), Some((plus_millis(t, 3000), loc("b", "m::g", 5))));
}

struct FlakySink {
    fail_next: bool,
    text: String,
}

impl Output for FlakySink {
    fn write_text(&mut self, text: &str) -> Result<(), SinkError> {
        if self.fail_next {
            self.fail_next = false;
            Err(SinkError)
        } else {
            self.text.push_str(text);
            Ok(())
        }
    }
}

#[test]
fn failed_write_is_reported_and_not_remembered() {
    let mut logger = Logger::new(OutputSink::new(FlakySink { fail_next: true, text: String::new() }));
    let site = loc("f", "g", 1);
    let t = at(9, 0, 0);
    assert_eq!(logger.log_line_at(t, site.clone(), ">"), Err(LogError::SinkWrite));
    assert_eq!(*logger.prev(), None);
    assert_eq!(logger.log_line_at(t, site.clone(), "> 2"), Ok(()));
    assert_eq!(logger.sink().get_ref().text, "[09:00:00 f g:1]\n> 2\n");
    assert_eq!(*logger.prev(), Some((t, site)));
}

#[test]
fn marker_call_reads_the_clock() {
    let mut logger = testing_logger();
    logger.q(loc("f", "g", 1)).unwrap();
    let (t, site) = logger.prev().clone().unwrap();
    assert!(t.secs > 1_600_000_000);
    assert!(t.nanos < 1_000_000_000);
    assert_eq!(site, loc("f", "g", 1));
    let header = logger.sink().lines().next().unwrap().to_string();
    assert_eq!(header, Formatter {}.header(&t, &site));
}

#[test]
fn entry_is_the_text_a_call_would_write() {
    let mut logger = testing_logger();
    let site = loc("f", "g", 1);
    let t = at(9, 0, 0);
    assert_eq!(logger.entry(t, &site, "> 1"), "[09:00:00 f g:1]\n> 1\n");
    logger.log_line_at(t, site.clone(), "> 1").unwrap();
    assert_eq!(logger.entry(t, &site, "> 2"), "> 2\n");
    assert_eq!(logger.sink(), "[09:00:00 f g:1]\n> 1\n");
}

#[test]
fn output_sink_hands_back_its_output() {
    let mut logger = Logger::new(OutputSink::new(FlakySink { fail_next: false, text: String::new() }));
    logger.log_line_at(at(1, 2, 3), loc("f", "g", 4), ">").unwrap();
    assert_eq!(logger.sink().get_ref().text, "[01:02:03 f g:4]\n>\n");

    let mut sink = OutputSink::new(FlakySink { fail_next: false, text: String::new() });
    q_debug::Sink::write_text(&mut sink, "abc").unwrap();
    assert_eq!(sink.into_inner().text, "abc");
}
