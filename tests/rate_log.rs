use rate_log::span::push_decimal;
use rate_log::tracker::notice_line;
use rate_log::{format_duration, Decision, Limit, RateLog, Span};

const MS: u64 = 1_000_000;

fn record(output: &mut String, line: Option<String>) {
    if let Some(line) = line {
        output.push_str(&line);
    }
}

#[test]
fn test_rate_log_exceed_time() {
    let mut rate_log = RateLog::new(Limit::Rate(3));
    let mut output = String::new();

    record(&mut output, rate_log.log("message1", 0));
    assert_eq!(output, "message1");
    output.clear();

    record(&mut output, rate_log.log("message1", 0));
    assert_eq!(output, "");

    record(&mut output, rate_log.log("message1", 0));
    assert_eq!(output, "");

    record(&mut output, rate_log.log("message1", 0));
    assert_eq!(
        output,
        "Message: \"message1\" repeat for 3 times in the past 0ms"
    );
    output.clear();

    record(&mut output, rate_log.log("message1", 0));
    assert_eq!(output, "");

    record(&mut output, rate_log.log("message1", 0));
    assert_eq!(output, "");

    record(&mut output, rate_log.log("message1", 0));
    assert_eq!(
        output,
        "Message: \"message1\" repeat for 3 times in the past 0ms"
    );
    output.clear();
}

#[test]
fn test_rate_log_exceed_duration() {
    let mut rate_log = RateLog::new(Limit::Duration(Span::from_millis(50)));
    let mut output = String::new();

    record(&mut output, rate_log.log("message2", 0));
    assert_eq!(output, "message2");
    output.clear();

    record(&mut output, rate_log.log("message2", 20 * MS));
    assert_eq!(output, "");

    record(&mut output, rate_log.log("message2", 60 * MS));
    assert_eq!(
        output,
        "Message: \"message2\" repeat for 2 times in the past 60ms"
    );
    output.clear();

    record(&mut output, rate_log.log("message2", 60 * MS));
    assert_eq!(output, "");

    record(&mut output, rate_log.log("message2", 110 * MS));
    assert_eq!(
        output,
        "Message: \"message2\" repeat for 2 times in the past 50ms"
    );
    output.clear();
}

#[test]
fn first_message_is_emitted() {
    let mut r = RateLog::new(Limit::Rate(1));
    assert_eq!(r.observe("hello", 7), Decision::Emit("hello".to_string()));
}

#[test]
fn first_empty_message_is_emitted() {
    let mut r = RateLog::new(Limit::Rate(5));
    assert_eq!(r.observe("", 0), Decision::Emit(String::new()));
    assert_eq!(r.observe("", 0), Decision::Silent);
}

#[test]
fn different_message_resets_counters() {
    let mut r = RateLog::new(Limit::Rate(2));
    assert_eq!(r.observe("a", 0), Decision::Emit("a".to_string()));
    assert_eq!(r.observe("a", 0), Decision::Silent);
    assert_eq!(r.observe("b", 0), Decision::Emit("b".to_string()));
    assert_eq!(r.observe("b", 0), Decision::Silent);
    assert_eq!(
        r.observe("b", 0),
        Decision::Notice { message: "b".to_string(), count: 2, duration: Span::from_nanos(0) }
    );
    assert_eq!(r.observe("a", 0), Decision::Emit("a".to_string()));
}

#[test]
fn count_limit_triggers_on_nth_repeat() {
    let mut r = RateLog::new(Limit::Rate(5));
    assert_eq!(r.observe("m", 0), Decision::Emit("m".to_string()));
    for k in 1..5u64 {
        assert_eq!(r.observe("m", k * MS), Decision::Silent);
    }
    assert_eq!(
        r.observe("m", 5 * MS),
        Decision::Notice { message: "m".to_string(), count: 5, duration: Span::from_millis(5) }
    );
}

#[test]
fn count_limit_of_one_triggers_every_repeat() {
    let mut r = RateLog::new(Limit::Rate(1));
    assert_eq!(r.observe("m", 0), Decision::Emit("m".to_string()));
    for _ in 0..3 {
        assert_eq!(
            r.observe("m", 0),
            Decision::Notice { message: "m".to_string(), count: 1, duration: Span::zero() }
        );
    }
}

#[test]
fn count_limit_of_zero_triggers_every_repeat() {
    let mut r = RateLog::new(Limit::Rate(0));
    assert_eq!(r.observe("z", 0), Decision::Emit("z".to_string()));
    assert_eq!(
        r.observe("z", 0),
        Decision::Notice { message: "z".to_string(), count: 1, duration: Span::zero() }
    );
}

#[test]
fn duration_limit_triggers_when_reached_exactly() {
    let mut r = RateLog::new(Limit::Duration(Span::from_millis(30)));
    assert_eq!(r.observe("d", 100 * MS), Decision::Emit("d".to_string()));
    assert_eq!(r.observe("d", 110 * MS), Decision::Silent);
    assert_eq!(r.observe("d", 129 * MS), Decision::Silent);
    assert_eq!(
        r.observe("d", 130 * MS),
        Decision::Notice { message: "d".to_string(), count: 3, duration: Span::from_millis(30) }
    );
}

#[test]
fn backward_clock_counts_no_time() {
    let mut r = RateLog::new(Limit::Duration(Span::from_millis(10)));
    assert_eq!(r.observe("t", 50 * MS), Decision::Emit("t".to_string()));
    assert_eq!(r.observe("t", 40 * MS), Decision::Silent);
    assert_eq!(r.observe("t", 45 * MS), Decision::Silent);
    assert_eq!(
        r.observe("t", 50 * MS),
        Decision::Notice { message: "t".to_string(), count: 3, duration: Span::from_millis(10) }
    );
}

#[test]
fn notice_cycle_repeats_without_emit() {
    let mut r = RateLog::new(Limit::Rate(2));
    assert_eq!(r.observe("c", 0), Decision::Emit("c".to_string()));
    for round in 0..3u64 {
        assert_eq!(r.observe("c", round), Decision::Silent);
        assert!(matches!(r.observe("c", round), Decision::Notice { count: 2, .. }));
    }
}

#[test]
fn duration_after_notice_starts_from_next_repeat() {
    let mut r = RateLog::new(Limit::Duration(Span::from_millis(50)));
    assert_eq!(r.observe("y", 0), Decision::Emit("y".to_string()));
    assert!(matches!(r.observe("y", 60 * MS), Decision::Notice { count: 1, .. }));
    assert_eq!(r.observe("y", 100 * MS), Decision::Silent);
    assert_eq!(
        r.observe("y", 150 * MS),
        Decision::Notice { message: "y".to_string(), count: 2, duration: Span::from_millis(50) }
    );
}

#[test]
fn scenario_count_three() {
    let mut r = RateLog::new(Limit::Rate(3));
    assert_eq!(r.observe("x", 0), Decision::Emit("x".to_string()));
    assert_eq!(r.observe("x", 0), Decision::Silent);
    assert_eq!(r.observe("x", 0), Decision::Silent);
    assert!(matches!(r.observe("x", 0), Decision::Notice { count: 3, .. }));
    assert_eq!(r.observe("x", 0), Decision::Silent);
}

#[test]
fn scenario_duration_fifty_ms() {
    let mut r = RateLog::new(Limit::Duration(Span::from_millis(50)));
    assert_eq!(r.observe("y", 0), Decision::Emit("y".to_string()));
    assert_eq!(r.observe("y", 20 * MS), Decision::Silent);
    assert_eq!(
        r.observe("y", 60 * MS),
        Decision::Notice { message: "y".to_string(), count: 2, duration: Span::from_millis(60) }
    );
}

#[test]
fn format_duration_unit_boundaries() {
    assert_eq!(format_duration(Span::from_millis(999)), "999ms");
    assert_eq!(format_duration(Span::from_millis(1000)), "1s");
    assert_eq!(format_duration(Span::from_millis(59999)), "59s");
    assert_eq!(format_duration(Span::from_millis(60000)), "1m");
    assert_eq!(format_duration(Span::from_millis(3599999)), "59m");
    assert_eq!(format_duration(Span::from_millis(3600000)), "1h");
}

#[test]
fn format_duration_small_and_large() {
    assert_eq!(format_duration(Span::zero()), "0ms");
    assert_eq!(format_duration(Span::from_nanos(999_999)), "0ms");
    assert_eq!(format_duration(Span::from_secs(7 * 3600 + 59 * 60)), "7h");
    assert_eq!(format_duration(Span::from_secs(100 * 3600)), "100h");
}

#[test]
fn decimal_digits() {
    let mut s = String::from("n=");
    push_decimal(&mut s, 1_234_567_890);
    assert_eq!(s, "n=1234567890");
    let mut z = String::new();
    push_decimal(&mut z, 0);
    assert_eq!(z, "0");
}

#[test]
fn notice_line_text() {
    assert_eq!(
        notice_line("disk full", 42, Span::from_secs(125)),
        "Message: \"disk full\" repeat for 42 times in the past 2m"
    );
}

#[test]
fn render_decisions() {
    assert_eq!(Decision::Emit("hi".to_string()).render(), Some("hi".to_string()));
    assert_eq!(Decision::Silent.render(), None);
    assert_eq!(
        Decision::Notice { message: "hi".to_string(), count: 10, duration: Span::from_millis(1500) }.render(),
        Some("Message: \"hi\" repeat for 10 times in the past 1s".to_string())
    );
}

#[test]
fn span_conversions() {
    let s = Span::from_millis(2500);
    assert_eq!(s.nanos, 2_500_000_000);
    assert_eq!(s.as_millis(), 2500);
    assert_eq!(s.as_secs(), 2);
    assert_eq!(Span::from_secs(3).nanos, 3_000_000_000);
}

#[test]
fn limit_is_kept() {
    let r = RateLog::new(Limit::Duration(Span::from_secs(2)));
    assert_eq!(r.limit(), Limit::Duration(Span::from_secs(2)));
}
