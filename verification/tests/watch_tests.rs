use monrs::watch::{count_lines, qps_from_lines, redis_key, QpsWatch, WatchAction};

#[test]
fn count_lines_counts_newlines_in_prefix() {
    let buf = b"a\nb\n\nc\nrest without end";
    assert_eq!(count_lines(buf, 0), 0);
    assert_eq!(count_lines(buf, 2), 1);
    assert_eq!(count_lines(buf, 7), 4);
    assert_eq!(count_lines(buf, buf.len()), 4);
    assert_eq!(count_lines(b"no newline", 10), 0);
}

#[test]
fn qps_halves_line_count_but_keeps_single_line() {
    assert_eq!(qps_from_lines(0), 0);
    assert_eq!(qps_from_lines(1), 1);
    assert_eq!(qps_from_lines(2), 1);
    assert_eq!(qps_from_lines(3), 1);
    assert_eq!(qps_from_lines(10), 5);
    assert_eq!(qps_from_lines(u32::MAX), u32::MAX / 2);
}

#[test]
fn watch_reports_rate_of_data() {
    let mut w = QpsWatch::new();
    assert_eq!(w.on_read(b"x\ny\nz\nw\n"), WatchAction::Report(2));
    assert_eq!(w.on_read(b"one line\n"), WatchAction::Report(1));
    assert_eq!(w.on_read(b"partial"), WatchAction::Report(0));
}

#[test]
fn watch_reopens_after_three_empty_reads() {
    let mut w = QpsWatch::new();
    assert_eq!(w.on_read(b""), WatchAction::Report(0));
    assert_eq!(w.on_read(b""), WatchAction::Report(0));
    assert_eq!(w.on_read(b""), WatchAction::ReportThenReopen(0));
    // The count starts afresh after the reopen.
    assert_eq!(w.on_read(b""), WatchAction::Report(0));
}

#[test]
fn watch_empty_reads_are_not_reset_by_data() {
    let mut w = QpsWatch::new();
    assert_eq!(w.on_read(b""), WatchAction::Report(0));
    assert_eq!(w.on_read(b"a\nb\n"), WatchAction::Report(1));
    assert_eq!(w.on_read(b""), WatchAction::Report(0));
    assert_eq!(w.on_read(b""), WatchAction::ReportThenReopen(0));
}

#[test]
fn watch_control_requests() {
    let mut w = QpsWatch::new();
    assert_eq!(w.on_read(b""), WatchAction::Report(0));
    assert_eq!(w.on_read(b""), WatchAction::Report(0));
    assert_eq!(w.on_control(false), WatchAction::Reopen);
    assert_eq!(w.on_read(b""), WatchAction::Report(0));
    assert_eq!(w.on_read(b""), WatchAction::Report(0));
    assert_eq!(w.on_control(true), WatchAction::Exit);
}

#[test]
fn redis_key_joins_with_colon() {
    assert_eq!(redis_key("10.0.0.1", "qps"), "10.0.0.1:qps");
    assert_eq!(redis_key("", ""), ":");
    assert_eq!(redis_key("host", "a:b"), "host:a:b");
}
