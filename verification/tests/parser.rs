use videoconverter::progress::{parse_progress_line, ProgressUpdate};

#[test]
fn end_marker_ends_the_stream() {
    assert_eq!(parse_progress_line("progress=end"), ProgressUpdate::End);
}

#[test]
fn position_line_parses_microseconds() {
    assert_eq!(
        parse_progress_line("out_time_us=5000000"),
        ProgressUpdate::Position(5_000_000)
    );
}

#[test]
fn position_line_zero() {
    assert_eq!(parse_progress_line("out_time_us=0"), ProgressUpdate::Position(0));
}

#[test]
fn position_line_with_leading_plus() {
    assert_eq!(parse_progress_line("out_time_us=+123"), ProgressUpdate::Position(123));
}

#[test]
fn position_line_at_u64_max() {
    assert_eq!(
        parse_progress_line("out_time_us=18446744073709551615"),
        ProgressUpdate::Position(u64::MAX)
    );
}

#[test]
fn position_line_overflowing_is_ignored() {
    assert_eq!(
        parse_progress_line("out_time_us=18446744073709551616"),
        ProgressUpdate::Ignore
    );
}

#[test]
fn unparseable_position_value_is_ignored_not_fatal() {
    assert_eq!(parse_progress_line("out_time_us=abc"), ProgressUpdate::Ignore);
    assert_eq!(parse_progress_line("out_time_us="), ProgressUpdate::Ignore);
    assert_eq!(parse_progress_line("out_time_us=+"), ProgressUpdate::Ignore);
    assert_eq!(parse_progress_line("out_time_us=-5"), ProgressUpdate::Ignore);
    assert_eq!(parse_progress_line("out_time_us=12 34"), ProgressUpdate::Ignore);
}

#[test]
fn unrecognized_lines_are_ignored() {
    assert_eq!(parse_progress_line(""), ProgressUpdate::Ignore);
    assert_eq!(parse_progress_line("frame=100"), ProgressUpdate::Ignore);
    assert_eq!(parse_progress_line("progress=continue"), ProgressUpdate::Ignore);
    assert_eq!(parse_progress_line("progress=end "), ProgressUpdate::Ignore);
    assert_eq!(parse_progress_line("speed=1.5x"), ProgressUpdate::Ignore);
    assert_eq!(parse_progress_line("out_time_ms=5000"), ProgressUpdate::Ignore);
    assert_eq!(parse_progress_line("OUT_TIME_US=5"), ProgressUpdate::Ignore);
    assert_eq!(parse_progress_line("garbage \u{1F600} line"), ProgressUpdate::Ignore);
}
