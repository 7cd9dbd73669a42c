use tecpak::session::LineReader;
use tecpak::session::ReportMode;
use tecpak::session::Session;
use tecpak::session::MAX_LINE_LEN;

#[test]
fn assembles_a_line() {
    let mut reader = LineReader::new();
    for &b in b"report" {
        assert!(reader.feed(b).is_none());
    }
    let line = reader.feed(b'\n').expect("line ends at newline");
    assert_eq!(line.line, b"report".to_vec());
    // the reader starts afresh
    assert!(reader.feed(b'\r').is_none());
}

#[test]
fn carriage_return_also_ends_a_line() {
    let mut reader = LineReader::new();
    assert!(reader.feed(b'q').is_none());
    let line = reader.feed(13).expect("line ends at carriage return");
    assert_eq!(line.line, vec![b'q']);
}

#[test]
fn empty_line_yields_nothing() {
    let mut reader = LineReader::new();
    assert!(reader.feed(b'\n').is_none());
    assert!(reader.feed(13).is_none());
    assert!(reader.feed(10).is_none());
}

#[test]
fn overlong_input_is_truncated() {
    let mut reader = LineReader::new();
    for i in 0..(MAX_LINE_LEN + 10) {
        assert!(reader.feed(b'a' + (i % 26) as u8).is_none());
    }
    let line = reader.feed(b'\n').expect("line still completes");
    assert_eq!(line.line.len(), MAX_LINE_LEN);
    let expected: Vec<u8> = (0..MAX_LINE_LEN).map(|i| b'a' + (i % 26) as u8).collect();
    assert_eq!(line.line, expected);
}

#[test]
fn fresh_session_reports_nothing() {
    let session = Session::new();
    assert!(!session.is_dirty());
    assert!(matches!(session.report_mode(), ReportMode::Off));
    assert!(!session.is_report_pending());
}

#[test]
fn pending_reports_respect_the_mode() {
    let mut session = Session::new();
    session.set_report_pending();
    // reporting off swallows the pending flag
    assert!(!session.is_report_pending());
    session.set_report_mode(ReportMode::Continuous);
    assert!(session.is_report_pending());
}

#[test]
fn one_shot_reporting_switches_off_after_a_report() {
    let mut session = Session::new();
    session.set_report_mode(ReportMode::Once);
    session.set_report_pending();
    assert!(session.is_report_pending());
    session.mark_report_sent();
    assert!(matches!(session.report_mode(), ReportMode::Off));
    assert!(!session.is_report_pending());
}

#[test]
fn continuous_reporting_stays_on() {
    let mut session = Session::new();
    session.set_report_mode(ReportMode::Continuous);
    session.set_report_pending();
    session.mark_report_sent();
    assert!(matches!(session.report_mode(), ReportMode::Continuous));
    assert!(!session.is_report_pending());
    session.set_report_pending();
    assert!(session.is_report_pending());
}

#[test]
fn dirty_after_partial_line() {
    let mut session = Session::new();
    assert!(session.reader.feed(b'p').is_none());
    assert!(session.is_dirty());
    let _ = session.reader.feed(b'\n');
    assert!(!session.is_dirty());
}
