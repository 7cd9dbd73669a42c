//! Per-connection session state around the driver: line assembly for the
//! command channel, and the report-mode flags that drive periodic reporting.
//!
//! Command parsing itself happens outside this crate; the session only
//! assembles raw bytes into lines and tracks whether and how reports are
//! owed.

use vstd::prelude::*;

verus! {

/// Longest command line kept; further bytes of an overlong line are ignored.
pub const MAX_LINE_LEN: usize = 64;

/// Accumulates bytes into lines, ended by carriage return or newline.
pub struct LineReader {
    /// The bytes of the line being assembled, oldest first.
    pub buf: Vec<u8>,
}

/// A completed input line (without its line ending).
pub struct LineResult {
    pub line: Vec<u8>,
}

impl LineReader {
    pub open spec fn wf(&self) -> bool {
        self.buf@.len() <= MAX_LINE_LEN
    }

    /// An empty reader.
    pub fn new() -> (r: Self)
        ensures
            r.wf(),
            r.buf@ == Seq::<u8>::empty(),
    {
        LineReader { buf: Vec::new() }
    }

    /// Feed one byte. A line ending (13 or 10) completes a non-empty line
    /// and empties the buffer; other bytes are buffered while room is left
    /// and silently dropped once the line is overlong.
    pub fn feed(&mut self, c: u8) -> (r: Option<LineResult>)
        requires
            old(self).wf(),
        ensures
            final(self).wf(),
            c == 13 || c == 10 ==> final(self).buf@ == Seq::<u8>::empty() && (if old(self).buf@.len() > 0 {
                r matches Some(line) && line.line@ == old(self).buf@
            } else {
                r is None
            }),
            !(c == 13 || c == 10) && old(self).buf@.len() < MAX_LINE_LEN ==> r is None && final(self).buf@ == old(self).buf@.push(c),
            !(c == 13 || c == 10) && old(self).buf@.len() >= MAX_LINE_LEN ==> r is None && final(self).buf@ == old(self).buf@,
    {
        if c == 13 || c == 10 {
            if self.buf.len() > 0 {
                // hand the assembled bytes out and start afresh
                let mut full: Vec<u8> = Vec::new();
                core::mem::swap(&mut full, &mut self.buf);
                Some(LineResult { line: full })
            } else {
                None
            }
        } else if self.buf.len() < MAX_LINE_LEN {
            self.buf.push(c);
            None
        } else {
            None
        }
    }
}

/// Whether and how often the session owes its peer a report.
#[derive(Clone, Copy, Debug, PartialEq, Eq, Structural)]
pub enum ReportMode {
    Off,
    Once,
    Continuous,
}

/// One control connection's state: the line reader, the report mode, and
/// whether a report is pending.
pub struct Session {
    pub reader: LineReader,
    pub report_mode: ReportMode,
    pub report_pending: bool,
}

impl Session {
    pub open spec fn wf(&self) -> bool {
        self.reader.wf()
    }

    /// A fresh session: empty line buffer, reporting off, nothing pending.
    pub fn new() -> (r: Self)
        ensures
            r.wf(),
            r.reader.buf@ == Seq::<u8>::empty(),
            r.report_mode == ReportMode::Off,
            !r.report_pending,
    {
        Session { reader: LineReader::new(), report_mode: ReportMode::Off, report_pending: false }
    }

    /// Whether the session has consumed input it has not finished with: a
    /// partly assembled line is buffered.
    pub fn is_dirty(&self) -> (r: bool)
        ensures
            r == (self.reader.buf@.len() > 0),
    {
        self.reader.buf.len() > 0
    }

    pub fn report_mode(&self) -> (r: ReportMode)
        ensures
            r == self.report_mode,
    {
        self.report_mode
    }

    /// Switch the report mode; the session's command loop calls this when a
    /// report command arrives.
    pub fn set_report_mode(&mut self, mode: ReportMode)
        ensures
            *final(self) == (Session {
                report_mode: mode,
                reader: old(self).reader,
                report_pending: old(self).report_pending,
            }),
    {
        self.report_mode = mode;
    }

    /// Note that fresh data is available to report.
    pub fn set_report_pending(&mut self)
        ensures
            *final(self) == (Session {
                report_pending: true,
                reader: old(self).reader,
                report_mode: old(self).report_mode,
            }),
    {
        self.report_pending = true;
    }

    /// Whether a report is owed now: never with reporting off, else whenever
    /// one is pending.
    pub fn is_report_pending(&self) -> (r: bool)
        ensures
            r == (!(self.report_mode is Off) && self.report_pending),
    {
        match self.report_mode {
            ReportMode::Off => false,
            _ => self.report_pending,
        }
    }

    /// Note that the pending report went out; a one-shot mode switches back
    /// off.
    pub fn mark_report_sent(&mut self)
        ensures
            !final(self).report_pending,
            final(self).reader == old(self).reader,
            final(self).report_mode == (if old(self).report_mode is Once {
                ReportMode::Off
            } else {
                old(self).report_mode
            }),
    {
        self.report_pending = false;
        match self.report_mode {
            ReportMode::Once => self.report_mode = ReportMode::Off,
            _ => {},
        }
    }
}

} // verus!
