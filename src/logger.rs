//! The stateful logger: decides when a header is due, writes each log entry
//! to its sink as a unit, and remembers the last call.

use vstd::prelude::*;

use crate::clock::{now, Span, Timestamp};
use crate::fmt::{header_text, marker_text, literal_text, expr_text, Formatter};
use crate::location::LogLocation;
use crate::sink::Sink;

verus! {

/// Why a logger operation failed.
#[derive(Clone, Copy, Debug, PartialEq, Eq)]
pub enum LogError {
    /// The sink refused the write.
    SinkWrite,
    /// A negative header interval was offered.
    NegativeInterval,
}

/// The interval a new logger starts with: two seconds.
pub open spec fn default_interval() -> Span {
    Span { nanos: 2_000_000_000 }
}

/// Whether a call at `now` from `loc` gets a header, given the previous call
/// `prev` and the header interval: on the first call, when the file or the
/// function differs from the previous call's, or when at least `interval`
/// has passed since it. The line number plays no part.
pub open spec fn header_due(
    prev: Option<(Timestamp, LogLocation)>,
    interval: Span,
    now: Timestamp,
    loc: LogLocation,
) -> bool {
    match prev {
        None => true,
        Some((t, last)) => {
            ||| now.instant() - t.instant() >= interval.nanos
            ||| loc.file_path@ != last.file_path@
            ||| loc.func_path@ != last.func_path@
        },
    }
}

/// The text written for a call at `now` from `loc` whose body line is
/// `line`: the header line if one is due, then the body line, each ended by
/// a newline.
pub open spec fn entry_text(
    prev: Option<(Timestamp, LogLocation)>,
    interval: Span,
    now: Timestamp,
    loc: LogLocation,
    line: Seq<char>,
) -> Seq<char> {
    if header_due(prev, interval, now, loc) {
        header_text(now, loc) + seq!['\n'] + line + seq!['\n']
    } else {
        line + seq!['\n']
    }
}

/// Writes log lines to a sink of type `W`, with a header line whenever the
/// call site changes or the header interval has passed.
pub struct Logger<W> {
    formatter: Formatter,
    header_interval: Span,
    sink: W,
    prev: Option<(Timestamp, LogLocation)>,
}

impl<W> Logger<W> {
    /// The time and call site of the last successful call, if any.
    pub closed spec fn spec_prev(&self) -> Option<(Timestamp, LogLocation)> {
        self.prev
    }

    /// The header interval.
    pub closed spec fn spec_interval(&self) -> Span {
        self.header_interval
    }

    /// The sink.
    pub closed spec fn spec_sink(&self) -> W {
        self.sink
    }
}

impl<W: Sink> Logger<W> {
    /// What a successful call at `now` from `loc` with body line `line` did:
    /// it wrote the entry for that call and remembered the call.
    pub open spec fn logged(
        self,
        after: Self,
        now: Timestamp,
        loc: LogLocation,
        line: Seq<char>,
    ) -> bool {
        let entry = entry_text(self.spec_prev(), self.spec_interval(), now, loc, line);
        &&& after.spec_sink().text() == self.spec_sink().text() + entry
        &&& after.spec_prev() == Some((now, loc))
        &&& after.spec_interval() == self.spec_interval()
    }

    /// What a call at `now` from `loc` with body line `line` that returned
    /// `r` did: on success, see `logged`; on failure, the sink refused the
    /// write and the remembered call and interval are as before. Whether the
    /// write succeeds is the sink's decision; a sink that never fails makes
    /// the call succeed.
    pub open spec fn outcome(
        self,
        after: Self,
        now: Timestamp,
        loc: LogLocation,
        line: Seq<char>,
        r: Result<(), LogError>,
    ) -> bool {
        &&& self.spec_sink().infallible() ==> r is Ok
        &&& after.spec_sink().infallible() == self.spec_sink().infallible()
        &&& match r {
            Ok(()) => self.logged(after, now, loc, line),
            Err(e) => {
                &&& e == LogError::SinkWrite
                &&& after.spec_prev() == self.spec_prev()
                &&& after.spec_interval() == self.spec_interval()
            },
        }
    }

    /// What offering the header interval `d` did, returning `r`: a
    /// non-negative `d` replaces the interval and changes nothing else; a
    /// negative one is refused and changes nothing.
    pub open spec fn interval_set(self, after: Self, d: Span, r: Result<(), LogError>) -> bool {
        &&& r is Ok <==> d.nanos >= 0
        &&& match r {
            Ok(()) => {
                &&& after.spec_interval() == d
                &&& after.spec_prev() == self.spec_prev()
                &&& after.spec_sink() == self.spec_sink()
            },
            Err(e) => {
                &&& e == LogError::NegativeInterval
                &&& after == self
            },
        }
    }

    /// A logger that writes to `sink`, with no previous call and a two-second
    /// header interval.
    pub fn new(sink: W) -> (r: Logger<W>)
        ensures
            r.spec_prev() is None,
            r.spec_interval() == default_interval(),
            r.spec_sink() == sink,
    {
        Logger {
            formatter: Formatter {},
            header_interval: Span::seconds(2),
            sink,
            prev: None,
        }
    }

    /// The header interval.
    pub fn header_interval(&self) -> (r: Span)
        ensures
            r == self.spec_interval(),
    {
        self.header_interval
    }

    /// The time and call site of the last successful call, if any.
    pub fn prev(&self) -> (r: &Option<(Timestamp, LogLocation)>)
        ensures
            *r == self.spec_prev(),
    {
        &self.prev
    }

    /// The sink.
    pub fn sink(&self) -> (r: &W)
        ensures
            *r == self.spec_sink(),
    {
        &self.sink
    }

    /// Replaces the header interval; a negative one is refused and leaves the
    /// logger as it was.
    pub fn set_header_interval(&mut self, d: Span) -> (r: Result<(), LogError>)
        ensures
            old(self).interval_set(*final(self), d, r),
    {
        if d.is_nonnegative() {
            self.header_interval = d;
            Ok(())
        } else {
            Err(LogError::NegativeInterval)
        }
    }

    /// The header line for a call at `now` from `loc` if one is due (see
    /// `header_due`), else `None`.
    pub fn header(&self, now: Timestamp, loc: &LogLocation) -> (r: Option<String>)
        ensures
            r is Some <==> header_due(self.spec_prev(), self.spec_interval(), now, *loc),
            r is Some ==> r->0@ == header_text(now, *loc),
    {
        let due = match &self.prev {
            None => true,
            Some((t, last)) => {
                let elapsed = now.since(t);
                elapsed.nanos >= self.header_interval.nanos
                    || !(loc.file_path == last.file_path)
                    || !(loc.func_path == last.func_path)
            },
        };
        if due {
            Some(self.formatter.header(&now, loc))
        } else {
            None
        }
    }

    /// The text written for a call at `now` from `loc` with body line
    /// `log_line`: the header line if one is due, then the body line, each
    /// ended by a newline.
    pub fn entry(&self, now: Timestamp, loc: &LogLocation, log_line: &str) -> (r: String)
        ensures
            r@ == entry_text(self.spec_prev(), self.spec_interval(), now, *loc, log_line@),
    {
        let header = self.header(now, loc);
        let mut text = String::new();
        proof {
            reveal_strlit("\n");
        }
        match header {
            Some(h) => {
                text.append(h.as_str());
                text.append("\n");
            },
            None => {},
        }
        text.append(log_line);
        text.append("\n");
        assert(text@ =~= entry_text(self.prev, self.header_interval, now, *loc, log_line@));
        text
    }

    /// Writes the entry for a call at `now` from `loc` with body line
    /// `log_line` to the sink as one write, then remembers the call. When the
    /// sink refuses the write the call is not remembered.
    pub fn log_line_at(&mut self, now: Timestamp, loc: LogLocation, log_line: &str)
        -> (r: Result<(), LogError>)
        ensures
            old(self).outcome(*final(self), now, loc, log_line@, r),
    {
        let text = self.entry(now, &loc, log_line);
        match self.sink.write_text(text.as_str()) {
            Ok(()) => {
                self.prev = Some((now, loc));
                Ok(())
            },
            Err(_) => Err(LogError::SinkWrite),
        }
    }

    /// Writes `log_line` with the current time from `loc`.
    fn write_log_line(&mut self, loc: LogLocation, log_line: &str) -> (r: Result<(), LogError>)
        ensures
            exists|t: Timestamp| old(self).outcome(*final(self), t, loc, log_line@, r),
    {
        let t = now();
        self.log_line_at(t, loc, log_line)
    }

    /// Logs that execution reached `loc`: the body line is `>`.
    pub fn q(&mut self, loc: LogLocation) -> (r: Result<(), LogError>)
        ensures
            exists|t: Timestamp| old(self).outcome(*final(self), t, loc, marker_text(), r),
    {
        let log_line = self.formatter.q();
        self.write_log_line(loc, log_line.as_str())
    }

    /// Logs the literal value `val` at `loc`: the body line is `> ` and the
    /// value's debug rendering.
    pub fn q_literal<T: core::fmt::Debug>(&mut self, val: &T, loc: LogLocation)
        -> (r: Result<(), LogError>)
        ensures
            exists|t: Timestamp, repr: Seq<char>|
                old(self).outcome(*final(self), t, loc, literal_text(repr), r),
    {
        let log_line = self.formatter.q_literal(val);
        self.write_log_line(loc, log_line.as_str())
    }

    /// Logs the expression `expr` with value `val` at `loc`: the body line is
    /// `> expr = ` and the value's debug rendering.
    pub fn q_expr<T: core::fmt::Debug>(&mut self, val: &T, expr: &str, loc: LogLocation)
        -> (r: Result<(), LogError>)
        ensures
            exists|t: Timestamp, repr: Seq<char>|
                old(self).outcome(*final(self), t, loc, expr_text(expr@, repr), r),
    {
        let log_line = self.formatter.q_expr(val, expr);
        self.write_log_line(loc, log_line.as_str())
    }
}

} // verus!
