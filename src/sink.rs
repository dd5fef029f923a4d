//! Where a logger's lines go.

use vstd::prelude::*;

verus! {

/// A failed write to a sink.
#[derive(Clone, Copy, Debug, PartialEq, Eq)]
pub struct SinkError;

/// An append-only text destination that a logger writes to.
pub trait Sink {
    /// The text this sink has taken so far, in order.
    spec fn text(&self) -> Seq<char>;

    /// Whether every write to this sink succeeds.
    spec fn infallible(&self) -> bool;

    /// Appends `text` as a unit. On success the whole of `text` has been
    /// taken; on failure nothing is promised of what reached the sink.
    fn write_text(&mut self, text: &str) -> (r: Result<(), SinkError>)
        ensures
            r is Ok ==> final(self).text() == old(self).text() + text@,
            old(self).infallible() ==> r is Ok,
            final(self).infallible() == old(self).infallible(),
    ;
}

/// An in-memory sink: the text is appended to the string, and a write never
/// fails.
impl Sink for String {
    open spec fn text(&self) -> Seq<char> {
        self@
    }

    open spec fn infallible(&self) -> bool {
        true
    }

    fn write_text(&mut self, text: &str) -> (r: Result<(), SinkError>) {
        self.append(text);
        Ok(())
    }
}

/// A destination that callers provide (a file, a socket): it takes text or
/// fails, and nothing more is known of it.
pub trait Output {
    /// Appends `text`, or fails.
    fn write_text(&mut self, text: &str) -> Result<(), SinkError>;
}

/// A sink over an `Output`. Its text is what the output has accepted, write
/// by write; a write succeeds exactly when the output's write does.
pub struct OutputSink<O> {
    out: O,
    accepted: Ghost<Seq<char>>,
}

impl<O: Output> OutputSink<O> {
    /// A sink over `out`, which has accepted nothing yet.
    pub fn new(out: O) -> (r: OutputSink<O>)
        ensures
            r.text() == Seq::<char>::empty(),
            !r.infallible(),
    {
        OutputSink { out, accepted: Ghost(Seq::empty()) }
    }

    /// The output.
    pub fn get_ref(&self) -> &O {
        &self.out
    }

    /// The output, giving up the sink.
    pub fn into_inner(self) -> O {
        self.out
    }
}

impl<O: Output> Sink for OutputSink<O> {
    closed spec fn text(&self) -> Seq<char> {
        self.accepted@
    }

    open spec fn infallible(&self) -> bool {
        false
    }

    fn write_text(&mut self, text: &str) -> (r: Result<(), SinkError>) {
        let r = self.out.write_text(text);
        if r.is_ok() {
            self.accepted = Ghost(self.accepted@ + text@);
        }
        r
    }
}

} // verus!
