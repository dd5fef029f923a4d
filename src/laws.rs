//! Properties of the logger that span several calls.

use vstd::prelude::*;

use crate::clock::{Span, Timestamp};
use crate::fmt::header_text;
use crate::location::LogLocation;
use crate::logger::{entry_text, header_due, LogError, Logger};
use crate::sink::Sink;

verus! {

/// The text that a run of successful calls writes, one entry per call in
/// order, starting from the previous call `prev`. Each call is its time,
/// call site and body line.
pub open spec fn run_text(
    prev: Option<(Timestamp, LogLocation)>,
    interval: Span,
    calls: Seq<(Timestamp, LogLocation, Seq<char>)>,
) -> Seq<char>
    decreases calls.len(),
{
    if calls.len() == 0 {
        Seq::empty()
    } else {
        let c = calls[0];
        entry_text(prev, interval, c.0, c.1, c.2) + run_text(
            Some((c.0, c.1)),
            interval,
            calls.drop_first(),
        )
    }
}

/// The first call on a new logger writes a header line before its body
/// line, whatever the call.
pub proof fn first_call_has_header<W: Sink>(
    fresh: Logger<W>,
    after: Logger<W>,
    now: Timestamp,
    loc: LogLocation,
    line: Seq<char>,
)
    requires
        fresh.spec_prev() is None,
        fresh.logged(after, now, loc, line),
    ensures
        after.spec_sink().text() == fresh.spec_sink().text() + header_text(now, loc)
            + seq!['\n'] + line + seq!['\n'],
{
}

/// Two calls from the same file and function on a new logger, the second
/// less than the header interval after the first: the first writes a header,
/// the second only its body line.
pub proof fn same_site_within_interval<W: Sink>(
    l0: Logger<W>,
    l1: Logger<W>,
    l2: Logger<W>,
    t1: Timestamp,
    a: LogLocation,
    line1: Seq<char>,
    t2: Timestamp,
    b: LogLocation,
    line2: Seq<char>,
)
    requires
        l0.spec_prev() is None,
        l0.logged(l1, t1, a, line1),
        l1.logged(l2, t2, b, line2),
        a.file_path@ == b.file_path@,
        a.func_path@ == b.func_path@,
        t2.instant() - t1.instant() < l0.spec_interval().nanos,
    ensures
        l1.spec_sink().text() == l0.spec_sink().text() + header_text(t1, a) + seq!['\n']
            + line1 + seq!['\n'],
        l2.spec_sink().text() == l1.spec_sink().text() + line2 + seq!['\n'],
{
}

/// Two calls from the same file and function on a new logger, the second at
/// least the header interval after the first: both write a header.
pub proof fn same_site_after_interval<W: Sink>(
    l0: Logger<W>,
    l1: Logger<W>,
    l2: Logger<W>,
    t1: Timestamp,
    a: LogLocation,
    line1: Seq<char>,
    t2: Timestamp,
    b: LogLocation,
    line2: Seq<char>,
)
    requires
        l0.spec_prev() is None,
        l0.logged(l1, t1, a, line1),
        l1.logged(l2, t2, b, line2),
        a.file_path@ == b.file_path@,
        a.func_path@ == b.func_path@,
        t2.instant() - t1.instant() >= l0.spec_interval().nanos,
    ensures
        l1.spec_sink().text() == l0.spec_sink().text() + header_text(t1, a) + seq!['\n']
            + line1 + seq!['\n'],
        l2.spec_sink().text() == l1.spec_sink().text() + header_text(t2, b) + seq!['\n']
            + line2 + seq!['\n'],
{
}

/// Within the header interval after a call from `a`, a call from `b` gets a
/// header exactly when its file or its function differs from `a`'s; a
/// different line number alone does not bring one.
pub proof fn site_change_within_interval<W: Sink>(
    l0: Logger<W>,
    l1: Logger<W>,
    t1: Timestamp,
    a: LogLocation,
    line1: Seq<char>,
    t2: Timestamp,
    b: LogLocation,
)
    requires
        l0.logged(l1, t1, a, line1),
        t2.instant() - t1.instant() < l0.spec_interval().nanos,
    ensures
        header_due(l1.spec_prev(), l1.spec_interval(), t2, b) <==> (a.file_path@ != b.file_path@
            || a.func_path@ != b.func_path@),
{
}

/// Offering the same header interval twice has the effect of offering it
/// once; a negative interval is refused and leaves the logger as it was.
pub proof fn set_interval_twice<W: Sink>(
    l0: Logger<W>,
    l1: Logger<W>,
    l2: Logger<W>,
    d: Span,
    r1: Result<(), LogError>,
    r2: Result<(), LogError>,
)
    requires
        l0.interval_set(l1, d, r1),
        l1.interval_set(l2, d, r2),
    ensures
        r1 is Ok <==> r2 is Ok,
        l2.spec_interval() == l1.spec_interval(),
        l2.spec_prev() == l1.spec_prev(),
        l2.spec_sink() == l1.spec_sink(),
        d.nanos < 0 ==> r1 is Err && l2 == l0,
        d.nanos >= 0 ==> l2.spec_interval() == d,
{
}

/// A run of successful calls on one logger, taken one at a time, writes one
/// entry per call, in order, each with the header decision made against the
/// call before it; afterwards the logger remembers the last call.
pub proof fn serialized_calls<W: Sink>(
    states: Seq<Logger<W>>,
    calls: Seq<(Timestamp, LogLocation, Seq<char>)>,
)
    requires
        calls.len() > 0,
        states.len() == calls.len() + 1,
        forall|i: int|
            0 <= i < calls.len() ==> #[trigger] states[i].logged(
                states[i + 1],
                calls[i].0,
                calls[i].1,
                calls[i].2,
            ),
    ensures
        states.last().spec_sink().text() == states[0].spec_sink().text() + run_text(
            states[0].spec_prev(),
            states[0].spec_interval(),
            calls,
        ),
        states.last().spec_prev() == Some((calls.last().0, calls.last().1)),
        states.last().spec_interval() == states[0].spec_interval(),
    decreases calls.len(),
{
    let c = calls[0];
    assert(states[0].logged(states[1], c.0, c.1, c.2));
    if calls.len() == 1 {
        assert(calls.drop_first().len() == 0);
        assert(run_text(Some((c.0, c.1)), states[0].spec_interval(), calls.drop_first())
            == Seq::<char>::empty());
        assert(run_text(states[0].spec_prev(), states[0].spec_interval(), calls) =~= entry_text(
            states[0].spec_prev(),
            states[0].spec_interval(),
            c.0,
            c.1,
            c.2,
        ));
    } else {
        let rest_states = states.drop_first();
        let rest_calls = calls.drop_first();
        assert forall|i: int| 0 <= i < rest_calls.len() implies #[trigger] rest_states[i].logged(
            rest_states[i + 1],
            rest_calls[i].0,
            rest_calls[i].1,
            rest_calls[i].2,
        ) by {
            let j = i + 1;
            assert(states[j].logged(states[j + 1], calls[j].0, calls[j].1, calls[j].2));
            assert(rest_states[i] == states[j]);
            assert(rest_states[i + 1] == states[j + 1]);
            assert(rest_calls[i] == calls[j]);
        }
        serialized_calls(rest_states, rest_calls);
        assert(rest_states.last() == states.last());
        assert(rest_calls.last() == calls.last());
        assert(states.last().spec_sink().text() =~= states[0].spec_sink().text() + run_text(
            states[0].spec_prev(),
            states[0].spec_interval(),
            calls,
        ));
    }
}

} // verus!
