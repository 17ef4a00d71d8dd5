//! Properties of the tracker that hold across calls.
use vstd::prelude::*;

use crate::span::Span;
use crate::tracker::{initial, step, DecisionView, Limit, RateLogView};

verus! {

/// The state reached from `s` by observing `m` at each of `times`, in order.
pub open spec fn repeat_run(s: RateLogView, m: Seq<char>, times: Seq<u64>) -> RateLogView
    decreases times.len(),
{
    if times.len() == 0 {
        s
    } else {
        step(repeat_run(s, m, times.drop_last()), m, times.last()).0
    }
}

/// The decision taken for the observation of `m` at `times[k]`, when `m` is
/// observed at each of `times` in order starting from `s`.
pub open spec fn repeat_outcome(s: RateLogView, m: Seq<char>, times: Seq<u64>, k: int) -> DecisionView {
    step(repeat_run(s, m, times.take(k)), m, times[k]).1
}

/// Whether `times` never goes backwards and never precedes `t0`.
pub open spec fn monotone_from(t0: u64, times: Seq<u64>) -> bool {
    &&& forall|i: int| 0 <= i < times.len() ==> t0 <= #[trigger] times[i]
    &&& forall|i: int, j: int| 0 <= i <= j < times.len() ==> times[i] <= times[j]
}

/// The first message a fresh tracker sees is emitted verbatim and becomes the
/// tracked message, with zero counters.
pub proof fn first_message_emits(limit: Limit, m: Seq<char>, now: u64)
    ensures
        step(initial(limit), m, now).1 == (DecisionView::Emit { message: m }),
        step(initial(limit), m, now).0.identity == Some(m),
        step(initial(limit), m, now).0.count == 0,
        step(initial(limit), m, now).0.duration == 0,
{
}

/// Switching to a different message emits it and starts its counters from
/// zero, whatever had been counted for the previous one.
pub proof fn new_message_resets(s: RateLogView, m1: Seq<char>, m2: Seq<char>, now: u64)
    requires
        s.identity == Some(m1),
        m1 != m2,
    ensures
        step(s, m2, now).1 == (DecisionView::Emit { message: m2 }),
        step(s, m2, now).0.identity == Some(m2),
        step(s, m2, now).0.count == 0,
        step(s, m2, now).0.duration == 0,
        step(s, m2, now).0.last_seen == Some(now),
        step(s, m2, now).0.limit == s.limit,
{
}

proof fn count_prefix(s: RateLogView, m: Seq<char>, n: u32, times: Seq<u64>, k: int)
    requires
        s.limit == Limit::Rate(n),
        s.identity == Some(m),
        s.count == 0,
        0 <= k < n,
        k <= times.len(),
    ensures
        repeat_run(s, m, times.take(k)).identity == Some(m),
        repeat_run(s, m, times.take(k)).count == k,
        repeat_run(s, m, times.take(k)).limit == s.limit,
    decreases k,
{
    if k > 0 {
        count_prefix(s, m, n, times, k - 1);
        assert(times.take(k).drop_last() =~= times.take(k - 1));
    } else {
        assert(times.take(0) =~= Seq::<u64>::empty());
    }
}

/// Under a count limit `n`, starting from fresh counters on message `m`, the
/// first `n - 1` repeats of `m` are silent and the `n`-th gives a notice
/// carrying the count `n`.
pub proof fn count_threshold(s: RateLogView, m: Seq<char>, n: u32, times: Seq<u64>)
    requires
        s.limit == Limit::Rate(n),
        n >= 1,
        s.identity == Some(m),
        s.count == 0,
        times.len() == n,
    ensures
        forall|k: int| 0 <= k < n - 1 ==> #[trigger] repeat_outcome(s, m, times, k) == DecisionView::Silent,
        repeat_outcome(s, m, times, n - 1) matches DecisionView::Notice { message, count, .. } && message == m && count == n,
{
    assert forall|k: int| 0 <= k < n - 1 implies #[trigger] repeat_outcome(s, m, times, k) == DecisionView::Silent by {
        count_prefix(s, m, n, times, k);
    }
    count_prefix(s, m, n, times, n - 1);
}

proof fn duration_prefix(s: RateLogView, m: Seq<char>, d: Span, t0: u64, times: Seq<u64>, k: int)
    requires
        s.limit == Limit::Duration(d),
        s.identity == Some(m),
        s.duration == 0,
        s.last_seen == Some(t0),
        monotone_from(t0, times),
        0 <= k <= times.len(),
        forall|j: int| 0 <= j < k ==> #[trigger] times[j] - t0 < d.nanos,
    ensures
        repeat_run(s, m, times.take(k)).identity == Some(m),
        repeat_run(s, m, times.take(k)).limit == s.limit,
        repeat_run(s, m, times.take(k)).last_seen == Some(if k == 0 { t0 } else { times[k - 1] }),
        repeat_run(s, m, times.take(k)).duration == (if k == 0 { t0 } else { times[k - 1] }) - t0,
    decreases k,
{
    if k > 0 {
        duration_prefix(s, m, d, t0, times, k - 1);
        assert(times.take(k).drop_last() =~= times.take(k - 1));
        if k > 1 {
            assert(times[k - 2] <= times[k - 1]);
        }
        assert(t0 <= times[k - 1]);
    } else {
        assert(times.take(0) =~= Seq::<u64>::empty());
    }
}

/// Under a duration limit `d`, starting from fresh counters on message `m`
/// last seen at `t0`, each repeat of `m` on a non-decreasing clock is silent
/// while the time accumulated since `t0` stays below `d`, and the first
/// repeat at which it reaches `d` gives a notice carrying that time.
pub proof fn duration_threshold(s: RateLogView, m: Seq<char>, d: Span, t0: u64, times: Seq<u64>, k: int)
    requires
        s.limit == Limit::Duration(d),
        s.identity == Some(m),
        s.duration == 0,
        s.last_seen == Some(t0),
        monotone_from(t0, times),
        0 <= k < times.len(),
        forall|j: int| 0 <= j < k ==> #[trigger] times[j] - t0 < d.nanos,
    ensures
        times[k] - t0 < d.nanos ==> repeat_outcome(s, m, times, k) == DecisionView::Silent,
        times[k] - t0 >= d.nanos ==> (repeat_outcome(s, m, times, k) matches DecisionView::Notice { message, nanos, .. } && message == m && nanos == times[k] - t0),
{
    duration_prefix(s, m, d, t0, times, k);
    assert(t0 <= times[k]);
    if k > 0 {
        assert(times[k - 1] <= times[k]);
    }
}

proof fn repeats_keep_identity(s: RateLogView, m: Seq<char>, times: Seq<u64>)
    requires
        s.identity == Some(m),
    ensures
        repeat_run(s, m, times).identity == Some(m),
        repeat_run(s, m, times).limit == s.limit,
    decreases times.len(),
{
    if times.len() > 0 {
        repeats_keep_identity(s, m, times.drop_last());
    }
}

/// A repeat of the tracked message is never emitted verbatim and keeps it
/// tracked; a notice leaves it tracked with counters reset. So the cycle of
/// silent repeats and notices goes on for as long as the message repeats.
pub proof fn notice_keeps_tracking(s: RateLogView, m: Seq<char>, now: u64, times: Seq<u64>)
    requires
        s.identity == Some(m),
    ensures
        !(step(s, m, now).1 is Emit),
        step(s, m, now).0.identity == Some(m),
        step(s, m, now).1 is Notice ==> step(s, m, now).0.count == 0 && step(s, m, now).0.duration == 0
            && step(s, m, now).0.last_seen is None,
        forall|k: int| 0 <= k < times.len() ==> !(#[trigger] repeat_outcome(s, m, times, k) is Emit),
        repeat_run(s, m, times).identity == Some(m),
{
    assert forall|k: int| 0 <= k < times.len() implies !(#[trigger] repeat_outcome(s, m, times, k) is Emit) by {
        repeats_keep_identity(s, m, times.take(k));
    }
    repeats_keep_identity(s, m, times);
}

} // verus!
