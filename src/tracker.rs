//! The repeat tracker: one current message, its repeat counters, and the
//! decision taken for each observation.
use vstd::prelude::*;

use crate::span::{decimal, duration_text, format_duration, push_decimal, Span};

verus! {

/// The threshold at which a run of identical messages is summarised.
#[derive(Clone, Copy, Debug, PartialEq, Eq, Structural)]
pub enum Limit {
    /// Summarise once this many repeats have been seen.
    Rate(u32),
    /// Summarise once the time accumulated between repeats reaches this span.
    Duration(Span),
}

/// What the caller should do with one observed message.
#[derive(Debug, PartialEq, Eq)]
pub enum Decision {
    /// A new message: write it out verbatim.
    Emit(String),
    /// A repeat below the limit: write nothing.
    Silent,
    /// A repeat that reached the limit: write one summary line.
    Notice { message: String, count: u64, duration: Span },
}

/// The mathematical value of a [`Decision`].
pub enum DecisionView {
    Emit { message: Seq<char> },
    Silent,
    Notice { message: Seq<char>, count: u64, nanos: u64 },
}

impl View for Decision {
    type V = DecisionView;

    open spec fn view(&self) -> DecisionView {
        match self {
            Decision::Emit(m) => DecisionView::Emit { message: m@ },
            Decision::Silent => DecisionView::Silent,
            Decision::Notice { message, count, duration } => DecisionView::Notice {
                message: message@,
                count: *count,
                nanos: duration.nanos,
            },
        }
    }
}

/// The state of a [`RateLog`] as the contracts see it.
pub struct RateLogView {
    pub limit: Limit,
    /// The message being tracked; `None` before the first observation.
    pub identity: Option<Seq<char>>,
    /// Repeats of `identity` since the last reset.
    pub count: u64,
    /// Nanoseconds accumulated between repeats since the last reset.
    pub duration: u64,
    /// When `identity` was last observed since the last reset.
    pub last_seen: Option<u64>,
}

/// A tracker that has observed nothing yet.
pub open spec fn initial(limit: Limit) -> RateLogView {
    RateLogView { limit, identity: None, count: 0, duration: 0, last_seen: None }
}

/// Whether the counters have reached the limit.
pub open spec fn reached(limit: Limit, count: u64, duration: u64) -> bool {
    match limit {
        Limit::Rate(n) => count >= n,
        Limit::Duration(d) => duration >= d.nanos,
    }
}

/// The gap between two observations; a clock that went backwards counts as
/// no time at all.
pub open spec fn gap(last: u64, now: u64) -> u64 {
    if now >= last {
        (now - last) as u64
    } else {
        0
    }
}

/// One observation of `msg` at time `now`: the next state and the decision.
///
/// A message other than the tracked one is emitted and becomes the tracked
/// one, with fresh counters. A repeat bumps the count (saturating) and adds
/// the gap since the previous observation to the accumulated time
/// (saturating). If that reaches the limit, a notice carries the counters
/// and they are reset, identity kept; otherwise the repeat is silent.
pub open spec fn step(s: RateLogView, msg: Seq<char>, now: u64) -> (RateLogView, DecisionView) {
    if s.identity != Some(msg) {
        (
            RateLogView {
                limit: s.limit,
                identity: Some(msg),
                count: 0,
                duration: 0,
                last_seen: Some(now),
            },
            DecisionView::Emit { message: msg },
        )
    } else {
        let count = s.count.saturating_add(1);
        let duration = match s.last_seen {
            Some(last) => s.duration.saturating_add(gap(last, now)),
            None => s.duration,
        };
        if reached(s.limit, count, duration) {
            (
                RateLogView {
                    limit: s.limit,
                    identity: s.identity,
                    count: 0,
                    duration: 0,
                    last_seen: None,
                },
                DecisionView::Notice { message: msg, count, nanos: duration },
            )
        } else {
            (
                RateLogView {
                    limit: s.limit,
                    identity: s.identity,
                    count,
                    duration,
                    last_seen: Some(now),
                },
                DecisionView::Silent,
            )
        }
    }
}

/// The summary line for `count` repeats of `message` over `nanos`.
pub open spec fn notice_text(message: Seq<char>, count: u64, nanos: u64) -> Seq<char> {
    "Message: \""@ + message + "\" repeat for "@ + decimal(count as nat) + " times in the past "@
        + duration_text(nanos as nat)
}

/// The line to write for a decision, if any.
pub open spec fn line_of(d: DecisionView) -> Option<Seq<char>> {
    match d {
        DecisionView::Emit { message } => Some(message),
        DecisionView::Silent => None,
        DecisionView::Notice { message, count, nanos } => Some(notice_text(message, count, nanos)),
    }
}

/// Builds the summary line for `count` repeats of `message` over `duration`.
pub fn notice_line(message: &str, count: u64, duration: Span) -> (r: String)
    ensures
        r@ == notice_text(message@, count, duration.nanos),
{
    let mut out = String::new();
    out.append("Message: \"");
    out.append(message);
    out.append("\" repeat for ");
    push_decimal(&mut out, count);
    out.append(" times in the past ");
    let d = format_duration(duration);
    out.append(d.as_str());
    assert(out@ =~= notice_text(message@, count, duration.nanos));
    out
}

impl Decision {
    /// The line to hand to the sink for this decision, if any.
    pub fn render(&self) -> (r: Option<String>)
        ensures
            r.deep_view() == line_of(self@),
    {
        match self {
            Decision::Emit(m) => Some(m.clone()),
            Decision::Silent => None,
            Decision::Notice { message, count, duration } => Some(
                notice_line(message.as_str(), *count, *duration),
            ),
        }
    }
}

/// The counters kept for the tracked message.
struct State {
    count: u64,
    duration: Span,
    last_timestamp: Option<u64>,
}

impl State {
    fn new() -> (r: State)
        ensures
            r.count == 0,
            r.duration.nanos == 0,
            r.last_timestamp is None,
    {
        State { count: 0, duration: Span::zero(), last_timestamp: None }
    }

    fn reset(&mut self)
        ensures
            final(self).count == 0,
            final(self).duration.nanos == 0,
            final(self).last_timestamp is None,
    {
        self.count = 0;
        self.duration = Span::zero();
        self.last_timestamp = None;
    }

    fn exceeds_limit(&self, limit: &Limit) -> (r: bool)
        ensures
            r == reached(*limit, self.count, self.duration.nanos),
    {
        match limit {
            Limit::Rate(limit_count) => self.count >= *limit_count as u64,
            Limit::Duration(limit_duration) => self.duration.nanos >= limit_duration.nanos,
        }
    }
}

/// A rate limiter for repeated log messages.
///
/// Only one message is tracked at a time: a different message discards the
/// counters of the previous one.
pub struct RateLog {
    limit: Limit,
    current: State,
    message: Option<String>,
}

impl View for RateLog {
    type V = RateLogView;

    closed spec fn view(&self) -> RateLogView {
        RateLogView {
            limit: self.limit,
            identity: match self.message {
                Some(m) => Some(m@),
                None => None,
            },
            count: self.current.count,
            duration: self.current.duration.nanos,
            last_seen: self.current.last_timestamp,
        }
    }
}

impl RateLog {
    /// A tracker with the given limit that has seen no message yet.
    pub fn new(limit: Limit) -> (r: RateLog)
        ensures
            r@ == initial(limit),
    {
        let current = State::new();
        RateLog { limit, current, message: None }
    }

    /// The limit this tracker was built with.
    pub fn limit(&self) -> (r: Limit)
        ensures
            r == self@.limit,
    {
        self.limit
    }

    /// Classifies `msg`, observed at time `now` (nanoseconds on a monotonic
    /// clock), and updates the counters.
    ///
    /// Should the clock go backwards, the gap counts as no time; the repeat
    /// count and the accumulated time saturate rather than wrap.
    pub fn observe(&mut self, msg: &str, now: u64) -> (r: Decision)
        ensures
            (final(self)@, r@) == step(old(self)@, msg@, now),
    {
        let incoming = msg.to_owned();
        let same = match &self.message {
            Some(m) => m.eq(&incoming),
            None => false,
        };
        if !same {
            self.message = Some(incoming);
            self.current.reset();
            self.current.last_timestamp = Some(now);
            return Decision::Emit(msg.to_owned());
        }
        self.current.count = self.current.count.saturating_add(1);
        if let Some(last) = self.current.last_timestamp {
            let elapsed = now.saturating_sub(last);
            self.current.duration = Span::from_nanos(self.current.duration.nanos.saturating_add(elapsed));
        }
        self.current.last_timestamp = Some(now);
        if self.current.exceeds_limit(&self.limit) {
            let count = self.current.count;
            let duration = self.current.duration;
            self.current.reset();
            Decision::Notice { message: incoming, count, duration }
        } else {
            Decision::Silent
        }
    }

    /// Observes `msg` at time `now` and returns the line to write, if any:
    /// the message itself when it is new, a summary line when its repeats
    /// reach the limit.
    pub fn log(&mut self, msg: &str, now: u64) -> (r: Option<String>)
        ensures
            final(self)@ == step(old(self)@, msg@, now).0,
            r.deep_view() == line_of(step(old(self)@, msg@, now).1),
    {
        let d = self.observe(msg, now);
        d.render()
    }
}

} // verus!
