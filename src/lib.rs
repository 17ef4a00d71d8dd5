//! Rate limiting for repeated log messages.
//!
//! A [`RateLog`] watches a stream of messages. The first occurrence of a
//! message is emitted verbatim; identical repeats are counted silently until a
//! configured [`Limit`] is reached, at which point a single summary notice is
//! produced and the counters start over.
pub mod laws;
pub mod span;
pub mod tracker;

pub use span::{format_duration, Span};
pub use tracker::{Decision, Limit, RateLog};
