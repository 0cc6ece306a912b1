//! A background event-notifier bridge: a worker lifecycle with at most one
//! worker at a time, producing colored text envelopes that reach
//! the host either by immediate hand-off (push) or through a drainable queue
//! (pull).

pub mod envelope;
pub mod lifecycle;
pub mod source;
