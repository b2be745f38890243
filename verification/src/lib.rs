//! A rate-limited demultiplexer, verified.
//!
//! Many concurrent callers submit one argument each; the dispatcher coalesces
//! everything pending into a single batch whenever the token bucket releases a
//! token, and a batch executor runs exactly one caller-supplied handler over
//! the batch, fanning the results back out to the individual callers.
//!
//! The modules hold, in order: the rate-limiter configuration, the dispatcher
//! state machine that owns the token bucket and the pending queue, the batch
//! executor's argument/result bookkeeping, and the throttle used by the
//! telemetry reporter built on top of this primitive.

pub mod rate_limit;
pub mod dispatcher;
pub mod batch;
pub mod telemetry;
