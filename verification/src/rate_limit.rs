use vstd::prelude::*;

verus! {

/// Configuration of the token-bucket rate limiter.
///
/// The bucket holds at most `burst` tokens and gains one token every
/// `refill_interval_ns` nanoseconds while it is not full. After a period of
/// inactivity up to `burst` batches are released immediately; under sustained
/// load, batches are released at the steady rate of one per refill interval.
///
/// A zero refill interval would make the refill rate undefined, so
/// construction rejects it.
#[derive(Clone, Copy, Debug)]
pub struct RateLimit {
    pub burst: u64,
    pub refill_interval_ns: u64,
}

/// Rejected rate-limiter configurations.
#[derive(Clone, Copy, PartialEq, Eq, Structural, Debug)]
pub enum ConfigError {
    /// The refill interval was zero, i.e. the requested rate was not positive.
    ZeroRefillInterval,
}

impl RateLimit {
    /// A configuration is well formed when its refill interval is positive.
    pub open spec fn wf(self) -> bool {
        self.refill_interval_ns >= 1
    }

    /// Builds a configuration, rejecting a zero refill interval.
    pub fn new(burst: u64, refill_interval_ns: u64) -> (r: Result<RateLimit, ConfigError>)
        ensures
            r is Ok <==> refill_interval_ns >= 1,
            r matches Ok(rl) ==> rl.burst == burst && rl.refill_interval_ns == refill_interval_ns
                && rl.wf(),
            r matches Err(e) ==> e == ConfigError::ZeroRefillInterval,
    {
        if refill_interval_ns == 0 {
            Err(ConfigError::ZeroRefillInterval)
        } else {
            Ok(RateLimit { burst, refill_interval_ns })
        }
    }
}

} // verus!
