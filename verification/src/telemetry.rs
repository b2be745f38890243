use vstd::prelude::*;
use vstd::string::StrSliceExecFns;

verus! {

/// Configuration of the telemetry reporter built on top of the demultiplexer
/// infrastructure: where to post reports, and how often at most.
pub struct TelemetryConfig {
    pub endpoints: Vec<String>,
    pub reporting_interval_ns: u64,
}

impl TelemetryConfig {
    /// Every endpoint must be a non-empty URL.
    pub open spec fn endpoints_wf(self) -> bool {
        forall|i: int|
            0 <= i < self.endpoints@.len() ==> (#[trigger] self.endpoints@[i])@.len() > 0
    }

    /// Checks that no endpoint is empty; an empty endpoint is a
    /// configuration error that must be rejected at construction time.
    pub fn validate(&self) -> (r: bool)
        ensures
            r == self.endpoints_wf(),
    {
        let mut i: usize = 0;
        while i < self.endpoints.len()
            invariant
                i <= self.endpoints@.len(),
                forall|j: int| 0 <= j < i ==> (#[trigger] self.endpoints@[j])@.len() > 0,
            decreases self.endpoints@.len() - i,
        {
            if self.endpoints[i].as_str().unicode_len() == 0 {
                return false;
            }
            i = i + 1;
        }
        true
    }
}

/// Spacing control for the telemetry reporter: at most one report goes out
/// per reporting interval; reports arriving sooner are silently discarded.
pub struct Throttle {
    pub reporting_interval_ns: u64,
    pub last_report_ns: Option<u64>,
}

impl Throttle {
    /// A fresh throttle lets the very first report through immediately.
    pub fn new(reporting_interval_ns: u64) -> (t: Throttle)
        ensures
            t.reporting_interval_ns == reporting_interval_ns,
            t.last_report_ns is None,
    {
        Throttle { reporting_interval_ns, last_report_ns: None }
    }

    /// Decides whether a report may go out at time `now_ns`: yes for the
    /// first report ever, and afterwards only once a full reporting interval
    /// has passed since the last report that went out. Only a report that
    /// goes out moves the clock; discarded ones leave the throttle unchanged.
    pub fn should_report(&mut self, now_ns: u64) -> (r: bool)
        ensures
            r == (match old(self).last_report_ns {
                None => true,
                Some(l) => now_ns >= l + old(self).reporting_interval_ns,
            }),
            final(self).reporting_interval_ns == old(self).reporting_interval_ns,
            r ==> final(self).last_report_ns == Some(now_ns),
            !r ==> *final(self) == *old(self),
    {
        let allow = match self.last_report_ns {
            None => true,
            Some(l) => now_ns >= l && now_ns - l >= self.reporting_interval_ns,
        };
        if allow {
            self.last_report_ns = Some(now_ns);
        }
        allow
    }
}

} // verus!
