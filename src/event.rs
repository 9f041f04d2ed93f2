use vstd::prelude::*;

verus! {

/// The tick interval a default configuration uses, in milliseconds.
pub const DEFAULT_TICK_RATE_MS: u64 = 250;

/// One unit delivered to the consumer: a decoded key, or a tick marking that
/// one interval has elapsed.
#[derive(Debug, Clone, Copy, PartialEq, Eq)]
pub enum Event<I> {
    Input(I),
    Tick,
}

/// Settings fixed when a multiplexer is built.
#[derive(Debug, Clone, Copy)]
pub struct Config {
    /// Time between two ticks, in milliseconds.
    pub tick_rate_ms: u64,
}

impl Config {
    /// A usable configuration has a positive tick interval.
    pub open spec fn wf(self) -> bool {
        self.tick_rate_ms > 0
    }

    /// A configuration with the given tick interval; `None` when it is zero.
    pub fn from_millis(ms: u64) -> (r: Option<Config>)
        ensures
            ms == 0 <==> r is None,
            r matches Some(c) ==> c.tick_rate_ms == ms && c.wf(),
    {
        if ms == 0 {
            None
        } else {
            Some(Config { tick_rate_ms: ms })
        }
    }
}

impl Default for Config {
    /// The default configuration ticks every 250 milliseconds.
    fn default() -> (r: Config)
        ensures
            r.tick_rate_ms == DEFAULT_TICK_RATE_MS,
            r.wf(),
    {
        Config { tick_rate_ms: DEFAULT_TICK_RATE_MS }
    }
}

} // verus!
