//! The engine and its limits.

use vstd::prelude::*;

verus! {

/// The limits that the engine enforces.
#[derive(Clone, Copy, Debug, PartialEq, Eq)]
pub struct Config {
    /// How many objects one Set call may name.
    pub set_max_objects: usize,
    /// How many push subscriptions one account may have.
    pub push_max_total: usize,
    /// Whether clients that are no super-users may look up principals.
    pub principal_allow_lookups: bool,
}

/// The engine. It decides what is to be done; the caller does what needs
/// the store, the network or the clock, and reports back.
#[derive(Clone, Copy, Debug, PartialEq, Eq)]
pub struct JMAP {
    pub config: Config,
}

impl JMAP {
    pub fn new(config: Config) -> (r: JMAP)
        ensures
            r.config == config,
    {
        JMAP { config }
    }
}

} // verus!
