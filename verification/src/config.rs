//! Fixed configuration of the redemption saga.

use vstd::prelude::*;

verus! {

/// Configuration constants of the coordinator.
#[derive(Clone, Copy, Debug, PartialEq, Eq, Structural)]
pub struct Config {
    /// Coins charged per day of subscription.
    pub unit_price: u64,
    /// Bound, in seconds, on one call to the subscription service.
    pub extend_timeout_secs: u64,
    /// Age, in seconds, beyond which an unfinished redemption is handed to an
    /// operator instead of being retried automatically.
    pub staleness_secs: u64,
}

impl Config {
    /// A configuration is valid when a day of subscription costs something.
    pub open spec fn wf(&self) -> bool {
        self.unit_price > 0
    }

    /// Builds a configuration, refusing a price of zero.
    pub fn new(unit_price: u64, extend_timeout_secs: u64, staleness_secs: u64) -> (r: Option<Config>)
        ensures
            r is Some <==> unit_price > 0,
            r matches Some(c) ==> c == (Config { unit_price, extend_timeout_secs, staleness_secs }),
    {
        if unit_price == 0 {
            None
        } else {
            Some(Config { unit_price, extend_timeout_secs, staleness_secs })
        }
    }

    /// The reference configuration: 30 coins per day, a 30 second bound on
    /// the remote call, and a staleness window of one hour.
    pub fn reference() -> (c: Config)
        ensures
            c == (Config { unit_price: 30, extend_timeout_secs: 30, staleness_secs: 3600 }),
            c.wf(),
    {
        Config { unit_price: 30, extend_timeout_secs: 30, staleness_secs: 3600 }
    }
}

} // verus!
