//! Redemption requests, their price, and the key that identifies one logical
//! redemption across retries.

use vstd::prelude::*;
use crate::config::Config;

verus! {

/// The deduplication key of one logical redemption: the user, the days asked
/// for, and a nonce chosen by the caller. Retries of the same redemption carry
/// the same key.
#[derive(Clone, Copy, Debug, PartialEq, Eq, Structural)]
pub struct Fingerprint {
    pub user_id: i64,
    pub days: i64,
    pub nonce: u64,
}

/// A request to exchange coins for `days` days of subscription.
#[derive(Clone, Copy, Debug, PartialEq, Eq, Structural)]
pub struct RedemptionRequest {
    pub user_id: i64,
    pub days: i64,
}

/// The price of `days` days at `unit_price` coins per day.
pub open spec fn cost(days: int, unit_price: int) -> int {
    days * unit_price
}

impl RedemptionRequest {
    /// A request is valid when it asks for at least one day.
    pub open spec fn valid(&self) -> bool {
        self.days > 0
    }

    /// The price of this request under `cfg`.
    pub open spec fn cost(&self, cfg: Config) -> int {
        cost(self.days as int, cfg.unit_price as int)
    }

    /// Tells whether the request asks for at least one day.
    pub fn is_valid(&self) -> (b: bool)
        ensures
            b == self.valid(),
    {
        self.days > 0
    }

    /// The coins this request costs, or `None` when the request is invalid
    /// or its price exceeds what any balance can hold.
    pub fn coins_required(&self, cfg: &Config) -> (r: Option<u64>)
        ensures
            r is Some <==> self.valid() && self.cost(*cfg) <= u64::MAX,
            r matches Some(c) ==> c == self.cost(*cfg),
    {
        if self.days <= 0 {
            return None;
        }
        let days: u64 = self.days as u64;
        days.checked_mul(cfg.unit_price)
    }

    /// The key under which this request is deduplicated.
    pub fn fingerprint(&self, nonce: u64) -> (f: Fingerprint)
        ensures
            f == (Fingerprint { user_id: self.user_id, days: self.days, nonce }),
    {
        Fingerprint { user_id: self.user_id, days: self.days, nonce }
    }
}

impl Fingerprint {
    /// The request this key was derived from.
    pub fn request(&self) -> (r: RedemptionRequest)
        ensures
            r == (RedemptionRequest { user_id: self.user_id, days: self.days }),
    {
        RedemptionRequest { user_id: self.user_id, days: self.days }
    }
}

} // verus!
