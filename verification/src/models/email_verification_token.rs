//! E-mail verification tokens, sent to a new user to confirm the address.

use vstd::prelude::*;
use crate::time::{later_than, now, Timestamp};

verus! {

/// A stored e-mail verification token.
#[derive(Clone, Debug, PartialEq, Eq)]
pub struct EmailVerificationToken {
    pub id: u128,
    pub user_id: u128,
    pub token: String,
    pub expires_at: Timestamp,
    pub created_at: Timestamp,
}

impl EmailVerificationToken {
    /// At `now` the token has expired: `now` is strictly after its expiry.
    pub open spec fn expired_at(&self, now: Timestamp) -> bool {
        later_than(now, self.expires_at)
    }

    pub fn is_expired_at(&self, now: Timestamp) -> (res: bool)
        ensures
            res == self.expired_at(now),
    {
        now.is_later_than(&self.expires_at)
    }

    /// Whether the token has expired at the moment the system clock is read.
    pub fn is_expired(&self) -> (res: bool)
        ensures
            exists|t: Timestamp| t.secs >= 0 && res == #[trigger] self.expired_at(t),
    {
        let t = now();
        self.is_expired_at(t)
    }
}

} // verus!
