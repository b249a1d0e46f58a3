//! Usage and subscription records fetched from the tracking service.

use vstd::prelude::*;

verus! {

/// Current usage of the account. Token counts are in token units;
/// 100 token units equal one currency unit, so a token count is also
/// a cent amount. The credit limit is carried in cents as well.
#[derive(Clone, Copy, Debug)]
pub struct UsageRecord {
    /// Tokens consumed so far; never negative.
    pub used_tokens: u64,
    /// Tokens still available; the service may report a negative count
    /// when the account has overdrawn.
    pub remaining_tokens: i64,
    /// The account's credit limit, in cents.
    pub credit_limit_cents: u64,
}

impl UsageRecord {
    /// The quota is exhausted once the consumed tokens meet or exceed
    /// the credit limit.
    pub open spec fn spec_is_exhausted(self) -> bool {
        self.used_tokens >= self.credit_limit_cents
    }

    /// Whether the consumed tokens meet or exceed the credit limit.
    pub fn is_exhausted(&self) -> (r: bool)
        ensures
            r == self.spec_is_exhausted(),
    {
        self.used_tokens >= self.credit_limit_cents
    }
}

/// One subscription plan the account holds.
#[derive(Clone, Copy, Debug)]
pub struct SubscriptionRecord {
    /// Whether the plan is currently usable.
    pub is_active: bool,
    /// How many manual quota resets remain on the plan.
    pub reset_times: u64,
}

/// The remaining-token count clamped below at zero.
pub open spec fn spec_clamped_remaining(raw: int) -> nat {
    if raw < 0 {
        0
    } else {
        raw as nat
    }
}

/// The remaining-token count as a cent amount, clamped below at zero.
pub fn clamped_remaining(raw: i64) -> (c: u64)
    ensures
        c as nat == spec_clamped_remaining(raw as int),
{
    if raw < 0 {
        0
    } else {
        raw as u64
    }
}

/// Law: the clamped remaining amount is never negative, whatever the
/// sign of the raw remaining-token count.
pub proof fn lemma_remaining_never_negative(raw: int)
    ensures
        spec_clamped_remaining(raw) >= 0,
{
}

} // verus!
