//! How many requests each group of endpoints accepts.
use vstd::prelude::*;

verus! {

/// The period a quota is counted over.
#[derive(Debug, Clone, Copy, PartialEq, Eq)]
pub enum QuotaPeriod {
    Second,
    Minute,
}

/// A request quota: `burst` requests per `period`.
#[derive(Debug, Clone, Copy, PartialEq, Eq)]
pub struct RateQuota {
    pub period: QuotaPeriod,
    pub burst: u32,
}

/// Limits the index page.
pub struct IndexRateLimiter;

/// Limits registrations.
pub struct RegisterRateLimiter;

/// Limits verifications.
pub struct VerifyRateLimiter;

/// Limits account deletions.
pub struct UnregisterRateLimiter;

/// Limits logins.
pub struct LoginRateLimiter;

/// Limits the profile endpoints.
pub struct GenericRateLimiter;

/// Limits the action endpoint.
pub struct ActionRateLimiter;

/// Limits the queue endpoint.
pub struct QueueRateLimiter;

/// Limits the contact endpoint.
pub struct ContactRateLimiter;

fn per_minute(burst: u32) -> (q: RateQuota)
    ensures
        q.period == QuotaPeriod::Minute,
        q.burst == burst,
{
    RateQuota { period: QuotaPeriod::Minute, burst }
}

impl IndexRateLimiter {
    /// 10 requests per minute.
    pub fn quota() -> (q: RateQuota)
        ensures
            q.period == QuotaPeriod::Minute && q.burst == 10,
    {
        per_minute(10)
    }
}

impl RegisterRateLimiter {
    /// 30 requests per minute.
    pub fn quota() -> (q: RateQuota)
        ensures
            q.period == QuotaPeriod::Minute && q.burst == 30,
    {
        per_minute(30)
    }
}

impl VerifyRateLimiter {
    /// 30 requests per minute.
    pub fn quota() -> (q: RateQuota)
        ensures
            q.period == QuotaPeriod::Minute && q.burst == 30,
    {
        per_minute(30)
    }
}

impl UnregisterRateLimiter {
    /// 50 requests per minute.
    pub fn quota() -> (q: RateQuota)
        ensures
            q.period == QuotaPeriod::Minute && q.burst == 50,
    {
        per_minute(50)
    }
}

impl LoginRateLimiter {
    /// 30 requests per minute.
    pub fn quota() -> (q: RateQuota)
        ensures
            q.period == QuotaPeriod::Minute && q.burst == 30,
    {
        per_minute(30)
    }
}

impl ActionRateLimiter {
    /// 50 requests per minute.
    pub fn quota() -> (q: RateQuota)
        ensures
            q.period == QuotaPeriod::Minute && q.burst == 50,
    {
        per_minute(50)
    }
}

impl QueueRateLimiter {
    /// 50 requests per minute.
    pub fn quota() -> (q: RateQuota)
        ensures
            q.period == QuotaPeriod::Minute && q.burst == 50,
    {
        per_minute(50)
    }
}

impl ContactRateLimiter {
    /// 50 requests per minute.
    pub fn quota() -> (q: RateQuota)
        ensures
            q.period == QuotaPeriod::Minute && q.burst == 50,
    {
        per_minute(50)
    }
}

impl GenericRateLimiter {
    /// 1 request per second.
    pub fn quota() -> (q: RateQuota)
        ensures
            q.period == QuotaPeriod::Second && q.burst == 1,
    {
        RateQuota { period: QuotaPeriod::Second, burst: 1 }
    }
}

} // verus!
