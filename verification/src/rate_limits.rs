//! Rate-limit categories of the API: fixed reference data that classifies
//! each operation. The registry only classifies; counting and throttling
//! belong to an outside collaborator.

use vstd::prelude::*;
use vstd::string::StringExecFns;

verus! {

/// One threshold rule: a request count bound to a time unit.
#[derive(Debug, Clone, Copy, PartialEq, Eq, Structural)]
pub enum LimitPer {
    Hours(u64),
    Seconds(u64),
}

/// What a category's counting is keyed on.
#[derive(Debug, Clone, Copy, PartialEq, Eq, Structural)]
pub enum RateLimitBy {
    Ip,
}

/// A named rate-limit category: an identifier, the classification key, and
/// the ordered threshold rules.
#[derive(Debug, Clone, PartialEq, Eq)]
pub struct RateLimit {
    pub id: String,
    pub by: RateLimitBy,
    pub requests_limits: Vec<LimitPer>,
}

/// The mathematical value of a [`RateLimit`].
#[verifier::ext_equal]
pub ghost struct RateLimitView {
    pub id: Seq<char>,
    pub by: RateLimitBy,
    pub requests_limits: Seq<LimitPer>,
}

impl View for RateLimit {
    type V = RateLimitView;

    open spec fn view(&self) -> RateLimitView {
        RateLimitView { id: self.id@, by: self.by, requests_limits: self.requests_limits@ }
    }
}

/// Category for account creation: 50 requests per hour, by client IP.
pub open spec fn spec_account_creation_rate_limit() -> RateLimitView {
    RateLimitView {
        id: "ACCOUNT_CREATION"@,
        by: RateLimitBy::Ip,
        requests_limits: seq![LimitPer::Hours(50)],
    }
}

/// Category for token issuance: 50 requests per hour, by client IP.
pub open spec fn spec_token_rate_limit() -> RateLimitView {
    RateLimitView { id: "TOKEN"@, by: RateLimitBy::Ip, requests_limits: seq![LimitPer::Hours(50)] }
}

/// Category for data reads: 20 per second and 7200 per hour, by client IP.
pub open spec fn spec_data_rate_limit() -> RateLimitView {
    RateLimitView {
        id: "DATA"@,
        by: RateLimitBy::Ip,
        requests_limits: seq![LimitPer::Seconds(20), LimitPer::Hours(7200)],
    }
}

/// Category for game-state-mutating actions: 5 per second and 7200 per hour,
/// by client IP.
pub open spec fn spec_actions_rate_limit() -> RateLimitView {
    RateLimitView {
        id: "ACTIONS"@,
        by: RateLimitBy::Ip,
        requests_limits: seq![LimitPer::Seconds(5), LimitPer::Hours(7200)],
    }
}

/// No rate limit applies (the liveness probe).
pub open spec fn spec_no_rate_limit() -> RateLimitView {
    RateLimitView { id: "NO_LIMIT"@, by: RateLimitBy::Ip, requests_limits: Seq::empty() }
}

pub fn account_creation_rate_limit() -> (r: RateLimit)
    ensures
        r@ == spec_account_creation_rate_limit(),
{
    let mut limits: Vec<LimitPer> = Vec::new();
    limits.push(LimitPer::Hours(50));
    let r = RateLimit {
        id: String::from_str("ACCOUNT_CREATION"),
        by: RateLimitBy::Ip,
        requests_limits: limits,
    };
    proof {
        assert(r@.requests_limits =~= spec_account_creation_rate_limit().requests_limits);
        assert(r@ =~= spec_account_creation_rate_limit());
    }
    r
}

pub fn token_rate_limit() -> (r: RateLimit)
    ensures
        r@ == spec_token_rate_limit(),
{
    let mut limits: Vec<LimitPer> = Vec::new();
    limits.push(LimitPer::Hours(50));
    let r = RateLimit {
        id: String::from_str("TOKEN"),
        by: RateLimitBy::Ip,
        requests_limits: limits,
    };
    proof {
        assert(r@.requests_limits =~= spec_token_rate_limit().requests_limits);
        assert(r@ =~= spec_token_rate_limit());
    }
    r
}

pub fn data_rate_limit() -> (r: RateLimit)
    ensures
        r@ == spec_data_rate_limit(),
{
    let mut limits: Vec<LimitPer> = Vec::new();
    limits.push(LimitPer::Seconds(20));
    limits.push(LimitPer::Hours(7200));
    let r = RateLimit {
        id: String::from_str("DATA"),
        by: RateLimitBy::Ip,
        requests_limits: limits,
    };
    proof {
        assert(r@.requests_limits =~= spec_data_rate_limit().requests_limits);
        assert(r@ =~= spec_data_rate_limit());
    }
    r
}

pub fn actions_rate_limit() -> (r: RateLimit)
    ensures
        r@ == spec_actions_rate_limit(),
{
    let mut limits: Vec<LimitPer> = Vec::new();
    limits.push(LimitPer::Seconds(5));
    limits.push(LimitPer::Hours(7200));
    let r = RateLimit {
        id: String::from_str("ACTIONS"),
        by: RateLimitBy::Ip,
        requests_limits: limits,
    };
    proof {
        assert(r@.requests_limits =~= spec_actions_rate_limit().requests_limits);
        assert(r@ =~= spec_actions_rate_limit());
    }
    r
}

pub fn no_rate_limit() -> (r: RateLimit)
    ensures
        r@ == spec_no_rate_limit(),
{
    let limits: Vec<LimitPer> = Vec::new();
    let r = RateLimit {
        id: String::from_str("NO_LIMIT"),
        by: RateLimitBy::Ip,
        requests_limits: limits,
    };
    proof {
        assert(r@.requests_limits =~= spec_no_rate_limit().requests_limits);
        assert(r@ =~= spec_no_rate_limit());
    }
    r
}

} // verus!
