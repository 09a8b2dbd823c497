//! The request quotas of the two groups of endpoints, per client address,
//! and the limiters built with them.

use vstd::prelude::*;
use std::sync::Arc;
use governor::middleware::NoOpMiddleware;
use tower_governor::governor::{GovernorConfig, GovernorConfigBuilder};
use tower_governor::key_extractor::PeerIpKeyExtractor;

verus! {

/// Seconds after which the register and login quota of a client regains one
/// request.
pub const AUTH_PERIOD_SECS: u64 = 10;

/// Requests that a client may send at once to register and log in.
pub const AUTH_BURST: u32 = 5;

/// Seconds after which the quota of a client for the other endpoints regains
/// one request.
pub const GENERAL_PERIOD_SECS: u64 = 2;

/// Requests that a client may send at once to the other endpoints.
pub const GENERAL_BURST: u32 = 30;

/// A shared `tower_governor` configuration that limits each client address:
/// it holds the keyed store of per-address quota states. Its type cannot be
/// declared on its own (its parameters are bounded by outside traits), so it
/// is held here, opaque.
#[verifier::external_body]
pub struct GovernorConf {
    pub config: Arc<GovernorConfig<PeerIpKeyExtractor, NoOpMiddleware>>,
}

/// The quota that a limiter configuration was built with: the seconds after
/// which a client regains one request, and the requests it may send at once.
pub uninterp spec fn governor_quota(c: GovernorConf) -> (u64, u32);

/// `GovernorConfigBuilder::default().per_second(period_secs).burst_size(burst).finish()`,
/// shared in an `Arc`. The contract claims what the builder's source shows:
/// it gives a configuration exactly where the period and the burst are both
/// nonzero, and that configuration holds the quota it was built with.
#[verifier::external_body]
fn governor_config(period_secs: u64, burst: u32) -> (r: Option<GovernorConf>)
    ensures
        (r is Some) == (period_secs > 0 && burst > 0),
        r matches Some(c) ==> governor_quota(c) == (period_secs, burst),
{
    match GovernorConfigBuilder::default().per_second(period_secs).burst_size(burst).finish() {
        Some(c) => Some(GovernorConf { config: Arc::new(c) }),
        None => None,
    }
}

/// The limiters of the sensitive endpoints (register, login) and of the
/// others.
pub struct RateLimitConfigs {
    pub auth: GovernorConf,
    pub general: GovernorConf,
}

impl RateLimitConfigs {
    /// Builds both limiters with their quotas.
    pub fn new() -> (r: Self)
        ensures
            governor_quota(r.auth) == (AUTH_PERIOD_SECS, AUTH_BURST),
            governor_quota(r.general) == (GENERAL_PERIOD_SECS, GENERAL_BURST),
    {
        let auth = governor_config(AUTH_PERIOD_SECS, AUTH_BURST).expect(
            "Failed to build auth rate limit config",
        );
        let general = governor_config(GENERAL_PERIOD_SECS, GENERAL_BURST).expect(
            "Failed to build general rate limit config",
        );
        RateLimitConfigs { auth, general }
    }
}

} // verus!
