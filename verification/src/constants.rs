use vstd::prelude::*;

verus! {

/// Minutes after which a streaming session counts as expired.
pub const TRADIER_SESSION_TIMEOUT: i64 = 5;

/// Path of the endpoint that issues market event sessions.
pub const MARKET_SESSION_PATH: &'static str = "/v1/markets/events/session";

/// Path of the endpoint that issues account event sessions.
pub const ACCOUNT_SESSION_PATH: &'static str = "/v1/accounts/events/session";

} // verus!
