use vstd::prelude::*;

verus! {

/// Seconds added to the clock once per funding to give the deadline shared by
/// every confirmation wait of that funding.
pub const CONFIRMATION_GRACE_SECS: u64 = 10;

/// An opaque handle to a submitted, not yet confirmed transaction.
#[derive(Debug, Clone, Copy, PartialEq, Eq)]
pub struct PendingTransactionId {
    pub hash: [u8; 32],
}

/// Command to fund an account with coins from a faucet and wait until the
/// funding transactions are committed.
///
/// The endpoints are already resolved from the selected profile.
#[derive(Debug, PartialEq, Eq)]
pub struct FundAccount {
    /// Name of the profile the endpoints were resolved from.
    pub profile: String,
    /// Address to fund, as the user wrote it.
    pub account: String,
    /// Faucet endpoint.
    pub faucet_url: String,
    /// Coins to fund.
    pub num_coins: u64,
    /// REST endpoint used to wait for the transactions.
    pub rest_url: String,
}

/// The deadline for a funding whose clock read `now` seconds since the epoch:
/// `now` plus the grace window, saturating at the largest `u64`.
pub open spec fn deadline_after(now: u64) -> u64 {
    if now as int + CONFIRMATION_GRACE_SECS as int <= u64::MAX as int {
        (now + CONFIRMATION_GRACE_SECS) as u64
    } else {
        u64::MAX
    }
}

/// Computes `deadline_after(now)`.
pub fn compute_deadline(now: u64) -> (r: u64)
    ensures
        r == deadline_after(now),
{
    if now <= u64::MAX - CONFIRMATION_GRACE_SECS {
        now + CONFIRMATION_GRACE_SECS
    } else {
        u64::MAX
    }
}

impl FundAccount {
    /// Stable name of the command, for logging and telemetry.
    pub fn command_name(&self) -> (r: &'static str)
        ensures
            r@ == "FundAccount"@,
    {
        "FundAccount"
    }
}

} // verus!
