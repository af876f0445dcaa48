//! Typed failures of the vault operations.

use vstd::prelude::*;

verus! {

/// Every way a vault operation can refuse a call.
///
/// All failures are values: no operation of this crate panics, and an
/// operation that returns an error leaves the vault state as it found it.
#[derive(Clone, Copy, Debug, PartialEq, Eq, Hash)]
pub enum ErrorCode {
    /// The caller holds none of the roles the operation asks for.
    Unauthorized,
    /// The vault is paused.
    Paused,
    /// No usable oracle price is stored.
    OracleNotReady,
    /// The oracle is degraded and the drift is below the extreme-drift override.
    OracleDegradedHedgeBlocked,
    /// The minimum hedge interval has not elapsed.
    HedgeTooSoon,
    /// The price moved less than the current band.
    DriftNotMet,
    /// There is no hedge request waiting for a confirmation.
    NoOutstandingRequest,
    /// The confirmation names another request than the last one issued.
    WrongRequestId,
    /// The policy cooldown has not elapsed.
    PolicyCooldown,
    /// A parameter violates a configuration invariant.
    InvalidParams,
    /// An intermediate value does not fit its integer type.
    MathOverflow,
    /// A volatility input is above 100%.
    VolOutOfRange,
    /// An exposure cap would be exceeded.
    CapExceeded,
    /// The hedge is larger than the staked collateral allows.
    LeverageExceeded,
    /// The reserve is below the configured share of the stake.
    ReserveTooLow,
    /// The keeper used up its updates for this epoch.
    KeeperRateLimited,
    /// The keeper's bond is below the required amount.
    KeeperBondInsufficient,
}

impl ErrorCode {
    /// The description of each failure.
    pub open spec fn description(self) -> Seq<char> {
        match self {
            ErrorCode::Unauthorized => "Unauthorized"@,
            ErrorCode::Paused => "Program is paused"@,
            ErrorCode::OracleNotReady => "Oracle not ready / missing price"@,
            ErrorCode::OracleDegradedHedgeBlocked => "Oracle degraded: hedge blocked unless extreme drift"@,
            ErrorCode::HedgeTooSoon => "Hedge request too soon (min interval not met)"@,
            ErrorCode::DriftNotMet => "Drift not met (price move within band)"@,
            ErrorCode::NoOutstandingRequest => "No outstanding hedge request to confirm"@,
            ErrorCode::WrongRequestId => "Wrong request id"@,
            ErrorCode::PolicyCooldown => "Policy update cooldown not met"@,
            ErrorCode::InvalidParams => "Invalid parameters"@,
            ErrorCode::MathOverflow => "Math overflow"@,
            ErrorCode::VolOutOfRange => "Volatility out of range"@,
            ErrorCode::CapExceeded => "Cap exceeded"@,
            ErrorCode::LeverageExceeded => "Leverage exceeded"@,
            ErrorCode::ReserveTooLow => "Reserve too low (slashing buffer below minimum)"@,
            ErrorCode::KeeperRateLimited => "Keeper rate limited"@,
            ErrorCode::KeeperBondInsufficient => "Keeper bond insufficient"@,
        }
    }

    /// A short human-readable description of the failure.
    pub fn message(&self) -> (text: &'static str)
        ensures
            text@ == self.description(),
    {
        let text = match self {
            ErrorCode::Unauthorized => "Unauthorized",
            ErrorCode::Paused => "Program is paused",
            ErrorCode::OracleNotReady => "Oracle not ready / missing price",
            ErrorCode::OracleDegradedHedgeBlocked => "Oracle degraded: hedge blocked unless extreme drift",
            ErrorCode::HedgeTooSoon => "Hedge request too soon (min interval not met)",
            ErrorCode::DriftNotMet => "Drift not met (price move within band)",
            ErrorCode::NoOutstandingRequest => "No outstanding hedge request to confirm",
            ErrorCode::WrongRequestId => "Wrong request id",
            ErrorCode::PolicyCooldown => "Policy update cooldown not met",
            ErrorCode::InvalidParams => "Invalid parameters",
            ErrorCode::MathOverflow => "Math overflow",
            ErrorCode::VolOutOfRange => "Volatility out of range",
            ErrorCode::CapExceeded => "Cap exceeded",
            ErrorCode::LeverageExceeded => "Leverage exceeded",
            ErrorCode::ReserveTooLow => "Reserve too low (slashing buffer below minimum)",
            ErrorCode::KeeperRateLimited => "Keeper rate limited",
            ErrorCode::KeeperBondInsufficient => "Keeper bond insufficient",
        };
        text
    }
}

} // verus!
