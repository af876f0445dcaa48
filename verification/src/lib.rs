//! A deterministic risk-policy engine for a hedged staking vault.
//!
//! The vault turns a noisy oracle price into a bounded, slowly moving hedge
//! policy: quotes are gated for staleness, confidence and jumps; accepted
//! prices feed a rate-limited return series; three estimators turn the series
//! into a realized volatility; a blended score is mapped to a drift band and a
//! minimum hedge interval under hysteresis and a slew limit; and a
//! request/confirm protocol drives the hedge itself.
//!
//! Every operation is a finite computation on integers. Prices use a fixed
//! point of six decimals, ratios use basis points.

pub mod admin;
pub mod config_hash;
pub mod configure;
pub mod errors;
pub mod events;
pub mod fixed_point;
pub mod hedge;
pub mod hedge_flow;
pub mod initialize;
pub mod keepers;
pub mod keys;
pub mod oracle;
pub mod oracle_update;
pub mod policy;
pub mod policy_update;
pub mod return_series;
pub mod risk;
pub mod state;
pub mod vault_ops;
pub mod volatility;

pub use admin::{
    accept_authority, add_keeper, remove_keeper, set_emergency_withdraw_enabled, set_keeper_admin,
    set_paused, set_pending_authority,
};
pub use configure::{
    set_confirm_config, set_hedge_sizing, set_keeper_controls, set_oracle_config,
    set_policy_bounds, set_policy_stability, set_risk_caps, set_vol_model,
};
pub use errors::ErrorCode;
pub use events::{
    AuthorityAccepted, CarryInputsUpdated, ConfirmConfigUpdated, EmergencyModeSet, EpochUpdated,
    HedgeConfirmMissed, HedgeConfirmed, HedgeRequested, HedgeSizingUpdated, ImpliedVolUpdated,
    KeeperAdminSet, KeeperBondUpdated, KeeperControlsUpdated, KeeperSet, NavSnapshot,
    OracleConfigUpdated, OracleDegraded, OraclePriceUpdated, OracleReturnRecorded, PausedSet,
    PendingAuthoritySet, PolicyBoundsUpdated, PolicyFrozen, PolicyIntentComputed,
    PolicyStabilityUpdated, PolicyUpdated, ReserveUpdated, RiskCapsUpdated, StakeAllocated,
    VaultInitialized, VaultSnapshot, VolModelUpdated,
};
pub use fixed_point::{
    abs_i64, BPS_DENOM, DEFAULT_EXTREME_DRIFT_BPS, DEFAULT_HYSTERESIS_BPS,
    DEFAULT_MAX_POLICY_SLEW_BPS, MAX_KEEPERS, MAX_PRICE_FP, MAX_RETURN_ABS_FP, MAX_VAR_FP2,
    MAX_VOL_BPS, N_RETURNS, PRICE_FP_SCALE, RET_FP_SCALE,
};
pub use hedge_flow::{confirm_hedge, request_hedge, HedgeRequestOutcome};
pub use initialize::initialize_vault;
pub use keys::Address;
pub use oracle::{FeedQuote, OracleFeedChoice, PythPrice};
pub use oracle_update::{update_oracle_price, update_oracle_price_from_quotes, OracleUpdateOutcome};
pub use policy_update::{update_epoch_and_policy, EpochPolicyOutcome, PolicyStep};
pub use state::{InitializeParams, VaultState};
pub use vault_ops::{
    deposit_and_stake, deposit_keeper_bond, deposit_reserve, update_carry_inputs,
    update_implied_vol,
};
pub use volatility::VolMode;
