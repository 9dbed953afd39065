//! Custodial vesting engine: a vault funds per-beneficiary allocations that
//! unlock on a fixed schedule, plus an owner-only direct-send path.
//!
//! The library decides; the hosting program performs what it decides. Every
//! operation takes the current time and balances as plain values and hands
//! back the transfer it authorises.

pub mod accounts;
pub mod error;
pub mod ledger;
pub mod schedule;
pub mod vesting;

pub use accounts::{
    AccountKey, ClaimAccount, TokenVault, TokensClaimed, TokensSentToOkx, TransferAuthority,
    TransferRequest, TreasurySeeds, MAX_VAULT_NAME_LEN,
};
pub use error::PepeDropError;
pub use schedule::{calculate_available_tokens, VestingSchedule};
pub use vesting::{
    claim_tokens, create_claim_account, initialize_token_vault, initialize_token_vault_for_okx,
    send_tokens_to_okx,
};
