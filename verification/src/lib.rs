//! Retention vault: construction retention held in an account that the program owns.
//!
//! The main contractor pays the retention in and cannot claw it back. A certifier can
//! release the first moiety; once the defects-liability period plus grace has elapsed,
//! the subcontractor releases everything undisputed with no counterparty signature.
//! When all of it is released, anybody can close the vault, and the rent reserve goes
//! back to the party that fronted it.

pub mod accounts;
pub mod address;
pub mod effects;
pub mod error;
pub mod history;
pub mod instructions;
pub mod keys;
pub mod laws;
pub mod program;
pub mod provenance;
pub mod rent;
pub mod runtime;
pub mod state;

pub use error::{Error, VeritaError};
pub use instructions::{
    AdvanceClock, AdvanceClockArgs, AttestCpc, ClaimRelease, CloseVault, FundVault, FundVaultArgs,
    Funding,
};
pub use keys::Pubkey;
pub use program::{advance_clock, attest_cpc, claim_release, close_vault, fund_vault, Opening};
pub use state::{Build, RetentionVault};
