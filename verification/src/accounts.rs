//! The accounts that an instruction is handed: keys, balances and the vault's state.
//!
//! The accounts of one instruction are distinct wherever its balance changes: a
//! vault's address is derived and has no private key, so it neither signs nor is a
//! wallet.

use vstd::prelude::*;

use crate::keys::Pubkey;
use crate::state::RetentionVault;

verus! {

/// Key and balance of an account.
#[derive(Clone, Copy, Debug)]
pub struct AccountInfo {
    pub key: Pubkey,
    pub lamports: u64,
}

/// An account that has signed the transaction.
#[derive(Clone, Copy, Debug)]
pub struct Signer {
    pub info: AccountInfo,
}

/// An account that the system program owns: a wallet, which need not have signed.
#[derive(Clone, Copy, Debug)]
pub struct SystemAccount {
    pub info: AccountInfo,
}

/// An account that is to be created.
#[derive(Clone, Copy, Debug)]
pub struct NewAccount {
    pub key: Pubkey,
    /// What somebody has sent to the address already.
    pub lamports: u64,
    /// Whether the account holds data, or belongs to a program, already.
    pub in_use: bool,
}

/// An account that the program owns and that stores a vault.
#[derive(Debug)]
pub struct VaultAccount {
    pub info: AccountInfo,
    /// Bytes of account data; zero once the account is closed.
    pub data_len: usize,
    pub state: RetentionVault,
}

impl AccountInfo {
    /// The account with `lamports` more.
    pub open spec fn credited(self, lamports: int) -> AccountInfo {
        AccountInfo { lamports: (self.lamports + lamports) as u64, ..self }
    }

    /// The account with `lamports` less.
    pub open spec fn debited(self, lamports: int) -> AccountInfo {
        AccountInfo { lamports: (self.lamports - lamports) as u64, ..self }
    }
}

/// A movement of lamports from one account to another.
#[derive(Clone, Copy, Debug)]
pub struct Transfer {
    pub from: Pubkey,
    pub to: Pubkey,
    pub lamports: u64,
}

/// An account that the system program is to create: `payer` adds `lamports` to what the
/// address holds, and the account gets `space` bytes of data and goes to `owner`.
#[derive(Clone, Copy, Debug)]
pub struct Creation {
    pub payer: Pubkey,
    pub account: Pubkey,
    pub lamports: u64,
    pub space: usize,
    pub owner: Pubkey,
}

/// Accounts of `fund_vault`.
#[derive(Clone, Copy, Debug)]
pub struct FundVault {
    /// Deposits the retention. Has no withdrawal path after this.
    pub main_contractor: Signer,
    /// Funds the account rent, receives it back on close.
    pub rent_payer: Signer,
    /// The vault to be created.
    pub vault: NewAccount,
}

/// Arguments of `fund_vault`.
#[derive(Debug)]
pub struct FundVaultArgs {
    pub project_id: String,
    pub amount: u64,
    pub practical_completion_ts: i64,
    pub dlp_days: u32,
    pub grace_days: u32,
    pub release_schedule_bps: u16,
    pub subcontractor: Pubkey,
    pub certifier: Pubkey,
    pub adjudicator: Pubkey,
    pub demo_authority: Pubkey,
}

/// Accounts of `claim_release`.
#[derive(Debug)]
pub struct ClaimRelease {
    pub subcontractor: Signer,
    pub vault: VaultAccount,
    /// Not a signer and not paid here.
    pub rent_payer: SystemAccount,
}

/// Accounts of `attest_cpc`.
#[derive(Debug)]
pub struct AttestCpc {
    pub certifier: Signer,
    pub vault: VaultAccount,
    /// Receives the first moiety.
    pub subcontractor: SystemAccount,
}

/// Accounts of `close_vault`.
#[derive(Debug)]
pub struct CloseVault {
    /// Receives the rent reserve.
    pub rent_payer: SystemAccount,
    pub vault: VaultAccount,
}

/// Accounts of `advance_clock`.
#[derive(Debug)]
pub struct AdvanceClock {
    pub demo_authority: Signer,
    pub vault: VaultAccount,
}

/// Arguments of `advance_clock`.
#[derive(Clone, Copy, Debug)]
pub struct AdvanceClockArgs {
    /// Absolute offset: the effective time is the runtime's time plus this.
    pub new_offset: i64,
}

} // verus!
