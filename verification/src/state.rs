//! The retention vault: its stored state and the amounts and times derived from it.

use vstd::prelude::*;

use anchor_lang::prelude::borsh::to_vec;

use crate::error::{Error, VeritaError};
use crate::keys::Pubkey;
use crate::runtime::unix_timestamp;

verus! {

/// Seed prefix of a vault's address: `vault` in ASCII.
pub const VAULT_SEED: [u8; 5] = [118, 97, 117, 108, 116];

/// Maximum stored `project_id` length in bytes (account sizing bound).
pub const MAX_PROJECT_ID_LEN: usize = 64;

pub const SECONDS_PER_DAY: i64 = 86_400;

pub const BPS_DENOMINATOR: u64 = 10_000;

// Vault status discriminants. Kept as `u8` so the account layout is stable and a
// client can map the values directly.
pub const STATUS_FUNDED: u8 = 0;

pub const STATUS_CPC_RELEASED: u8 = 1;

pub const STATUS_DISPUTED: u8 = 2;

pub const STATUS_NEUTRAL_LOCKED: u8 = 3;

pub const STATUS_CLOSED: u8 = 4;

/// Bytes of account data that precede the stored state: the account discriminator.
pub const DISCRIMINATOR_LEN: usize = 8;

/// Bytes of account data that a vault is created with: the discriminator and the most
/// that the stored state takes.
pub const VAULT_SPACE: usize = DISCRIMINATOR_LEN + RetentionVault::INIT_SPACE;

/// Which build of the program runs.
#[derive(Clone, Copy, Debug, PartialEq, Eq, Structural)]
pub enum Build {
    /// Time can be rolled forward by the demo authority.
    Demo,
    /// Time is the runtime's own; a stored offset is never read.
    Production,
}

/// One retention vault per (project, subcontractor, main contractor).
///
/// Its address is derived from the seeds `vault`, the sha256 of `project_id`, the
/// subcontractor and the main contractor. The project id is hashed so that a name
/// of any length fits the 32 bytes of a seed; the raw string is stored for display.
#[derive(Debug)]
pub struct RetentionVault {
    /// Main contractor who deposited the retention. Cannot withdraw after funding.
    pub main_contractor: Pubkey,
    /// Subcontractor: sole caller of `claim_release`.
    pub subcontractor: Pubkey,
    /// Authority for `attest_cpc`.
    pub certifier: Pubkey,
    /// Named adjudicator (adjudication path).
    pub adjudicator: Pubkey,
    /// Sole caller of `advance_clock` (demo builds only).
    pub demo_authority: Pubkey,
    /// Fronts the account rent and receives the refund on close.
    pub rent_payer: Pubkey,
    /// Mint; the zero key while the retention is native lamports.
    pub mint: Pubkey,
    /// Project identifier, stored for display and lookup.
    pub project_id: String,
    /// Total retention deposited, in lamports.
    pub amount: u64,
    /// Running total released, in lamports.
    pub released_cumulative: u64,
    /// Unix timestamp of practical completion.
    pub practical_completion_ts: i64,
    /// Length of the defects-liability period, in days.
    pub dlp_days: u32,
    /// Days of grace after that period before the backstop opens.
    pub grace_days: u32,
    /// First-moiety share in basis points.
    pub release_schedule_bps: u16,
    /// Whether the first-moiety certificate was attested.
    pub cpc_attested: bool,
    /// Sum of active freezes (adjudication path; zero until then).
    pub aggregate_frozen: u64,
    /// Count of active freezes (adjudication path; zero until then).
    pub active_freeze_count: u16,
    /// Cap on the sum of freezes (adjudication path).
    pub aggregate_freeze_cap: u64,
    /// Cap on the count of freezes (adjudication path).
    pub max_active_freezes: u16,
    /// Clock offset in seconds, read in demo builds only.
    pub clock_offset: i64,
    /// Current status: one of the `STATUS_*` constants.
    pub status: u8,
    /// Bump seed of the vault's address.
    pub bump: u8,
}

impl Clone for RetentionVault {
    fn clone(&self) -> (copy: RetentionVault)
        ensures
            copy == *self,
    {
        RetentionVault {
            main_contractor: self.main_contractor,
            subcontractor: self.subcontractor,
            certifier: self.certifier,
            adjudicator: self.adjudicator,
            demo_authority: self.demo_authority,
            rent_payer: self.rent_payer,
            mint: self.mint,
            project_id: self.project_id.clone(),
            amount: self.amount,
            released_cumulative: self.released_cumulative,
            practical_completion_ts: self.practical_completion_ts,
            dlp_days: self.dlp_days,
            grace_days: self.grace_days,
            release_schedule_bps: self.release_schedule_bps,
            cpc_attested: self.cpc_attested,
            aggregate_frozen: self.aggregate_frozen,
            active_freeze_count: self.active_freeze_count,
            aggregate_freeze_cap: self.aggregate_freeze_cap,
            max_active_freezes: self.max_active_freezes,
            clock_offset: self.clock_offset,
            status: self.status,
            bump: self.bump,
        }
    }
}

// ---------------------------------------------------------------------------
// Model
// ---------------------------------------------------------------------------
/// The byte that a flag is stored as.
pub open spec fn flag_byte(flag: bool) -> u8 {
    if flag {
        1
    } else {
        0
    }
}

impl RetentionVault {
    /// Most bytes that the stored state takes: seven keys, the project id with its
    /// length, and the scalars.
    pub const INIT_SPACE: usize = 357;

    /// Time at which the subcontractor's backstop opens.
    pub open spec fn backstop(self) -> int {
        self.practical_completion_ts + (self.dlp_days + self.grace_days) * SECONDS_PER_DAY
    }

    /// Undisputed retention that has not been released.
    pub open spec fn claimable(self) -> int {
        self.amount - self.released_cumulative - self.aggregate_frozen
    }

    /// Amount times share, before it is scaled down from basis points.
    pub open spec fn moiety_product(self) -> int {
        self.amount * self.release_schedule_bps
    }

    /// First moiety: the share of the amount, rounded down to whole lamports.
    pub open spec fn moiety(self) -> int {
        self.moiety_product() / BPS_DENOMINATOR as int
    }

    /// Time that the vault goes by when the runtime's clock answers `now`.
    pub open spec fn effective_time(self, build: Build, now: Result<i64, Error>) -> Result<
        i64,
        Error,
    > {
        match (now, build) {
            (Err(e), _) => Err(e),
            (Ok(now), Build::Production) => Ok(now),
            (Ok(now), Build::Demo) => if i64::MIN <= now + self.clock_offset <= i64::MAX {
                Ok((now + self.clock_offset) as i64)
            } else {
                Err(Error::Verita(VeritaError::MathOverflow))
            },
        }
    }

    /// Bytes of the project id.
    pub open spec fn project_id_bytes(self) -> Seq<u8> {
        vstd::utf8::encode_utf8(self.project_id@)
    }

    /// What every vault that the program has opened satisfies: the terms are within
    /// their bounds, nothing is frozen, and the released total is nothing, the
    /// certified first moiety, or the whole amount.
    pub open spec fn wf(self) -> bool {
        &&& self.amount > 0
        &&& 0 < self.release_schedule_bps <= BPS_DENOMINATOR
        &&& self.project_id_bytes().len() <= MAX_PROJECT_ID_LEN
        &&& self.mint@ == crate::keys::zero_key()
        &&& self.aggregate_frozen == 0
        &&& self.active_freeze_count == 0
        &&& self.aggregate_freeze_cap == 0
        &&& self.max_active_freezes == 0
        &&& self.status == STATUS_FUNDED || self.status == STATUS_CPC_RELEASED
        &&& self.cpc_attested == (self.status == STATUS_CPC_RELEASED)
        &&& self.released_cumulative == self.amount || self.released_cumulative == (
        if self.cpc_attested {
            self.moiety()
        } else {
            0
        })
        &&& self.cpc_attested ==> 0 < self.moiety() <= self.amount
    }

    /// The parties and the terms that were fixed at funding are the same in both.
    pub open spec fn same_terms(self, other: RetentionVault) -> bool {
        self == (RetentionVault {
            released_cumulative: self.released_cumulative,
            cpc_attested: self.cpc_attested,
            clock_offset: self.clock_offset,
            status: self.status,
            ..other
        })
    }

    /// Stored form of the keys.
    pub open spec fn keys_layout(self) -> Seq<u8> {
        self.main_contractor@ + self.subcontractor@ + self.certifier@ + self.adjudicator@
            + self.demo_authority@ + self.rent_payer@ + self.mint@
    }

    /// Stored form of the terms: the project id behind its length, then integers,
    /// lowest byte first.
    pub open spec fn terms_layout(self) -> Seq<u8> {
        vstd::bytes::spec_u32_to_le_bytes(self.project_id_bytes().len() as u32)
            + self.project_id_bytes()
            + vstd::bytes::spec_u64_to_le_bytes(self.amount)
            + vstd::bytes::spec_u64_to_le_bytes(self.released_cumulative)
            + vstd::bytes::spec_u64_to_le_bytes(self.practical_completion_ts as u64)
            + vstd::bytes::spec_u32_to_le_bytes(self.dlp_days)
            + vstd::bytes::spec_u32_to_le_bytes(self.grace_days)
            + vstd::bytes::spec_u16_to_le_bytes(self.release_schedule_bps)
    }

    /// Stored form of the flags, the freezes, the clock offset, the status and the bump.
    pub open spec fn progress_layout(self) -> Seq<u8> {
        seq![flag_byte(self.cpc_attested)]
            + vstd::bytes::spec_u64_to_le_bytes(self.aggregate_frozen)
            + vstd::bytes::spec_u16_to_le_bytes(self.active_freeze_count)
            + vstd::bytes::spec_u64_to_le_bytes(self.aggregate_freeze_cap)
            + vstd::bytes::spec_u16_to_le_bytes(self.max_active_freezes)
            + vstd::bytes::spec_u64_to_le_bytes(self.clock_offset as u64)
            + seq![self.status, self.bump]
    }

    /// Stored form of the whole state, field after field in declaration order.
    pub open spec fn layout(self) -> Seq<u8> {
        self.keys_layout() + self.terms_layout() + self.progress_layout()
    }
}

// ---------------------------------------------------------------------------
// Outside call
// ---------------------------------------------------------------------------
/// `borsh::to_vec` on the fields in declaration order. Borsh writes a tuple field after
/// field, a byte array as it is, a string as its length in four bytes and its
/// UTF-8, an integer lowest byte first in two's complement, and a flag as 0 or 1; it
/// fails only on a string whose length does not fit those four bytes.
#[verifier::external_body]
fn borsh_to_vec(v: &RetentionVault) -> (bytes: Option<Vec<u8>>)
    ensures
        bytes is Some <==> v.project_id_bytes().len() <= u32::MAX,
        bytes matches Some(b) ==> b@ == v.layout(),
{
    let parties = (v.main_contractor.bytes, v.subcontractor.bytes, v.certifier.bytes);
    let platform = (v.adjudicator.bytes, v.demo_authority.bytes, v.rent_payer.bytes, v.mint.bytes);
    let amounts = (&v.project_id, v.amount, v.released_cumulative, v.practical_completion_ts);
    let terms = (v.dlp_days, v.grace_days, v.release_schedule_bps, v.cpc_attested);
    let freezes = (v.aggregate_frozen, v.active_freeze_count, v.aggregate_freeze_cap);
    let rest = (v.max_active_freezes, v.clock_offset, v.status, v.bump);
    to_vec(&(parties, platform, amounts, terms, freezes, rest)).ok()
}

// ---------------------------------------------------------------------------
// Derived amounts and times
// ---------------------------------------------------------------------------
impl RetentionVault {
    /// Effective "now" when the runtime's clock answers `now`.
    ///
    /// In demo builds the stored `clock_offset` is added, so an operator can roll
    /// time forward. In production builds the offset is never read.
    pub fn effective_ts_from(&self, build: Build, now: Result<i64, Error>) -> (ts: Result<
        i64,
        Error,
    >)
        ensures
            ts == self.effective_time(build, now),
            build == Build::Production ==> ts == now,
            build == Build::Demo && now is Ok && ts is Ok ==> ts->Ok_0 == now->Ok_0
                + self.clock_offset,
    {
        match now {
            Err(e) => Err(e),
            Ok(now) => match build {
                Build::Production => Ok(now),
                Build::Demo => match now.checked_add(self.clock_offset) {
                    Some(ts) => Ok(ts),
                    None => Err(Error::Verita(VeritaError::MathOverflow)),
                },
            },
        }
    }

    /// Effective "now" used for every time comparison in the program.
    pub fn effective_ts(&self, build: Build) -> (ts: Result<i64, Error>)
        ensures
            exists|now: Result<i64, Error>| #[trigger]
                crate::runtime::clock_reply(now) && ts == self.effective_time(build, now),
            build == Build::Production ==> crate::runtime::clock_reply(ts),
    {
        let now = unix_timestamp();
        self.effective_ts_from(build, now)
    }

    /// Timestamp at which the subcontractor's unilateral backstop opens:
    /// `practical_completion_ts + dlp_days + grace_days`.
    pub fn backstop_ts(&self) -> (ts: Result<i64, Error>)
        ensures
            ts == (if self.backstop() <= i64::MAX {
                Ok(self.backstop() as i64)
            } else {
                Err(Error::Verita(VeritaError::MathOverflow))
            }),
            ts matches Ok(t) ==> t == self.practical_completion_ts + self.dlp_days * 86_400
                + self.grace_days * 86_400,
    {
        let dlp = match (self.dlp_days as i64).checked_mul(SECONDS_PER_DAY) {
            Some(seconds) => seconds,
            None => return Err(Error::Verita(VeritaError::MathOverflow)),
        };
        let grace = match (self.grace_days as i64).checked_mul(SECONDS_PER_DAY) {
            Some(seconds) => seconds,
            None => return Err(Error::Verita(VeritaError::MathOverflow)),
        };
        match self.practical_completion_ts.checked_add(dlp) {
            Some(after_dlp) => match after_dlp.checked_add(grace) {
                Some(ts) => Ok(ts),
                None => Err(Error::Verita(VeritaError::MathOverflow)),
            },
            None => Err(Error::Verita(VeritaError::MathOverflow)),
        }
    }

    /// Undisputed retention currently releasable:
    /// `amount - released_cumulative - aggregate_frozen`.
    pub fn claimable_now(&self) -> (lamports: Result<u64, Error>)
        ensures
            lamports == (if self.claimable() >= 0 {
                Ok(self.claimable() as u64)
            } else {
                Err(Error::Verita(VeritaError::MathOverflow))
            }),
            lamports matches Ok(rest) ==> rest + self.released_cumulative + self.aggregate_frozen
                == self.amount,
    {
        match self.amount.checked_sub(self.released_cumulative) {
            Some(unreleased) => match unreleased.checked_sub(self.aggregate_frozen) {
                Some(claimable) => Ok(claimable),
                None => Err(Error::Verita(VeritaError::MathOverflow)),
            },
            None => Err(Error::Verita(VeritaError::MathOverflow)),
        }
    }

    /// First moiety per the release schedule.
    pub fn first_moiety(&self) -> (lamports: Result<u64, Error>)
        ensures
            lamports == (if self.moiety_product() <= u64::MAX {
                Ok(self.moiety() as u64)
            } else {
                Err(Error::Verita(VeritaError::MathOverflow))
            }),
            lamports is Ok <==> self.amount * self.release_schedule_bps <= u64::MAX,
            lamports matches Ok(m) ==> m * 10_000 <= self.amount * self.release_schedule_bps < (m
                + 1) * 10_000,
    {
        match self.amount.checked_mul(self.release_schedule_bps as u64) {
            Some(product) => match product.checked_div(BPS_DENOMINATOR) {
                Some(moiety) => Ok(moiety),
                None => Err(Error::Verita(VeritaError::DivisionByZero)),
            },
            None => Err(Error::Verita(VeritaError::MathOverflow)),
        }
    }

    /// True once every lamport of retention has been released.
    pub fn is_fully_released(&self) -> (done: bool)
        ensures
            done == (self.released_cumulative == self.amount),
    {
        self.released_cumulative == self.amount
    }

    /// The stored form of the vault, without the account discriminator; `None` for a
    /// project id of more than `u32::MAX` bytes.
    pub fn serialize(&self) -> (bytes: Option<Vec<u8>>)
        ensures
            bytes is Some <==> self.project_id_bytes().len() <= u32::MAX,
            bytes matches Some(b) ==> b@ == self.layout(),
    {
        borsh_to_vec(self)
    }
}

} // verus!
