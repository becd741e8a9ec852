//! The instructions: each binds its accounts to the vault and then runs its handler.

use vstd::prelude::*;

use crate::accounts::{
    AdvanceClock, AdvanceClockArgs, AttestCpc, ClaimRelease, CloseVault, Creation, FundVault,
    FundVaultArgs, VaultAccount,
};
use crate::address::{derive_vault_address, find_vault_address};
use crate::error::{Error, VeritaError};
use crate::instructions::{
    handle_advance_clock, handle_attest_cpc_with, handle_claim_release_with, handle_close_vault,
    handle_fund_vault, Funding,
};
use crate::keys::Pubkey;
use crate::runtime::{rent_exempt_minimum, unix_timestamp};
use crate::state::{Build, STATUS_CLOSED, VAULT_SPACE};

verus! {

/// Whether `derived` is the key `key`.
fn is_key(derived: &Option<Pubkey>, key: &Pubkey) -> (same: bool)
    ensures
        same == (crate::address::key_bytes(*derived) == Some(key@)),
{
    broadcast use crate::keys::lemma_key_is_its_bytes;

    match derived {
        Some(d) => *d == *key,
        None => false,
    }
}

// ---------------------------------------------------------------------------
// fund_vault
// ---------------------------------------------------------------------------
/// What opening a vault comes to: the account that the system program creates, and then
/// the funding.
#[derive(Debug)]
pub struct Opening {
    pub creation: Creation,
    pub funding: Funding,
}

impl Opening {
    /// What the account `key` gains, or loses, when the creation and the transfer have
    /// been carried out.
    pub open spec fn gain(self, key: Pubkey) -> int {
        let created = self.creation;
        let paid = self.funding.transfer;
        (if key == created.account {
            created.lamports as int
        } else {
            0
        }) - (if key == created.payer {
            created.lamports as int
        } else {
            0
        }) + (if key == paid.to {
            paid.lamports as int
        } else {
            0
        }) - (if key == paid.from {
            paid.lamports as int
        } else {
            0
        })
    }

    /// `vault` is the account as the creation and the transfer leave it, on top of what
    /// its address held, once the state has been stored in it.
    pub open spec fn opens(self, accounts: FundVault, vault: VaultAccount) -> bool {
        &&& vault.info.key == self.creation.account
        &&& vault.info.lamports == accounts.vault.lamports + self.creation.lamports
            + self.funding.transfer.lamports
        &&& vault.data_len == self.creation.space
        &&& vault.state == self.funding.state
    }
}

/// Why the vault account cannot be created, given the address and bump that its seeds
/// derive and the rent-exempt minimum of its space.
pub open spec fn creation_refusal(
    accounts: FundVault,
    found: Option<(Pubkey, u8)>,
    rent: Result<u64, Error>,
) -> Option<Error> {
    match (rent, found) {
        (Err(e), _) => Some(e),
        (Ok(_), None) => Some(Error::ConstraintSeeds),
        (Ok(_), Some((key, _))) => if accounts.vault.key != key {
            Some(Error::ConstraintSeeds)
        } else if accounts.vault.lamports > 0 && accounts.rent_payer.info.key
            == accounts.vault.key {
            Some(Error::TryingToInitPayerAsProgramAccount)
        } else if accounts.vault.in_use {
            Some(Error::AccountAlreadyInUse)
        } else {
            None
        },
    }
}

/// The vault account as it is to be created: room for the largest state, and the rent
/// payer brings its balance up to the rent-exempt minimum.
pub open spec fn vault_creation(
    accounts: FundVault,
    program_id: Pubkey,
    rent_minimum: u64,
) -> Creation {
    Creation {
        payer: accounts.rent_payer.info.key,
        account: accounts.vault.key,
        lamports: if rent_minimum > accounts.vault.lamports {
            (rent_minimum - accounts.vault.lamports) as u64
        } else {
            0
        },
        space: VAULT_SPACE,
        owner: program_id,
    }
}

/// Decides on the creation of the vault account.
pub fn create_vault(
    accounts: &FundVault,
    program_id: &Pubkey,
    found: Option<(Pubkey, u8)>,
    rent: Result<u64, Error>,
) -> (creation: Result<Creation, Error>)
    ensures
        creation == (match creation_refusal(*accounts, found, rent) {
            Some(e) => Err(e),
            None => Ok(vault_creation(*accounts, *program_id, rent->Ok_0)),
        }),
{
    let rent_minimum: u64 = match rent {
        Ok(rent_minimum) => rent_minimum,
        Err(e) => return Err(e),
    };
    match found {
        None => return Err(Error::ConstraintSeeds),
        Some((key, _)) => {
            if accounts.vault.key != key {
                return Err(Error::ConstraintSeeds);
            }
        },
    }
    if accounts.vault.lamports > 0 && accounts.rent_payer.info.key == accounts.vault.key {
        return Err(Error::TryingToInitPayerAsProgramAccount);
    }
    if accounts.vault.in_use {
        return Err(Error::AccountAlreadyInUse);
    }
    let lamports: u64 = if rent_minimum > accounts.vault.lamports {
        rent_minimum - accounts.vault.lamports
    } else {
        0
    };
    Ok(
        Creation {
            payer: accounts.rent_payer.info.key,
            account: accounts.vault.key,
            lamports,
            space: VAULT_SPACE,
            owner: *program_id,
        },
    )
}

/// The vault cannot be created, or the handler decides on the funding.
pub open spec fn fund_vault_result(
    accounts: FundVault,
    args: FundVaultArgs,
    program_id: Pubkey,
    found: Option<(Pubkey, u8)>,
    rent: Result<u64, Error>,
    opening: Result<Opening, Error>,
) -> bool {
    match creation_refusal(accounts, found, rent) {
        Some(e) => opening == Err::<Opening, Error>(e),
        None => {
            let bump = found->Some_0.1;
            match opening {
                Ok(o) => {
                    &&& o.creation == vault_creation(accounts, program_id, rent->Ok_0)
                    &&& crate::instructions::funding_result(accounts, args, bump, Ok(o.funding))
                },
                Err(e) => crate::instructions::funding_result(accounts, args, bump, Err(e)),
            }
        },
    }
}

/// Main contractor deposits the retention, given the address and bump that the
/// project, the subcontractor and the contractor derive and the rent-exempt minimum of a
/// vault.
pub fn fund_vault_with(
    accounts: &FundVault,
    args: FundVaultArgs,
    program_id: &Pubkey,
    found: Option<(Pubkey, u8)>,
    rent: Result<u64, Error>,
) -> (opening: Result<Opening, Error>)
    ensures
        fund_vault_result(*accounts, args, *program_id, found, rent, opening),
        opening matches Ok(o) ==> o.funding.state.wf(),
{
    let creation = match create_vault(accounts, program_id, found, rent) {
        Ok(creation) => creation,
        Err(e) => return Err(e),
    };
    match found {
        None => Err(Error::ConstraintSeeds),
        Some((_, bump)) => match handle_fund_vault(accounts, args, bump) {
            Ok(funding) => Ok(Opening { creation, funding }),
            Err(e) => Err(e),
        },
    }
}

/// Main contractor deposits the retention; the rent payer fronts the account rent.
/// From this point the funds sit in an account that the program owns, and the
/// contractor has no withdrawal path.
pub fn fund_vault(accounts: &FundVault, args: FundVaultArgs, program_id: &Pubkey) -> (opening:
    Result<Opening, Error>)
    ensures
        exists|found: Option<(Pubkey, u8)>, rent: Result<u64, Error>|
            {
                &&& #[trigger] crate::address::is_canonical_address(
                    crate::address::vault_seeds(
                        args.project_id@,
                        args.subcontractor,
                        accounts.main_contractor.info.key,
                    ),
                    program_id@,
                    found,
                )
                &&& #[trigger] crate::runtime::rent_reply(VAULT_SPACE, rent)
                &&& fund_vault_result(*accounts, args, *program_id, found, rent, opening)
            },
        opening matches Ok(o) ==> o.funding.state.wf(),
{
    let rent = rent_exempt_minimum(VAULT_SPACE);
    let found = find_vault_address(
        args.project_id.as_str(),
        &args.subcontractor,
        &accounts.main_contractor.info.key,
        program_id,
    );
    fund_vault_with(accounts, args, program_id, found, rent)
}

// ---------------------------------------------------------------------------
// claim_release
// ---------------------------------------------------------------------------
/// Why the accounts of a claim do not belong to the vault.
pub open spec fn claim_binding_refusal(accounts: ClaimRelease, derived: Option<Seq<u8>>) -> Option<
    Error,
> {
    if derived != Some(accounts.vault.info.key@) {
        Some(Error::ConstraintSeeds)
    } else if accounts.vault.state.subcontractor != accounts.subcontractor.info.key {
        Some(Error::Verita(VeritaError::Unauthorized))
    } else if accounts.vault.state.rent_payer != accounts.rent_payer.info.key {
        Some(Error::Verita(VeritaError::Unauthorized))
    } else {
        None
    }
}

/// The accounts are not the vault's and nothing changes, or the handler decides.
pub open spec fn claim_release_result(
    before: ClaimRelease,
    derived: Option<Seq<u8>>,
    build: Build,
    now: Result<i64, Error>,
    rent: Result<u64, Error>,
    after: ClaimRelease,
    done: Result<(), Error>,
) -> bool {
    match claim_binding_refusal(before, derived) {
        Some(e) => done == Err::<(), Error>(e) && after == before,
        None => crate::instructions::claim_result(before, build, now, rent, after, done),
    }
}

/// Checks that the accounts of a claim belong to the vault, given the address that
/// the vault's fields derive.
pub fn bind_claim_release(accounts: &ClaimRelease, derived: Option<Pubkey>) -> (bound: Result<
    (),
    Error,
>)
    ensures
        bound == (match claim_binding_refusal(*accounts, crate::address::key_bytes(derived)) {
            Some(e) => Err(e),
            None => Ok(()),
        }),
{
    if !is_key(&derived, &accounts.vault.info.key) {
        return Err(Error::ConstraintSeeds);
    }
    if accounts.vault.state.subcontractor != accounts.subcontractor.info.key {
        return Err(Error::Verita(VeritaError::Unauthorized));
    }
    if accounts.vault.state.rent_payer != accounts.rent_payer.info.key {
        return Err(Error::Verita(VeritaError::Unauthorized));
    }
    Ok(())
}

/// Subcontractor releases everything undisputed, given the address that the vault's
/// fields derive and the runtime's answers.
pub fn claim_release_with(
    accounts: &mut ClaimRelease,
    derived: Option<Pubkey>,
    build: Build,
    now: Result<i64, Error>,
    rent: Result<u64, Error>,
) -> (done: Result<(), Error>)
    ensures
        claim_release_result(
            *old(accounts),
            crate::address::key_bytes(derived),
            build,
            now,
            rent,
            *final(accounts),
            done,
        ),
        old(accounts).vault.state.wf() ==> final(accounts).vault.state.wf(),
{
    match bind_claim_release(accounts, derived) {
        Err(e) => Err(e),
        Ok(()) => handle_claim_release_with(accounts, build, now, rent),
    }
}

/// Subcontractor unilaterally releases everything undisputed once the time-backstop
/// has passed. Requires no counterparty signature.
pub fn claim_release(accounts: &mut ClaimRelease, program_id: &Pubkey, build: Build) -> (done:
    Result<(), Error>)
    ensures
        match claim_binding_refusal(
            *old(accounts),
            crate::address::stored_address(old(accounts).vault.state, *program_id),
        ) {
            Some(e) => done == Err::<(), Error>(e) && *final(accounts) == *old(accounts),
            None => exists|now: Result<i64, Error>, rent: Result<u64, Error>|
                {
                    &&& #[trigger] crate::runtime::clock_reply(now)
                    &&& #[trigger] crate::runtime::rent_reply(old(accounts).vault.data_len, rent)
                    &&& crate::instructions::claim_result(
                        *old(accounts),
                        build,
                        now,
                        rent,
                        *final(accounts),
                        done,
                    )
                },
        },
        done is Ok ==> exists|t: i64|
            {
                let v = old(accounts).vault.state;
                let opens = v.practical_completion_ts + v.dlp_days * 86_400 + v.grace_days * 86_400;
                &&& #[trigger] crate::provenance::clock_answered(Ok(t))
                &&& build == Build::Production ==> t >= opens
                &&& build == Build::Demo ==> t + v.clock_offset >= opens
            },
        old(accounts).vault.state.wf() ==> final(accounts).vault.state.wf(),
{
    let derived = derive_vault_address(&accounts.vault.state, program_id);
    let now = unix_timestamp();
    let rent = rent_exempt_minimum(accounts.vault.data_len);
    let done = claim_release_with(accounts, derived, build, now, rent);
    proof {
        if done is Ok {
            crate::effects::law_claim_goes_by_the_runtimes_clock(
                *old(accounts),
                build,
                now,
                rent,
                *accounts,
                done,
            );
        }
    }
    done
}

// ---------------------------------------------------------------------------
// attest_cpc
// ---------------------------------------------------------------------------
/// Why the accounts of an attestation do not belong to the vault.
pub open spec fn attest_binding_refusal(accounts: AttestCpc, derived: Option<Seq<u8>>) -> Option<
    Error,
> {
    if derived != Some(accounts.vault.info.key@) {
        Some(Error::ConstraintSeeds)
    } else if accounts.vault.state.certifier != accounts.certifier.info.key {
        Some(Error::Verita(VeritaError::Unauthorized))
    } else if accounts.vault.state.subcontractor != accounts.subcontractor.info.key {
        Some(Error::Verita(VeritaError::Unauthorized))
    } else {
        None
    }
}

/// The accounts are not the vault's and nothing changes, or the handler decides.
pub open spec fn attest_cpc_result(
    before: AttestCpc,
    derived: Option<Seq<u8>>,
    rent: Result<u64, Error>,
    after: AttestCpc,
    done: Result<(), Error>,
) -> bool {
    match attest_binding_refusal(before, derived) {
        Some(e) => done == Err::<(), Error>(e) && after == before,
        None => crate::instructions::attest_result(before, rent, after, done),
    }
}

/// Checks that the accounts of an attestation belong to the vault, given the address
/// that the vault's fields derive.
pub fn bind_attest_cpc(accounts: &AttestCpc, derived: Option<Pubkey>) -> (bound: Result<(), Error>)
    ensures
        bound == (match attest_binding_refusal(*accounts, crate::address::key_bytes(derived)) {
            Some(e) => Err(e),
            None => Ok(()),
        }),
{
    if !is_key(&derived, &accounts.vault.info.key) {
        return Err(Error::ConstraintSeeds);
    }
    if accounts.vault.state.certifier != accounts.certifier.info.key {
        return Err(Error::Verita(VeritaError::Unauthorized));
    }
    if accounts.vault.state.subcontractor != accounts.subcontractor.info.key {
        return Err(Error::Verita(VeritaError::Unauthorized));
    }
    Ok(())
}

/// Certifier releases the first moiety, given the address that the vault's fields
/// derive and the runtime's answer.
pub fn attest_cpc_with(
    accounts: &mut AttestCpc,
    derived: Option<Pubkey>,
    rent: Result<u64, Error>,
) -> (done: Result<(), Error>)
    ensures
        attest_cpc_result(
            *old(accounts),
            crate::address::key_bytes(derived),
            rent,
            *final(accounts),
            done,
        ),
        old(accounts).vault.state.wf() ==> final(accounts).vault.state.wf(),
{
    match bind_attest_cpc(accounts, derived) {
        Err(e) => Err(e),
        Ok(()) => handle_attest_cpc_with(accounts, rent),
    }
}

/// Certifier releases the first moiety: the normal fast path.
pub fn attest_cpc(accounts: &mut AttestCpc, program_id: &Pubkey) -> (done: Result<(), Error>)
    ensures
        match attest_binding_refusal(
            *old(accounts),
            crate::address::stored_address(old(accounts).vault.state, *program_id),
        ) {
            Some(e) => done == Err::<(), Error>(e) && *final(accounts) == *old(accounts),
            None => exists|rent: Result<u64, Error>|
                {
                    &&& #[trigger] crate::runtime::rent_reply(old(accounts).vault.data_len, rent)
                    &&& crate::instructions::attest_result(
                        *old(accounts),
                        rent,
                        *final(accounts),
                        done,
                    )
                },
        },
        old(accounts).vault.state.wf() ==> final(accounts).vault.state.wf(),
{
    let derived = derive_vault_address(&accounts.vault.state, program_id);
    let rent = rent_exempt_minimum(accounts.vault.data_len);
    attest_cpc_with(accounts, derived, rent)
}

// ---------------------------------------------------------------------------
// close_vault
// ---------------------------------------------------------------------------
/// Why a vault cannot be closed.
pub open spec fn close_refusal(accounts: CloseVault, derived: Option<Seq<u8>>) -> Option<Error> {
    if derived != Some(accounts.vault.info.key@) {
        Some(Error::ConstraintSeeds)
    } else if accounts.vault.state.rent_payer != accounts.rent_payer.info.key {
        Some(Error::Verita(VeritaError::Unauthorized))
    } else if accounts.vault.state.status == STATUS_CLOSED {
        Some(Error::Verita(VeritaError::AlreadyClosed))
    } else if accounts.vault.state.released_cumulative != accounts.vault.state.amount {
        Some(Error::Verita(VeritaError::NonzeroResidual))
    } else if accounts.vault.state.aggregate_frozen != 0 {
        Some(Error::Verita(VeritaError::NonzeroResidual))
    } else {
        crate::instructions::payout_refusal(accounts)
    }
}

/// The vault was closed, or that was refused and changed nothing.
pub open spec fn close_vault_result(
    before: CloseVault,
    derived: Option<Seq<u8>>,
    after: CloseVault,
    done: Result<(), Error>,
) -> bool {
    match close_refusal(before, derived) {
        Some(e) => done == Err::<(), Error>(e) && after == before,
        None => done is Ok && after == crate::instructions::closed(before),
    }
}

/// Closes a vault whose retention has all been released, given the address that the
/// vault's fields derive.
pub fn close_vault_with(accounts: &mut CloseVault, derived: Option<Pubkey>) -> (done: Result<
    (),
    Error,
>)
    ensures
        close_vault_result(*old(accounts), crate::address::key_bytes(derived), *final(accounts), done),
{
    if !is_key(&derived, &accounts.vault.info.key) {
        return Err(Error::ConstraintSeeds);
    }
    if accounts.vault.state.rent_payer != accounts.rent_payer.info.key {
        return Err(Error::Verita(VeritaError::Unauthorized));
    }
    if accounts.vault.state.status == STATUS_CLOSED {
        return Err(Error::Verita(VeritaError::AlreadyClosed));
    }
    if !accounts.vault.state.is_fully_released() {
        return Err(Error::Verita(VeritaError::NonzeroResidual));
    }
    if accounts.vault.state.aggregate_frozen != 0 {
        return Err(Error::Verita(VeritaError::NonzeroResidual));
    }
    handle_close_vault(accounts)
}

/// Permissionless finalizer once all retention has been released. Refunds the rent
/// reserve to the stored `rent_payer`, never the contractor.
pub fn close_vault(accounts: &mut CloseVault, program_id: &Pubkey) -> (done: Result<(), Error>)
    ensures
        close_vault_result(
            *old(accounts),
            crate::address::stored_address(old(accounts).vault.state, *program_id),
            *final(accounts),
            done,
        ),
{
    let derived = derive_vault_address(&accounts.vault.state, program_id);
    close_vault_with(accounts, derived)
}

// ---------------------------------------------------------------------------
// advance_clock (demo builds only)
// ---------------------------------------------------------------------------
/// Why the clock cannot be rolled.
pub open spec fn clock_refusal(
    accounts: AdvanceClock,
    build: Build,
    derived: Option<Seq<u8>>,
) -> Option<Error> {
    if build == Build::Production {
        Some(Error::InstructionFallbackNotFound)
    } else if derived != Some(accounts.vault.info.key@) {
        Some(Error::ConstraintSeeds)
    } else if accounts.vault.state.demo_authority != accounts.demo_authority.info.key {
        Some(Error::Verita(VeritaError::Unauthorized))
    } else {
        None
    }
}

/// The clock was rolled, or that was refused and changed nothing.
pub open spec fn advance_clock_result(
    before: AdvanceClock,
    args: AdvanceClockArgs,
    build: Build,
    derived: Option<Seq<u8>>,
    after: AdvanceClock,
    done: Result<(), Error>,
) -> bool {
    match clock_refusal(before, build, derived) {
        Some(e) => done == Err::<(), Error>(e) && after == before,
        None => {
            &&& done is Ok
            &&& after == (AdvanceClock {
                vault: crate::instructions::clock_set(before.vault, args.new_offset),
                ..before
            })
        },
    }
}

/// Rolls the effective clock, given the address that the vault's fields derive.
pub fn advance_clock_with(
    accounts: &mut AdvanceClock,
    args: AdvanceClockArgs,
    build: Build,
    derived: Option<Pubkey>,
) -> (done: Result<(), Error>)
    ensures
        advance_clock_result(
            *old(accounts),
            args,
            build,
            crate::address::key_bytes(derived),
            *final(accounts),
            done,
        ),
        old(accounts).vault.state.wf() ==> final(accounts).vault.state.wf(),
{
    match build {
        Build::Production => return Err(Error::InstructionFallbackNotFound),
        Build::Demo => {},
    }
    if !is_key(&derived, &accounts.vault.info.key) {
        return Err(Error::ConstraintSeeds);
    }
    if accounts.vault.state.demo_authority != accounts.demo_authority.info.key {
        return Err(Error::Verita(VeritaError::Unauthorized));
    }
    handle_advance_clock(accounts, args)
}

/// Demo only: rolls the effective clock. A production build does not have the
/// instruction.
pub fn advance_clock(
    accounts: &mut AdvanceClock,
    args: AdvanceClockArgs,
    program_id: &Pubkey,
    build: Build,
) -> (done: Result<(), Error>)
    ensures
        advance_clock_result(
            *old(accounts),
            args,
            build,
            crate::address::stored_address(old(accounts).vault.state, *program_id),
            *final(accounts),
            done,
        ),
        old(accounts).vault.state.wf() ==> final(accounts).vault.state.wf(),
{
    let derived = derive_vault_address(&accounts.vault.state, program_id);
    advance_clock_with(accounts, args, build, derived)
}

} // verus!
