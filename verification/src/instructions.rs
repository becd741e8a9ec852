//! The handlers: what each instruction does once its accounts are bound to the vault.

use vstd::prelude::*;

pub use crate::accounts::{
    AccountInfo, AdvanceClock, AdvanceClockArgs, AttestCpc, ClaimRelease, CloseVault, Creation,
    FundVault, FundVaultArgs, NewAccount, Signer, SystemAccount, Transfer, VaultAccount,
};
pub use crate::address::project_seed;

use crate::error::{Error, VeritaError};
use crate::keys::Pubkey;
use crate::runtime::{rent_exempt_minimum, unix_timestamp};
use crate::state::{
    Build, RetentionVault, BPS_DENOMINATOR, MAX_PROJECT_ID_LEN, STATUS_CPC_RELEASED, STATUS_FUNDED,
};

verus! {

// ---------------------------------------------------------------------------
// Moving retention out of a vault
// ---------------------------------------------------------------------------
/// Why a release of `lamports` from a vault to a recipient is refused, for a given
/// answer to the request for the vault's rent-exempt minimum.
pub open spec fn release_refusal(
    vault: AccountInfo,
    recipient: AccountInfo,
    lamports: int,
    rent: Result<u64, Error>,
) -> Option<Error> {
    match rent {
        Err(e) => Some(e),
        Ok(rent_minimum) => if vault.lamports < lamports {
            Some(Error::Verita(VeritaError::MathOverflow))
        } else if vault.lamports - lamports < rent_minimum {
            Some(Error::Verita(VeritaError::RentExemptViolation))
        } else if recipient.lamports + lamports > u64::MAX {
            Some(Error::Verita(VeritaError::MathOverflow))
        } else {
            None
        },
    }
}

/// A release went through, or it was refused and left both accounts as they were.
pub open spec fn release_result(
    vault: VaultAccount,
    recipient: AccountInfo,
    lamports: int,
    rent: Result<u64, Error>,
    vault_after: VaultAccount,
    recipient_after: AccountInfo,
    done: Result<(), Error>,
) -> bool {
    match release_refusal(vault.info, recipient, lamports, rent) {
        Some(e) => {
            &&& done == Err::<(), Error>(e)
            &&& vault_after == vault
            &&& recipient_after == recipient
        },
        None => {
            &&& done is Ok
            &&& vault_after == (VaultAccount { info: vault.info.debited(lamports), ..vault })
            &&& recipient_after == recipient.credited(lamports)
        },
    }
}

/// Moves `lamports` of retention from the vault to `recipient`, given the vault's
/// rent-exempt minimum. The vault never drops below that minimum, so the rent
/// reserve is never paid out as retention.
pub fn release_from_vault(
    vault: &mut VaultAccount,
    recipient: &mut AccountInfo,
    lamports: u64,
    rent: Result<u64, Error>,
) -> (done: Result<(), Error>)
    ensures
        release_result(
            *old(vault),
            *old(recipient),
            lamports as int,
            rent,
            *final(vault),
            *final(recipient),
            done,
        ),
{
    let rent_minimum: u64 = match rent {
        Ok(rent_minimum) => rent_minimum,
        Err(e) => return Err(e),
    };
    let vault_post: u64 = match vault.info.lamports.checked_sub(lamports) {
        Some(vault_post) => vault_post,
        None => return Err(Error::Verita(VeritaError::MathOverflow)),
    };
    if vault_post < rent_minimum {
        return Err(Error::Verita(VeritaError::RentExemptViolation));
    }
    let recipient_post: u64 = match recipient.lamports.checked_add(lamports) {
        Some(recipient_post) => recipient_post,
        None => return Err(Error::Verita(VeritaError::MathOverflow)),
    };
    vault.info.lamports = vault_post;
    recipient.lamports = recipient_post;
    Ok(())
}

// ---------------------------------------------------------------------------
// fund_vault
// ---------------------------------------------------------------------------
/// What funding a vault comes to: the lamports that the main contractor pays in,
/// and the state that is stored once they have arrived.
#[derive(Debug)]
pub struct Funding {
    pub transfer: Transfer,
    pub state: RetentionVault,
}

/// Why the arguments of a funding are refused.
pub open spec fn funding_refusal(args: FundVaultArgs) -> Option<VeritaError> {
    if vstd::utf8::encode_utf8(args.project_id@).len() > MAX_PROJECT_ID_LEN {
        Some(VeritaError::ProjectIdTooLong)
    } else if args.amount == 0 {
        Some(VeritaError::InvalidAmount)
    } else if args.release_schedule_bps == 0 || args.release_schedule_bps > BPS_DENOMINATOR {
        Some(VeritaError::InvalidReleaseSchedule)
    } else {
        None
    }
}

/// `v` is a vault on the terms of `args`, of which nothing has been released.
pub open spec fn is_opening_state(
    accounts: FundVault,
    args: FundVaultArgs,
    bump: u8,
    v: RetentionVault,
) -> bool {
    &&& v.main_contractor == accounts.main_contractor.info.key
    &&& v.subcontractor == args.subcontractor
    &&& v.certifier == args.certifier
    &&& v.adjudicator == args.adjudicator
    &&& v.demo_authority == args.demo_authority
    &&& v.rent_payer == accounts.rent_payer.info.key
    &&& v.mint@ == crate::keys::zero_key()
    &&& v.project_id == args.project_id
    &&& v.amount == args.amount
    &&& v.released_cumulative == 0
    &&& v.practical_completion_ts == args.practical_completion_ts
    &&& v.dlp_days == args.dlp_days
    &&& v.grace_days == args.grace_days
    &&& v.release_schedule_bps == args.release_schedule_bps
    &&& !v.cpc_attested
    &&& v.aggregate_frozen == 0
    &&& v.active_freeze_count == 0
    &&& v.aggregate_freeze_cap == 0
    &&& v.max_active_freezes == 0
    &&& v.clock_offset == 0
    &&& v.status == STATUS_FUNDED
    &&& v.bump == bump
}

/// The funding is refused for its arguments, or it moves exactly the amount from
/// the main contractor to the vault and stores the opening state.
pub open spec fn funding_result(
    accounts: FundVault,
    args: FundVaultArgs,
    bump: u8,
    funding: Result<Funding, Error>,
) -> bool {
    match funding_refusal(args) {
        Some(e) => funding == Err::<Funding, Error>(Error::Verita(e)),
        None => {
            &&& funding is Ok
            &&& funding->Ok_0.transfer == (Transfer {
                from: accounts.main_contractor.info.key,
                to: accounts.vault.key,
                lamports: args.amount,
            })
            &&& is_opening_state(accounts, args, bump, funding->Ok_0.state)
        },
    }
}

/// Decides on a funding whose vault was created at the address with bump `bump`.
///
/// The transfer has to be made by the system program, because the contractor's
/// account is not the program's to debit. From then on the funds are outside the
/// contractor's control.
pub fn handle_fund_vault(accounts: &FundVault, args: FundVaultArgs, bump: u8) -> (funding: Result<
    Funding,
    Error,
>)
    ensures
        funding_result(*accounts, args, bump, funding),
        funding matches Ok(f) ==> f.state.wf(),
{
    if args.project_id.as_str().as_bytes().len() > MAX_PROJECT_ID_LEN {
        return Err(Error::Verita(VeritaError::ProjectIdTooLong));
    }
    if args.amount == 0 {
        return Err(Error::Verita(VeritaError::InvalidAmount));
    }
    if !(args.release_schedule_bps > 0 && args.release_schedule_bps as u64 <= BPS_DENOMINATOR) {
        return Err(Error::Verita(VeritaError::InvalidReleaseSchedule));
    }
    let transfer = Transfer {
        from: accounts.main_contractor.info.key,
        to: accounts.vault.key,
        lamports: args.amount,
    };
    let state = RetentionVault {
        main_contractor: accounts.main_contractor.info.key,
        subcontractor: args.subcontractor,
        certifier: args.certifier,
        adjudicator: args.adjudicator,
        demo_authority: args.demo_authority,
        rent_payer: accounts.rent_payer.info.key,
        mint: Pubkey::default(),
        project_id: args.project_id,
        amount: args.amount,
        released_cumulative: 0,
        practical_completion_ts: args.practical_completion_ts,
        dlp_days: args.dlp_days,
        grace_days: args.grace_days,
        release_schedule_bps: args.release_schedule_bps,
        cpc_attested: false,
        aggregate_frozen: 0,
        active_freeze_count: 0,
        aggregate_freeze_cap: 0,
        max_active_freezes: 0,
        clock_offset: 0,
        status: STATUS_FUNDED,
        bump,
    };
    Ok(Funding { transfer, state })
}

// ---------------------------------------------------------------------------
// claim_release
// ---------------------------------------------------------------------------
/// Why a claim of everything undisputed is refused.
pub open spec fn claim_refusal(
    vault: VaultAccount,
    recipient: AccountInfo,
    build: Build,
    now: Result<i64, Error>,
    rent: Result<u64, Error>,
) -> Option<Error> {
    let v = vault.state;
    if v.status != STATUS_FUNDED && v.status != STATUS_CPC_RELEASED {
        Some(Error::Verita(VeritaError::VaultNotClaimable))
    } else {
        match v.effective_time(build, now) {
            Err(e) => Some(e),
            Ok(ts) => if v.backstop() > i64::MAX {
                Some(Error::Verita(VeritaError::MathOverflow))
            } else if ts < v.backstop() {
                Some(Error::Verita(VeritaError::BackstopNotReached))
            } else if v.claimable() < 0 {
                Some(Error::Verita(VeritaError::MathOverflow))
            } else if v.claimable() == 0 {
                Some(Error::Verita(VeritaError::NothingToClaim))
            } else {
                release_refusal(vault.info, recipient, v.claimable(), rent)
            },
        }
    }
}

/// The vault after everything undisputed has left it.
pub open spec fn claimed(vault: VaultAccount) -> VaultAccount {
    VaultAccount {
        info: vault.info.debited(vault.state.claimable()),
        state: RetentionVault {
            released_cumulative: (vault.state.released_cumulative + vault.state.claimable()) as u64,
            ..vault.state
        },
        ..vault
    }
}

/// The claim went through, or it was refused and changed nothing.
pub open spec fn claim_result(
    before: ClaimRelease,
    build: Build,
    now: Result<i64, Error>,
    rent: Result<u64, Error>,
    after: ClaimRelease,
    done: Result<(), Error>,
) -> bool {
    match claim_refusal(before.vault, before.subcontractor.info, build, now, rent) {
        Some(e) => done == Err::<(), Error>(e) && after == before,
        None => {
            &&& done is Ok
            &&& after == (ClaimRelease {
                subcontractor: Signer {
                    info: before.subcontractor.info.credited(before.vault.state.claimable()),
                },
                vault: claimed(before.vault),
                rent_payer: before.rent_payer,
            })
        },
    }
}

/// Pays everything undisputed to the subcontractor once the backstop has opened,
/// for given answers of the runtime to the requests for the time and for the
/// vault's rent-exempt minimum. No counterparty takes part.
pub fn handle_claim_release_with(
    accounts: &mut ClaimRelease,
    build: Build,
    now: Result<i64, Error>,
    rent: Result<u64, Error>,
) -> (done: Result<(), Error>)
    ensures
        claim_result(*old(accounts), build, now, rent, *final(accounts), done),
        old(accounts).vault.state.wf() ==> final(accounts).vault.state.wf(),
{
    if !(accounts.vault.state.status == STATUS_FUNDED || accounts.vault.state.status
        == STATUS_CPC_RELEASED) {
        return Err(Error::Verita(VeritaError::VaultNotClaimable));
    }
    let effective: i64 = match accounts.vault.state.effective_ts_from(build, now) {
        Ok(ts) => ts,
        Err(e) => return Err(e),
    };
    let backstop: i64 = match accounts.vault.state.backstop_ts() {
        Ok(ts) => ts,
        Err(e) => return Err(e),
    };
    if effective < backstop {
        return Err(Error::Verita(VeritaError::BackstopNotReached));
    }
    let claimable: u64 = match accounts.vault.state.claimable_now() {
        Ok(lamports) => lamports,
        Err(e) => return Err(e),
    };
    if claimable == 0 {
        return Err(Error::Verita(VeritaError::NothingToClaim));
    }
    let released: u64 = match accounts.vault.state.released_cumulative.checked_add(claimable) {
        Some(released) => released,
        None => return Err(Error::Verita(VeritaError::MathOverflow)),
    };
    match release_from_vault(
        &mut accounts.vault,
        &mut accounts.subcontractor.info,
        claimable,
        rent,
    ) {
        Ok(()) => {
            accounts.vault.state.released_cumulative = released;
            Ok(())
        },
        Err(e) => Err(e),
    }
}

/// Pays everything undisputed to the subcontractor once the backstop has opened.
pub fn handle_claim_release(accounts: &mut ClaimRelease, build: Build) -> (done: Result<(), Error>)
    ensures
        exists|now: Result<i64, Error>, rent: Result<u64, Error>|
            {
                &&& #[trigger] crate::runtime::clock_reply(now)
                &&& #[trigger] crate::runtime::rent_reply(old(accounts).vault.data_len, rent)
                &&& claim_result(*old(accounts), build, now, rent, *final(accounts), done)
            },
        done is Ok ==> exists|t: i64|
            {
                let v = old(accounts).vault.state;
                let opens = v.practical_completion_ts + v.dlp_days * 86_400 + v.grace_days * 86_400;
                &&& #[trigger] crate::provenance::clock_answered(Ok(t))
                &&& build == Build::Production ==> t >= opens
                &&& build == Build::Demo ==> t + v.clock_offset >= opens
            },
        old(accounts).vault.state.wf() ==> final(accounts).vault.state.wf(),
{
    let now = unix_timestamp();
    let rent = rent_exempt_minimum(accounts.vault.data_len);
    let done = handle_claim_release_with(accounts, build, now, rent);
    proof {
        if done is Ok {
            crate::effects::law_claim_goes_by_the_runtimes_clock(
                *old(accounts),
                build,
                now,
                rent,
                *accounts,
                done,
            );
        }
    }
    done
}

// ---------------------------------------------------------------------------
// attest_cpc
// ---------------------------------------------------------------------------
/// Why the release of the first moiety is refused.
pub open spec fn attest_refusal(
    vault: VaultAccount,
    recipient: AccountInfo,
    rent: Result<u64, Error>,
) -> Option<Error> {
    let v = vault.state;
    if v.status != STATUS_FUNDED || v.cpc_attested {
        Some(Error::Verita(VeritaError::AlreadyAttested))
    } else if v.moiety_product() > u64::MAX {
        Some(Error::Verita(VeritaError::MathOverflow))
    } else if v.moiety() == 0 {
        Some(Error::Verita(VeritaError::NothingToClaim))
    } else if v.claimable() < 0 {
        Some(Error::Verita(VeritaError::MathOverflow))
    } else if v.moiety() > v.claimable() {
        Some(Error::Verita(VeritaError::InvalidReleaseSchedule))
    } else {
        release_refusal(vault.info, recipient, v.moiety(), rent)
    }
}

/// The vault after the certified first moiety has left it.
pub open spec fn attested(vault: VaultAccount) -> VaultAccount {
    VaultAccount {
        info: vault.info.debited(vault.state.moiety()),
        state: RetentionVault {
            released_cumulative: (vault.state.released_cumulative + vault.state.moiety()) as u64,
            cpc_attested: true,
            status: STATUS_CPC_RELEASED,
            ..vault.state
        },
        ..vault
    }
}

/// The certificate was recorded and the first moiety paid, or it was refused and
/// changed nothing.
pub open spec fn attest_result(
    before: AttestCpc,
    rent: Result<u64, Error>,
    after: AttestCpc,
    done: Result<(), Error>,
) -> bool {
    match attest_refusal(before.vault, before.subcontractor.info, rent) {
        Some(e) => done == Err::<(), Error>(e) && after == before,
        None => {
            &&& done is Ok
            &&& after == (AttestCpc {
                certifier: before.certifier,
                vault: attested(before.vault),
                subcontractor: SystemAccount {
                    info: before.subcontractor.info.credited(before.vault.state.moiety()),
                },
            })
        },
    }
}

/// Pays the first moiety, and only that, to the subcontractor, for a given answer of
/// the runtime to the request for the vault's rent-exempt minimum. The remainder
/// leaves through a claim after the backstop.
pub fn handle_attest_cpc_with(accounts: &mut AttestCpc, rent: Result<u64, Error>) -> (done: Result<
    (),
    Error,
>)
    ensures
        attest_result(*old(accounts), rent, *final(accounts), done),
        old(accounts).vault.state.wf() ==> final(accounts).vault.state.wf(),
{
    if accounts.vault.state.status != STATUS_FUNDED {
        return Err(Error::Verita(VeritaError::AlreadyAttested));
    }
    if accounts.vault.state.cpc_attested {
        return Err(Error::Verita(VeritaError::AlreadyAttested));
    }
    let moiety: u64 = match accounts.vault.state.first_moiety() {
        Ok(lamports) => lamports,
        Err(e) => return Err(e),
    };
    if moiety == 0 {
        return Err(Error::Verita(VeritaError::NothingToClaim));
    }
    let claimable: u64 = match accounts.vault.state.claimable_now() {
        Ok(lamports) => lamports,
        Err(e) => return Err(e),
    };
    if moiety > claimable {
        return Err(Error::Verita(VeritaError::InvalidReleaseSchedule));
    }
    let released: u64 = match accounts.vault.state.released_cumulative.checked_add(moiety) {
        Some(released) => released,
        None => return Err(Error::Verita(VeritaError::MathOverflow)),
    };
    match release_from_vault(
        &mut accounts.vault,
        &mut accounts.subcontractor.info,
        moiety,
        rent,
    ) {
        Ok(()) => {
            accounts.vault.state.released_cumulative = released;
            accounts.vault.state.cpc_attested = true;
            accounts.vault.state.status = STATUS_CPC_RELEASED;
            Ok(())
        },
        Err(e) => Err(e),
    }
}

/// Pays the first moiety, and only that, to the subcontractor.
pub fn handle_attest_cpc(accounts: &mut AttestCpc) -> (done: Result<(), Error>)
    ensures
        exists|rent: Result<u64, Error>|
            {
                &&& #[trigger] crate::runtime::rent_reply(old(accounts).vault.data_len, rent)
                &&& attest_result(*old(accounts), rent, *final(accounts), done)
            },
        old(accounts).vault.state.wf() ==> final(accounts).vault.state.wf(),
{
    let rent = rent_exempt_minimum(accounts.vault.data_len);
    handle_attest_cpc_with(accounts, rent)
}

// ---------------------------------------------------------------------------
// close_vault
// ---------------------------------------------------------------------------
/// Why the balance of a vault cannot be handed over.
pub open spec fn payout_refusal(before: CloseVault) -> Option<Error> {
    if before.vault.info.key == before.rent_payer.info.key {
        Some(Error::ConstraintClose)
    } else if before.rent_payer.info.lamports + before.vault.info.lamports > u64::MAX {
        Some(Error::ArithmeticOverflow)
    } else {
        None
    }
}

/// The accounts after the vault's whole balance went to the rent payer and the
/// vault's data was given up.
pub open spec fn closed(before: CloseVault) -> CloseVault {
    CloseVault {
        rent_payer: SystemAccount {
            info: before.rent_payer.info.credited(before.vault.info.lamports as int),
        },
        vault: VaultAccount {
            info: AccountInfo { lamports: 0, ..before.vault.info },
            data_len: 0,
            ..before.vault
        },
    }
}

/// Closes the vault and hands its balance to the rent payer. No contractor or
/// subcontractor signature is required.
pub fn handle_close_vault(accounts: &mut CloseVault) -> (done: Result<(), Error>)
    ensures
        match payout_refusal(*old(accounts)) {
            Some(e) => done == Err::<(), Error>(e) && *final(accounts) == *old(accounts),
            None => done is Ok && *final(accounts) == closed(*old(accounts)),
        },
        done is Ok <==> {
            &&& old(accounts).vault.info.key != old(accounts).rent_payer.info.key
            &&& old(accounts).rent_payer.info.lamports + old(accounts).vault.info.lamports
                <= u64::MAX
        },
        done is Ok ==> {
            &&& final(accounts).rent_payer.info.lamports == old(accounts).rent_payer.info.lamports
                + old(accounts).vault.info.lamports
            &&& final(accounts).vault.info.lamports == 0
            &&& final(accounts).vault.data_len == 0
        },
        final(accounts).vault.state == old(accounts).vault.state,
        final(accounts).vault.info.key == old(accounts).vault.info.key,
        final(accounts).rent_payer.info.key == old(accounts).rent_payer.info.key,
{
    if accounts.vault.info.key == accounts.rent_payer.info.key {
        return Err(Error::ConstraintClose);
    }
    match accounts.rent_payer.info.lamports.checked_add(accounts.vault.info.lamports) {
        Some(lamports) => {
            accounts.rent_payer.info.lamports = lamports;
            accounts.vault.info.lamports = 0;
            accounts.vault.data_len = 0;
            Ok(())
        },
        None => Err(Error::ArithmeticOverflow),
    }
}

// ---------------------------------------------------------------------------
// advance_clock (demo builds only)
// ---------------------------------------------------------------------------
/// The vault with its clock rolled to `offset`.
pub open spec fn clock_set(vault: VaultAccount, offset: i64) -> VaultAccount {
    VaultAccount { state: RetentionVault { clock_offset: offset, ..vault.state }, ..vault }
}

/// Sets the absolute clock offset.
pub fn handle_advance_clock(accounts: &mut AdvanceClock, args: AdvanceClockArgs) -> (done: Result<
    (),
    Error,
>)
    ensures
        done is Ok,
        *final(accounts) == (AdvanceClock {
            vault: clock_set(old(accounts).vault, args.new_offset),
            ..*old(accounts)
        }),
        final(accounts).vault.state.clock_offset == args.new_offset,
        final(accounts).vault.state == (RetentionVault {
            clock_offset: final(accounts).vault.state.clock_offset,
            ..old(accounts).vault.state
        }),
        final(accounts).vault.info == old(accounts).vault.info,
        final(accounts).vault.data_len == old(accounts).vault.data_len,
        final(accounts).demo_authority == old(accounts).demo_authority,
        old(accounts).vault.state.wf() ==> final(accounts).vault.state.wf(),
{
    accounts.vault.state.clock_offset = args.new_offset;
    Ok(())
}

} // verus!
