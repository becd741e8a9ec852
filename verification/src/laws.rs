//! What holds of every vault, of every instruction, and of one instruction after another.

use vstd::prelude::*;

use crate::accounts::{
    AccountInfo, AdvanceClock, AdvanceClockArgs, AttestCpc, ClaimRelease, CloseVault, FundVault,
    FundVaultArgs, VaultAccount,
};
use crate::error::{Error, VeritaError};
use crate::keys::Pubkey;
use crate::program::Opening;
use crate::state::{
    Build, RetentionVault, BPS_DENOMINATOR, MAX_PROJECT_ID_LEN, STATUS_CPC_RELEASED, VAULT_SPACE,
};

verus! {

// ---------------------------------------------------------------------------
// Stored state
// ---------------------------------------------------------------------------
/// The stored state fits the space that its account is created with exactly when the
/// project id is within its bound. So every vault that can be opened can be stored.
pub proof fn law_layout_fits_iff_project_id_fits(v: RetentionVault)
    ensures
        v.layout().len() == v.project_id_bytes().len() + 293,
        v.layout().len() <= RetentionVault::INIT_SPACE <==> v.project_id_bytes().len()
            <= MAX_PROJECT_ID_LEN,
        v.wf() ==> v.layout().len() <= RetentionVault::INIT_SPACE,
{
    vstd::bytes::lemma_auto_spec_u16_to_from_le_bytes();
    vstd::bytes::lemma_auto_spec_u32_to_from_le_bytes();
    vstd::bytes::lemma_auto_spec_u64_to_from_le_bytes();
    assert(v.keys_layout().len() == 224);
    assert(v.terms_layout().len() == v.project_id_bytes().len() + 38);
    assert(v.progress_layout().len() == 31);
}

/// The first moiety never exceeds the amount, for any share of at most the whole.
pub proof fn law_moiety_within_amount(v: RetentionVault)
    requires
        v.release_schedule_bps <= BPS_DENOMINATOR,
    ensures
        0 <= v.moiety() <= v.amount,
{
    let amount = v.amount as int;
    let bps = v.release_schedule_bps as int;
    assert(0 <= amount * bps <= amount * 10_000) by (nonlinear_arith)
        requires
            0 <= amount,
            0 <= bps <= 10_000,
    ;
}

/// A production build never reads the stored clock offset: whatever it is set to, a
/// claim is decided in the same way and has the same effect on everything else.
pub proof fn law_production_ignores_clock_offset(
    vault: VaultAccount,
    offset: i64,
    recipient: AccountInfo,
    now: Result<i64, Error>,
    rent: Result<u64, Error>,
)
    ensures
        vault.state.effective_time(Build::Production, now) == now,
        crate::instructions::claim_refusal(
            crate::instructions::clock_set(vault, offset),
            recipient,
            Build::Production,
            now,
            rent,
        ) == crate::instructions::claim_refusal(vault, recipient, Build::Production, now, rent),
        crate::instructions::claimed(crate::instructions::clock_set(vault, offset))
            == crate::instructions::clock_set(crate::instructions::claimed(vault), offset),
{
}

// ---------------------------------------------------------------------------
// Addresses
// ---------------------------------------------------------------------------
/// Seeds have at most one canonical address.
pub proof fn law_canonical_address_is_unique(
    seeds: Seq<Seq<u8>>,
    program_id: Seq<u8>,
    a: Option<(Pubkey, u8)>,
    b: Option<(Pubkey, u8)>,
)
    requires
        crate::address::is_canonical_address(seeds, program_id, a),
        crate::address::is_canonical_address(seeds, program_id, b),
    ensures
        a == b,
{
    broadcast use crate::keys::lemma_key_is_its_bytes;

    match (a, b) {
        (Some((ka, ba)), Some((kb, bb))) => {
            assert(crate::address::bumped_address(seeds, ba, program_id) is Some);
            assert(crate::address::bumped_address(seeds, bb, program_id) is Some);
            assert(ba == bb);
            assert(ka@ == kb@);
        },
        (Some((_, ba)), None) => {
            assert(crate::address::bumped_address(seeds, ba, program_id) is Some);
        },
        (None, Some((_, bb))) => {
            assert(crate::address::bumped_address(seeds, bb, program_id) is Some);
        },
        (None, None) => {},
    }
}

/// A vault that was funded sits at the address that its stored fields derive, and
/// stays there as long as its terms are the same. So the address check of the later
/// instructions never turns a funded vault away.
pub proof fn law_funded_vault_keeps_its_address(
    accounts: FundVault,
    args: FundVaultArgs,
    program_id: Pubkey,
    found: Option<(Pubkey, u8)>,
    rent: Result<u64, Error>,
    opening: Opening,
    later: RetentionVault,
)
    requires
        crate::address::is_canonical_address(
            crate::address::vault_seeds(
                args.project_id@,
                args.subcontractor,
                accounts.main_contractor.info.key,
            ),
            program_id@,
            found,
        ),
        crate::program::fund_vault_result(accounts, args, program_id, found, rent, Ok(opening)),
        later.same_terms(opening.funding.state),
    ensures
        crate::address::stored_address(later, program_id) == Some(accounts.vault.key@),
{
}

// ---------------------------------------------------------------------------
// Single instructions
// ---------------------------------------------------------------------------
/// The contractor pays in exactly the retention and the rent payer exactly what the
/// address lacks of the rent-exempt minimum; nobody else pays anything, and what the two
/// pay is what the vault gains. The vault has room for every project id, belongs to the
/// program, and opens with the amount on top of the rent-exempt minimum, or of what the
/// address held if that was more. A derived address has no private key, so neither of
/// the two signers is the vault.
pub proof fn law_funding_is_exact(
    accounts: FundVault,
    args: FundVaultArgs,
    program_id: Pubkey,
    found: Option<(Pubkey, u8)>,
    rent: Result<u64, Error>,
    opening: Opening,
    vault: VaultAccount,
    other: Pubkey,
)
    requires
        crate::program::fund_vault_result(accounts, args, program_id, found, rent, Ok(opening)),
        opening.opens(accounts, vault),
        accounts.main_contractor.info.key != accounts.vault.key,
        accounts.rent_payer.info.key != accounts.vault.key,
        other != accounts.main_contractor.info.key,
        other != accounts.rent_payer.info.key,
        other != accounts.vault.key,
    ensures
        ({
            let contractor = accounts.main_contractor.info.key;
            let payer = accounts.rent_payer.info.key;
            let held = accounts.vault.lamports;
            let minimum = rent->Ok_0;
            &&& rent is Ok
            &&& vault.data_len == VAULT_SPACE == 365
            &&& opening.creation.owner == program_id
            &&& vault.info.key == accounts.vault.key
            &&& vault.info.lamports == held + opening.gain(vault.info.key)
            &&& vault.info.lamports == args.amount + (if held > minimum {
                held
            } else {
                minimum
            })
            &&& contractor != payer ==> opening.gain(contractor) == -args.amount
            &&& contractor != payer ==> opening.gain(payer) == (if held > minimum {
                0
            } else {
                held - minimum
            })
            &&& contractor == payer ==> opening.gain(payer) == -opening.gain(vault.info.key)
            &&& opening.gain(other) == 0
        }),
{
}

/// A claim that goes through moves exactly what it records: what the vault loses is
/// what the subcontractor gains and what is added to the released total. The vault
/// keeps its rent-exempt minimum, everything undisputed has been released, and
/// nothing but the balance and the total has changed.
pub proof fn law_claim_is_exact(
    vault: VaultAccount,
    recipient: AccountInfo,
    build: Build,
    now: Result<i64, Error>,
    rent: Result<u64, Error>,
)
    requires
        crate::instructions::claim_refusal(vault, recipient, build, now, rent) is None,
    ensures
        ({
            let after = crate::instructions::claimed(vault);
            let paid = vault.state.claimable();
            &&& paid > 0
            &&& after.info.lamports == vault.info.lamports - paid
            &&& recipient.credited(paid).lamports == recipient.lamports + paid
            &&& after.state.released_cumulative == vault.state.released_cumulative + paid
            &&& after.state.released_cumulative + vault.state.aggregate_frozen
                == vault.state.amount
            &&& rent is Ok
            &&& after.info.lamports >= rent->Ok_0
            &&& after.info.key == vault.info.key
            &&& after.state.same_terms(vault.state)
            &&& after.state.status == vault.state.status
            &&& after.state.clock_offset == vault.state.clock_offset
        }),
{
}

/// No claim goes through before the backstop: the effective time has reached
/// practical completion plus the defects-liability period plus grace.
pub proof fn law_claim_waits_for_backstop(
    vault: VaultAccount,
    recipient: AccountInfo,
    build: Build,
    now: Result<i64, Error>,
    rent: Result<u64, Error>,
)
    requires
        crate::instructions::claim_refusal(vault, recipient, build, now, rent) is None,
    ensures
        vault.state.effective_time(build, now) is Ok,
        vault.state.effective_time(build, now)->Ok_0 >= vault.state.practical_completion_ts + (
        vault.state.dlp_days + vault.state.grace_days) * 86_400,
{
}

/// Once a claim went through, the next one finds nothing left, whatever it is paid to
/// and however full the vault still is.
pub proof fn law_second_claim_is_refused(
    vault: VaultAccount,
    recipient: AccountInfo,
    build: Build,
    now: Result<i64, Error>,
    rent: Result<u64, Error>,
    other_recipient: AccountInfo,
    other_rent: Result<u64, Error>,
)
    requires
        crate::instructions::claim_refusal(vault, recipient, build, now, rent) is None,
    ensures
        crate::instructions::claim_refusal(
            crate::instructions::claimed(vault),
            other_recipient,
            build,
            now,
            other_rent,
        ) == Some(Error::Verita(VeritaError::NothingToClaim)),
{
}

/// A certificate that is accepted moves exactly the first moiety: what the vault loses
/// is what the subcontractor gains and what is added to the released total. The
/// vault keeps its rent-exempt minimum and stays open.
pub proof fn law_attest_is_exact(
    vault: VaultAccount,
    recipient: AccountInfo,
    rent: Result<u64, Error>,
)
    requires
        crate::instructions::attest_refusal(vault, recipient, rent) is None,
    ensures
        ({
            let after = crate::instructions::attested(vault);
            let paid = vault.state.moiety();
            &&& paid > 0
            &&& after.info.lamports == vault.info.lamports - paid
            &&& recipient.credited(paid).lamports == recipient.lamports + paid
            &&& after.state.released_cumulative == vault.state.released_cumulative + paid
            &&& after.state.released_cumulative <= vault.state.amount
            &&& rent is Ok
            &&& after.info.lamports >= rent->Ok_0
            &&& after.info.key == vault.info.key
            &&& after.data_len == vault.data_len
            &&& after.state.same_terms(vault.state)
            &&& after.state.status == STATUS_CPC_RELEASED
            &&& after.state.clock_offset == vault.state.clock_offset
        }),
{
}

/// A certificate cannot be replayed.
pub proof fn law_attest_cannot_be_replayed(
    vault: VaultAccount,
    recipient: AccountInfo,
    rent: Result<u64, Error>,
)
    ensures
        crate::instructions::attest_refusal(crate::instructions::attested(vault), recipient, rent)
            == Some(Error::Verita(VeritaError::AlreadyAttested)),
{
}

/// The certificate frees the first moiety and the backstop the rest: a certificate
/// followed by a claim releases everything undisputed, and the two payments add up to
/// what was claimable before.
pub proof fn law_certificate_then_claim_releases_everything(
    vault: VaultAccount,
    recipient: AccountInfo,
    rent: Result<u64, Error>,
    claim_recipient: AccountInfo,
    build: Build,
    now: Result<i64, Error>,
    claim_rent: Result<u64, Error>,
)
    requires
        crate::instructions::attest_refusal(vault, recipient, rent) is None,
        crate::instructions::claim_refusal(
            crate::instructions::attested(vault),
            claim_recipient,
            build,
            now,
            claim_rent,
        ) is None,
    ensures
        vault.state.moiety() + crate::instructions::attested(vault).state.claimable()
            == vault.state.claimable(),
        crate::instructions::claimed(crate::instructions::attested(vault)).state.released_cumulative
            + vault.state.aggregate_frozen == vault.state.amount,
        crate::instructions::claimed(crate::instructions::attested(vault)).info.lamports
            == vault.info.lamports - vault.state.claimable(),
{
}

/// One vault per project, subcontractor and main contractor, funded once: after a first
/// funding was accepted, a second one on the same three is refused, whoever fronts its
/// rent and whichever account it names. The first vault's own account is in use, and
/// every other account is at the wrong address.
pub proof fn law_vault_is_funded_once(
    program_id: Pubkey,
    first: FundVault,
    first_args: FundVaultArgs,
    first_found: Option<(Pubkey, u8)>,
    first_rent: Result<u64, Error>,
    first_opening: Opening,
    second: FundVault,
    second_args: FundVaultArgs,
    second_found: Option<(Pubkey, u8)>,
    second_rent: Result<u64, Error>,
    second_opening: Result<Opening, Error>,
)
    requires
        crate::address::is_canonical_address(
            crate::address::vault_seeds(
                first_args.project_id@,
                first_args.subcontractor,
                first.main_contractor.info.key,
            ),
            program_id@,
            first_found,
        ),
        crate::program::fund_vault_result(
            first,
            first_args,
            program_id,
            first_found,
            first_rent,
            Ok(first_opening),
        ),
        second_args.project_id@ == first_args.project_id@,
        second_args.subcontractor == first_args.subcontractor,
        second.main_contractor.info.key == first.main_contractor.info.key,
        second.vault.key == first.vault.key ==> second.vault.in_use,
        crate::address::is_canonical_address(
            crate::address::vault_seeds(
                second_args.project_id@,
                second_args.subcontractor,
                second.main_contractor.info.key,
            ),
            program_id@,
            second_found,
        ),
        crate::program::fund_vault_result(
            second,
            second_args,
            program_id,
            second_found,
            second_rent,
            second_opening,
        ),
    ensures
        second_opening is Err,
        second_rent is Ok && second.vault.key != first.vault.key ==> second_opening == Err::<
            Opening,
            Error,
        >(Error::ConstraintSeeds),
        second_rent is Ok && second.vault.key == first.vault.key && second.rent_payer.info.key
            != second.vault.key ==> second_opening == Err::<Opening, Error>(
            Error::AccountAlreadyInUse,
        ),
{
    law_canonical_address_is_unique(
        crate::address::vault_seeds(
            first_args.project_id@,
            first_args.subcontractor,
            first.main_contractor.info.key,
        ),
        program_id@,
        first_found,
        second_found,
    );
}

/// A claim pays the stored subcontractor or nobody: signed by anybody else, the main
/// contractor among them, it is refused and not one lamport moves.
pub proof fn law_claim_pays_only_the_subcontractor(
    before: ClaimRelease,
    derived: Option<Seq<u8>>,
    build: Build,
    now: Result<i64, Error>,
    rent: Result<u64, Error>,
    after: ClaimRelease,
    done: Result<(), Error>,
)
    requires
        crate::program::claim_release_result(before, derived, build, now, rent, after, done),
        before.subcontractor.info.key != before.vault.state.subcontractor,
    ensures
        after == before,
        done is Err,
        derived == Some(before.vault.info.key@) ==> done == Err::<(), Error>(
            Error::Verita(VeritaError::Unauthorized),
        ),
{
}

/// A certificate needs the stored certifier's signature and pays the stored
/// subcontractor: otherwise it is refused and not one lamport moves.
pub proof fn law_attest_pays_only_the_subcontractor(
    before: AttestCpc,
    derived: Option<Seq<u8>>,
    rent: Result<u64, Error>,
    after: AttestCpc,
    done: Result<(), Error>,
)
    requires
        crate::program::attest_cpc_result(before, derived, rent, after, done),
        before.certifier.info.key != before.vault.state.certifier
            || before.subcontractor.info.key != before.vault.state.subcontractor,
    ensures
        after == before,
        done is Err,
        derived == Some(before.vault.info.key@) ==> done == Err::<(), Error>(
            Error::Verita(VeritaError::Unauthorized),
        ),
{
}

/// A close pays the stored rent payer or nobody: the refund cannot be redirected.
pub proof fn law_close_pays_only_the_rent_payer(
    before: CloseVault,
    derived: Option<Seq<u8>>,
    after: CloseVault,
    done: Result<(), Error>,
)
    requires
        crate::program::close_vault_result(before, derived, after, done),
        before.rent_payer.info.key != before.vault.state.rent_payer,
    ensures
        after == before,
        done is Err,
        derived == Some(before.vault.info.key@) ==> done == Err::<(), Error>(
            Error::Verita(VeritaError::Unauthorized),
        ),
{
}

/// A close is refused while retention remains, whoever asks for it.
pub proof fn law_close_is_refused_while_retention_remains(
    before: CloseVault,
    derived: Option<Seq<u8>>,
    after: CloseVault,
    done: Result<(), Error>,
)
    requires
        crate::program::close_vault_result(before, derived, after, done),
        before.vault.state.released_cumulative != before.vault.state.amount,
    ensures
        after == before,
        done is Err,
{
}

/// Only the stored demo authority rolls the clock, and only in a demo build.
pub proof fn law_clock_needs_demo_authority(
    before: AdvanceClock,
    args: AdvanceClockArgs,
    build: Build,
    derived: Option<Seq<u8>>,
    after: AdvanceClock,
    done: Result<(), Error>,
)
    requires
        crate::program::advance_clock_result(before, args, build, derived, after, done),
        build == Build::Production || before.demo_authority.info.key
            != before.vault.state.demo_authority,
    ensures
        after == before,
        done is Err,
{
}

/// A close that goes through hands over the vault's whole balance and leaves nothing.
pub proof fn law_close_is_exact(accounts: CloseVault, derived: Option<Seq<u8>>)
    requires
        crate::program::close_refusal(accounts, derived) is None,
    ensures
        ({
            let after = crate::instructions::closed(accounts);
            &&& after.rent_payer.info.lamports == accounts.rent_payer.info.lamports
                + accounts.vault.info.lamports
            &&& after.vault.info.lamports == 0
            &&& after.vault.data_len == 0
            &&& after.rent_payer.info.key == accounts.vault.state.rent_payer
        }),
{
}

} // verus!
