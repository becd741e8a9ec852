//! What each operation does, said of the stored fields, the balances and the arguments
//! themselves.

use vstd::prelude::*;

use crate::accounts::{
    AccountInfo, AdvanceClock, AdvanceClockArgs, AttestCpc, ClaimRelease, CloseVault, FundVault,
    FundVaultArgs, VaultAccount,
};
use crate::error::{Error, VeritaError};
use crate::instructions::Funding;
use crate::keys::Pubkey;
use crate::program::Opening;
use crate::state::{Build, RetentionVault};

verus! {

// ---------------------------------------------------------------------------
// Times and amounts
// ---------------------------------------------------------------------------
/// The backstop is practical completion plus the days of the defects-liability period and
/// of grace, each of 86 400 seconds.
pub proof fn law_backstop_counts_the_days(v: RetentionVault)
    ensures
        v.backstop() == v.practical_completion_ts + v.dlp_days * 86_400 + v.grace_days * 86_400,
{
}

/// A longer period, more grace or a later completion moves the backstop by exactly that
/// much, and nothing else about a vault moves it.
pub proof fn law_backstop_moves_with_the_terms(v: RetentionVault, w: RetentionVault)
    ensures
        w.backstop() - v.backstop() == (w.practical_completion_ts - v.practical_completion_ts) + (
        w.dlp_days - v.dlp_days + w.grace_days - v.grace_days) * 86_400,
{
}

/// A vault goes by the runtime's own time in a production build, and by that time plus the
/// stored offset in a demo build; only a sum outside 64 bits is refused, and a clock
/// that does not answer passes its error on.
pub proof fn law_effective_time_is_the_runtimes(
    v: RetentionVault,
    build: Build,
    now: Result<i64, Error>,
)
    ensures
        now matches Err(e) ==> v.effective_time(build, now) == Err::<i64, Error>(e),
        now matches Ok(t) ==> v.effective_time(Build::Production, now) == Ok::<i64, Error>(t),
        now matches Ok(t) ==> match v.effective_time(Build::Demo, now) {
            Ok(ts) => ts == t + v.clock_offset,
            Err(e) => {
                &&& e == Error::Verita(VeritaError::MathOverflow)
                &&& t + v.clock_offset < i64::MIN || i64::MAX < t + v.clock_offset
            },
        },
{
}

/// The first moiety is the share of the amount in basis points, rounded down to whole
/// lamports.
pub proof fn law_moiety_is_the_share(v: RetentionVault)
    ensures
        v.moiety_product() == v.amount * v.release_schedule_bps,
        v.moiety() * 10_000 <= v.amount * v.release_schedule_bps < (v.moiety() + 1) * 10_000,
{
}

/// A larger share never makes the first moiety smaller, and the whole share makes it the
/// whole amount.
pub proof fn law_moiety_grows_with_the_share(v: RetentionVault, w: RetentionVault)
    requires
        v.amount == w.amount,
        v.release_schedule_bps <= w.release_schedule_bps,
    ensures
        v.moiety() <= w.moiety(),
        w.release_schedule_bps == 10_000 ==> w.moiety() == w.amount,
{
    let amount = v.amount as int;
    let small = v.release_schedule_bps as int;
    let large = w.release_schedule_bps as int;
    assert(amount * small <= amount * large) by (nonlinear_arith)
        requires
            0 <= amount,
            0 <= small <= large,
    ;
    if large == 10_000 {
        assert(amount * large == amount * 10_000);
    }
}

/// What can be claimed, what was released and what is frozen make up the amount.
pub proof fn law_claimable_is_the_rest(v: RetentionVault)
    ensures
        v.claimable() + v.released_cumulative + v.aggregate_frozen == v.amount,
{
}

// ---------------------------------------------------------------------------
// Addresses
// ---------------------------------------------------------------------------
/// The seeds of a vault are the word `vault`, the SHA-256 digest of the whole project id in
/// UTF-8, the subcontractor's key and the main contractor's key, in this order.
pub proof fn law_vault_seeds_are_the_documented_ones(
    project_id: Seq<char>,
    subcontractor: Pubkey,
    main_contractor: Pubkey,
)
    ensures
        crate::address::vault_seeds(project_id, subcontractor, main_contractor) == seq![
            seq![118u8, 97u8, 117u8, 108u8, 116u8],
            crate::address::sha256(vstd::utf8::encode_utf8(project_id)),
            subcontractor.bytes@,
            main_contractor.bytes@,
        ],
{
    assert(crate::state::VAULT_SEED@ =~= seq![118u8, 97u8, 117u8, 108u8, 116u8]);
    assert(crate::address::vault_seeds(project_id, subcontractor, main_contractor) =~= seq![
        seq![118u8, 97u8, 117u8, 108u8, 116u8],
        crate::address::sha256(vstd::utf8::encode_utf8(project_id)),
        subcontractor.bytes@,
        main_contractor.bytes@,
    ]);
}

/// Vaults of different parties have different seeds; and so have vaults of different
/// projects, where SHA-256 does not collide on the two ids.
pub proof fn law_different_vaults_have_different_seeds(
    project_id: Seq<char>,
    subcontractor: Pubkey,
    main_contractor: Pubkey,
    other_project_id: Seq<char>,
    other_subcontractor: Pubkey,
    other_main_contractor: Pubkey,
)
    requires
        subcontractor != other_subcontractor || main_contractor != other_main_contractor
            || crate::address::sha256(vstd::utf8::encode_utf8(project_id))
            != crate::address::sha256(vstd::utf8::encode_utf8(other_project_id)),
    ensures
        crate::address::vault_seeds(project_id, subcontractor, main_contractor)
            != crate::address::vault_seeds(
            other_project_id,
            other_subcontractor,
            other_main_contractor,
        ),
{
    broadcast use crate::keys::lemma_key_is_its_bytes;

    let a = crate::address::vault_seeds(project_id, subcontractor, main_contractor);
    let b = crate::address::vault_seeds(
        other_project_id,
        other_subcontractor,
        other_main_contractor,
    );
    if a == b {
        assert(a[1] == b[1]);
        assert(a[2] == b[2]);
        assert(a[3] == b[3]);
        assert(subcontractor@ == other_subcontractor@);
        assert(main_contractor@ == other_main_contractor@);
    }
}

/// The bytes of the seeds that are handed to a derivation are the seeds' own, in order.
pub proof fn law_seed_bytes_are_the_seeds(seeds: Seq<&[u8]>, i: int)
    requires
        0 <= i < seeds.len(),
    ensures
        crate::address::seed_bytes(seeds).len() == seeds.len(),
        crate::address::seed_bytes(seeds)[i] == seeds[i]@,
{
}

/// The address that the stored fields derive is the one of the four seeds and the stored
/// bump under the program; a canonical address is the one with the largest bump, above
/// zero, that derives any.
pub proof fn law_addresses_come_from_the_seeds(
    v: RetentionVault,
    program_id: Pubkey,
    found: Option<(Pubkey, u8)>,
    bump: u8,
)
    requires
        crate::address::is_canonical_address(
            crate::address::vault_seeds(v.project_id@, v.subcontractor, v.main_contractor),
            program_id@,
            found,
        ),
    ensures
        ({
            let seeds = seq![
                seq![118u8, 97u8, 117u8, 108u8, 116u8],
                crate::address::sha256(vstd::utf8::encode_utf8(v.project_id@)),
                v.subcontractor.bytes@,
                v.main_contractor.bytes@,
            ];
            &&& crate::address::stored_address(v, program_id) == crate::address::program_address(
                seeds.push(seq![v.bump]),
                program_id.bytes@,
            )
            &&& found matches Some((key, b)) ==> {
                &&& b > 0
                &&& crate::address::program_address(seeds.push(seq![b]), program_id.bytes@) == Some(
                    key.bytes@,
                )
            }
            &&& bump > 0 && (found matches Some((_, b)) ==> bump > b)
                ==> crate::address::program_address(seeds.push(seq![bump]), program_id.bytes@)
                is None
        }),
{
    law_vault_seeds_are_the_documented_ones(v.project_id@, v.subcontractor, v.main_contractor);
    let seeds = crate::address::vault_seeds(v.project_id@, v.subcontractor, v.main_contractor);
    assert(crate::address::bumped_address(seeds, bump, program_id@)
        == crate::address::program_address(seeds.push(seq![bump]), program_id@));
}

// ---------------------------------------------------------------------------
// Stored form
// ---------------------------------------------------------------------------
/// In the stored form the seven keys come first, 32 bytes each, then the project id behind
/// its length, then the other fields at fixed distances behind it; integers lowest byte
/// first, signed ones in two's complement, flags as 0 or 1.
pub proof fn law_stored_fields_have_their_places(v: RetentionVault)
    ensures
        ({
            let bytes = v.layout();
            let id = vstd::utf8::encode_utf8(v.project_id@);
            let n = 228 + id.len() as int;
            &&& bytes.len() == n + 65
            &&& bytes.subrange(0, 32) == v.main_contractor.bytes@
            &&& bytes.subrange(32, 64) == v.subcontractor.bytes@
            &&& bytes.subrange(64, 96) == v.certifier.bytes@
            &&& bytes.subrange(96, 128) == v.adjudicator.bytes@
            &&& bytes.subrange(128, 160) == v.demo_authority.bytes@
            &&& bytes.subrange(160, 192) == v.rent_payer.bytes@
            &&& bytes.subrange(192, 224) == v.mint.bytes@
            &&& bytes.subrange(224, 228) == vstd::bytes::spec_u32_to_le_bytes(id.len() as u32)
            &&& bytes.subrange(228, n) == id
            &&& bytes.subrange(n, n + 8) == vstd::bytes::spec_u64_to_le_bytes(v.amount)
            &&& bytes.subrange(n + 8, n + 16) == vstd::bytes::spec_u64_to_le_bytes(
                v.released_cumulative,
            )
            &&& bytes.subrange(n + 16, n + 24) == vstd::bytes::spec_u64_to_le_bytes(
                v.practical_completion_ts as u64,
            )
            &&& bytes.subrange(n + 24, n + 28) == vstd::bytes::spec_u32_to_le_bytes(v.dlp_days)
            &&& bytes.subrange(n + 28, n + 32) == vstd::bytes::spec_u32_to_le_bytes(v.grace_days)
            &&& bytes.subrange(n + 32, n + 34) == vstd::bytes::spec_u16_to_le_bytes(
                v.release_schedule_bps,
            )
            &&& bytes[n + 34] == (if v.cpc_attested {
                1u8
            } else {
                0u8
            })
            &&& bytes.subrange(n + 35, n + 43) == vstd::bytes::spec_u64_to_le_bytes(
                v.aggregate_frozen,
            )
            &&& bytes.subrange(n + 43, n + 45) == vstd::bytes::spec_u16_to_le_bytes(
                v.active_freeze_count,
            )
            &&& bytes.subrange(n + 45, n + 53) == vstd::bytes::spec_u64_to_le_bytes(
                v.aggregate_freeze_cap,
            )
            &&& bytes.subrange(n + 53, n + 55) == vstd::bytes::spec_u16_to_le_bytes(
                v.max_active_freezes,
            )
            &&& bytes.subrange(n + 55, n + 63) == vstd::bytes::spec_u64_to_le_bytes(
                v.clock_offset as u64,
            )
            &&& bytes[n + 63] == v.status
            &&& bytes[n + 64] == v.bump
        }),
{
    vstd::bytes::lemma_auto_spec_u16_to_from_le_bytes();
    vstd::bytes::lemma_auto_spec_u32_to_from_le_bytes();
    vstd::bytes::lemma_auto_spec_u64_to_from_le_bytes();
    let bytes = v.layout();
    let id = vstd::utf8::encode_utf8(v.project_id@);
    let keys = v.keys_layout();
    let terms = v.terms_layout();
    let progress = v.progress_layout();
    let n = 228 + id.len() as int;
    assert(keys.len() == 224);
    assert(terms.len() == id.len() + 38);
    assert(progress.len() == 31);
    assert(bytes.subrange(0, 224) =~= keys);
    assert(bytes.subrange(224, n + 34) =~= terms);
    assert(bytes.subrange(n + 34, n + 65) =~= progress);
    assert(bytes.subrange(0, 32) =~= keys.subrange(0, 32));
    assert(bytes.subrange(32, 64) =~= keys.subrange(32, 64));
    assert(bytes.subrange(64, 96) =~= keys.subrange(64, 96));
    assert(bytes.subrange(96, 128) =~= keys.subrange(96, 128));
    assert(bytes.subrange(128, 160) =~= keys.subrange(128, 160));
    assert(bytes.subrange(160, 192) =~= keys.subrange(160, 192));
    assert(bytes.subrange(192, 224) =~= keys.subrange(192, 224));
    assert(bytes.subrange(228, n) =~= terms.subrange(4, n - 224));
    assert(bytes.subrange(n, n + 8) =~= terms.subrange(n - 224, n - 216));
    assert(bytes[n + 34] == progress[0]);
    assert(bytes[n + 63] == progress[29]);
    assert(bytes[n + 64] == progress[30]);
}

// ---------------------------------------------------------------------------
// Funding
// ---------------------------------------------------------------------------
/// A funding is refused for an id of more than 64 bytes, then for a zero amount, then for a
/// share outside 1 to 10 000 basis points, and for nothing else; otherwise the main
/// contractor pays exactly the amount to the vault.
pub proof fn law_funding_checks_its_arguments(
    accounts: FundVault,
    args: FundVaultArgs,
    bump: u8,
    funding: Result<Funding, Error>,
)
    requires
        crate::instructions::funding_result(accounts, args, bump, funding),
    ensures
        ({
            let bytes = vstd::utf8::encode_utf8(args.project_id@).len();
            let bps = args.release_schedule_bps;
            &&& funding is Ok <==> bytes <= 64 && args.amount > 0 && 1 <= bps <= 10_000
            &&& bytes > 64 ==> funding == Err::<Funding, Error>(
                Error::Verita(VeritaError::ProjectIdTooLong),
            )
            &&& bytes <= 64 && args.amount == 0 ==> funding == Err::<Funding, Error>(
                Error::Verita(VeritaError::InvalidAmount),
            )
            &&& bytes <= 64 && args.amount > 0 && !(1 <= bps <= 10_000) ==> funding == Err::<
                Funding,
                Error,
            >(Error::Verita(VeritaError::InvalidReleaseSchedule))
            &&& funding matches Ok(f) ==> {
                &&& f.transfer.from == accounts.main_contractor.info.key
                &&& f.transfer.to == accounts.vault.key
                &&& f.transfer.lamports == args.amount
            }
        }),
{
}

/// A funding that is accepted stores the parties and the terms of its arguments, field for
/// field, beside the two signers, with nothing released, certified, frozen or rolled.
pub proof fn law_funding_stores_what_was_agreed(
    accounts: FundVault,
    args: FundVaultArgs,
    bump: u8,
    funding: Funding,
)
    requires
        crate::instructions::funding_result(accounts, args, bump, Ok(funding)),
    ensures
        ({
            let v = funding.state;
            &&& v.main_contractor == accounts.main_contractor.info.key
            &&& v.rent_payer == accounts.rent_payer.info.key
            &&& v.subcontractor == args.subcontractor
            &&& v.certifier == args.certifier
            &&& v.adjudicator == args.adjudicator
            &&& v.demo_authority == args.demo_authority
            &&& v.project_id@ == args.project_id@
            &&& v.amount == args.amount
            &&& v.practical_completion_ts == args.practical_completion_ts
            &&& v.dlp_days == args.dlp_days
            &&& v.grace_days == args.grace_days
            &&& v.release_schedule_bps == args.release_schedule_bps
            &&& v.bump == bump
            &&& forall|i: int| 0 <= i < 32 ==> #[trigger] v.mint.bytes@[i] == 0
            &&& v.released_cumulative == 0
            &&& !v.cpc_attested
            &&& v.aggregate_frozen == 0
            &&& v.active_freeze_count == 0
            &&& v.aggregate_freeze_cap == 0
            &&& v.max_active_freezes == 0
            &&& v.clock_offset == 0
            &&& v.status == 0
        }),
{
    assert(funding.state.mint@ == funding.state.mint.bytes@);
}

/// Two fundings that agree in an argument store the same for it, and two that differ in it
/// store different terms: nothing that was agreed is rounded, capped or left out.
pub proof fn law_different_terms_are_stored_differently(
    accounts: FundVault,
    args: FundVaultArgs,
    bump: u8,
    funding: Funding,
    other_accounts: FundVault,
    other_args: FundVaultArgs,
    other_bump: u8,
    other_funding: Funding,
)
    requires
        crate::instructions::funding_result(accounts, args, bump, Ok(funding)),
        crate::instructions::funding_result(
            other_accounts,
            other_args,
            other_bump,
            Ok(other_funding),
        ),
    ensures
        ({
            let v = funding.state;
            let w = other_funding.state;
            &&& v.amount == w.amount <==> args.amount == other_args.amount
            &&& v.practical_completion_ts == w.practical_completion_ts
                <==> args.practical_completion_ts == other_args.practical_completion_ts
            &&& v.dlp_days == w.dlp_days <==> args.dlp_days == other_args.dlp_days
            &&& v.grace_days == w.grace_days <==> args.grace_days == other_args.grace_days
            &&& v.release_schedule_bps == w.release_schedule_bps <==> args.release_schedule_bps
                == other_args.release_schedule_bps
            &&& v.subcontractor == w.subcontractor <==> args.subcontractor
                == other_args.subcontractor
            &&& v.certifier == w.certifier <==> args.certifier == other_args.certifier
            &&& v.adjudicator == w.adjudicator <==> args.adjudicator == other_args.adjudicator
            &&& v.demo_authority == w.demo_authority <==> args.demo_authority
                == other_args.demo_authority
            &&& w.backstop() - v.backstop() == other_args.practical_completion_ts
                - args.practical_completion_ts + (other_args.dlp_days - args.dlp_days
                + other_args.grace_days - args.grace_days) * 86_400
        }),
{
}

/// The account of a vault is refused for a missing rent answer, then for an address that is
/// not the derived one, then where a prefunded account would pay for itself, then where it
/// is in use, and for nothing else. Otherwise it gets 365 bytes under the program, and
/// the rent payer adds what its balance lacks of the rent-exempt minimum and no more.
pub proof fn law_creation_tops_up_to_the_rent_minimum(
    accounts: FundVault,
    args: FundVaultArgs,
    program_id: Pubkey,
    found: Option<(Pubkey, u8)>,
    rent: Result<u64, Error>,
    opening: Result<Opening, Error>,
)
    requires
        crate::program::fund_vault_result(accounts, args, program_id, found, rent, opening),
    ensures
        ({
            let derived = found matches Some((key, _)) && key == accounts.vault.key;
            let pays_itself = accounts.vault.lamports > 0 && accounts.rent_payer.info.key
                == accounts.vault.key;
            &&& rent matches Err(e) ==> opening == Err::<Opening, Error>(e)
            &&& rent is Ok && !derived ==> opening == Err::<Opening, Error>(Error::ConstraintSeeds)
            &&& rent is Ok && derived && pays_itself ==> opening == Err::<Opening, Error>(
                Error::TryingToInitPayerAsProgramAccount,
            )
            &&& rent is Ok && derived && !pays_itself && accounts.vault.in_use ==> opening == Err::<
                Opening,
                Error,
            >(Error::AccountAlreadyInUse)
            &&& rent is Ok && derived && !pays_itself && !accounts.vault.in_use ==> match opening {
                Ok(o) => crate::instructions::funding_result(
                    accounts,
                    args,
                    found->Some_0.1,
                    Ok(o.funding),
                ),
                Err(e) => crate::instructions::funding_result(
                    accounts,
                    args,
                    found->Some_0.1,
                    Err(e),
                ),
            }
            &&& opening matches Ok(o) ==> {
                &&& o.creation.payer == accounts.rent_payer.info.key
                &&& o.creation.account == accounts.vault.key
                &&& o.creation.owner == program_id
                &&& o.creation.space == 365
                &&& accounts.vault.lamports + o.creation.lamports >= rent->Ok_0
                &&& o.creation.lamports > 0 ==> accounts.vault.lamports + o.creation.lamports
                    == rent->Ok_0
            }
        }),
{
}

// ---------------------------------------------------------------------------
// Releases
// ---------------------------------------------------------------------------
/// A release takes from the vault what it gives to the recipient, and leaves at least the
/// rent-exempt minimum; it goes through wherever that can be done, and otherwise moves
/// nothing.
pub proof fn law_release_moves_what_it_can(
    vault: VaultAccount,
    recipient: AccountInfo,
    lamports: int,
    rent: Result<u64, Error>,
    vault_after: VaultAccount,
    recipient_after: AccountInfo,
    done: Result<(), Error>,
)
    requires
        0 <= lamports <= u64::MAX,
        crate::instructions::release_result(
            vault,
            recipient,
            lamports,
            rent,
            vault_after,
            recipient_after,
            done,
        ),
    ensures
        done is Ok <==> rent is Ok && vault.info.lamports - lamports >= rent->Ok_0
            && recipient.lamports + lamports <= u64::MAX,
        done is Ok ==> {
            &&& vault_after.info.lamports == vault.info.lamports - lamports
            &&& recipient_after.lamports == recipient.lamports + lamports
            &&& vault_after.info.key == vault.info.key
            &&& vault_after.data_len == vault.data_len
            &&& vault_after.state == vault.state
            &&& recipient_after.key == recipient.key
        },
        done is Err ==> vault_after == vault && recipient_after == recipient,
        rent matches Err(e) ==> done == Err::<(), Error>(e),
        rent is Ok && vault.info.lamports < lamports ==> done == Err::<(), Error>(
            Error::Verita(VeritaError::MathOverflow),
        ),
        rent is Ok && 0 <= vault.info.lamports - lamports < rent->Ok_0 ==> done == Err::<
            (),
            Error,
        >(Error::Verita(VeritaError::RentExemptViolation)),
        rent is Ok && vault.info.lamports - lamports >= rent->Ok_0 && recipient.lamports + lamports
            > u64::MAX ==> done == Err::<(), Error>(Error::Verita(VeritaError::MathOverflow)),
{
}

/// A claim goes through exactly when the vault is funded or certified, the time has reached
/// completion plus period plus grace, something undisputed is left, and paying it keeps
/// the rent-exempt minimum. It pays the amount less what was released and what is frozen,
/// adds that to the released total and changes nothing else; a refused claim changes
/// nothing.
pub proof fn law_claim_takes_everything_undisputed(
    before: ClaimRelease,
    build: Build,
    now: Result<i64, Error>,
    rent: Result<u64, Error>,
    after: ClaimRelease,
    done: Result<(), Error>,
)
    requires
        crate::instructions::claim_result(before, build, now, rent, after, done),
    ensures
        ({
            let v = before.vault.state;
            let time = now->Ok_0 + (if build == Build::Demo {
                v.clock_offset as int
            } else {
                0
            });
            let opens = v.practical_completion_ts + v.dlp_days * 86_400 + v.grace_days * 86_400;
            let rest = v.amount - v.released_cumulative - v.aggregate_frozen;
            &&& done is Ok <==> {
                &&& v.status == 0 || v.status == 1
                &&& now is Ok
                &&& i64::MIN <= time <= i64::MAX
                &&& opens <= time
                &&& rest > 0
                &&& rent is Ok
                &&& before.vault.info.lamports - rest >= rent->Ok_0
                &&& before.subcontractor.info.lamports + rest <= u64::MAX
            }
            &&& done is Ok ==> {
                &&& after.subcontractor.info.key == before.subcontractor.info.key
                &&& after.subcontractor.info.lamports == before.subcontractor.info.lamports + rest
                &&& after.vault.info.key == before.vault.info.key
                &&& after.vault.info.lamports == before.vault.info.lamports - rest
                &&& after.vault.data_len == before.vault.data_len
                &&& after.vault.state.released_cumulative == v.released_cumulative + rest
                &&& after.vault.state == (RetentionVault {
                    released_cumulative: after.vault.state.released_cumulative,
                    ..v
                })
                &&& after.rent_payer == before.rent_payer
            }
            &&& done is Err ==> after == before
        }),
{
}

/// Each refusal of a claim has its one reason, in this order: the status, the clock, the
/// time, what is left, and then the release.
pub proof fn law_claim_refusals_say_why(
    before: ClaimRelease,
    build: Build,
    now: Result<i64, Error>,
    rent: Result<u64, Error>,
    after: ClaimRelease,
    done: Result<(), Error>,
)
    requires
        crate::instructions::claim_result(before, build, now, rent, after, done),
    ensures
        ({
            let v = before.vault.state;
            let time = now->Ok_0 + (if build == Build::Demo {
                v.clock_offset as int
            } else {
                0
            });
            let opens = v.practical_completion_ts + v.dlp_days * 86_400 + v.grace_days * 86_400;
            let rest = v.amount - v.released_cumulative - v.aggregate_frozen;
            let overflow = Err::<(), Error>(Error::Verita(VeritaError::MathOverflow));
            done == (if v.status != 0 && v.status != 1 {
                Err(Error::Verita(VeritaError::VaultNotClaimable))
            } else if now is Err {
                Err(now->Err_0)
            } else if time < i64::MIN || time > i64::MAX || opens > i64::MAX {
                overflow
            } else if time < opens {
                Err(Error::Verita(VeritaError::BackstopNotReached))
            } else if rest < 0 {
                overflow
            } else if rest == 0 {
                Err(Error::Verita(VeritaError::NothingToClaim))
            } else if rent is Err {
                Err(rent->Err_0)
            } else if before.vault.info.lamports < rest {
                overflow
            } else if before.vault.info.lamports - rest < rent->Ok_0 {
                Err(Error::Verita(VeritaError::RentExemptViolation))
            } else if before.subcontractor.info.lamports + rest > u64::MAX {
                overflow
            } else {
                Ok(())
            })
        }),
{
    if done is Ok {
        assert(done->Ok_0 == ());
    }
}

/// A certificate goes through exactly once on a funded vault, when the share of the amount,
/// rounded down, is at least one lamport, is not more than what is left, and can be
/// paid above the rent-exempt minimum. It pays exactly that share and records both the
/// payment and the certificate; a refused one changes nothing.
pub proof fn law_certificate_pays_the_share(
    before: AttestCpc,
    rent: Result<u64, Error>,
    after: AttestCpc,
    done: Result<(), Error>,
)
    requires
        crate::instructions::attest_result(before, rent, after, done),
    ensures
        ({
            let v = before.vault.state;
            let product = v.amount * v.release_schedule_bps;
            let share = product / 10_000;
            let rest = v.amount - v.released_cumulative - v.aggregate_frozen;
            let paid = after.subcontractor.info.lamports - before.subcontractor.info.lamports;
            &&& done is Ok <==> {
                &&& v.status == 0
                &&& !v.cpc_attested
                &&& product <= u64::MAX
                &&& 0 < share <= rest
                &&& rent is Ok
                &&& before.vault.info.lamports - share >= rent->Ok_0
                &&& before.subcontractor.info.lamports + share <= u64::MAX
            }
            &&& done is Ok ==> {
                &&& paid * 10_000 <= v.amount * v.release_schedule_bps < (paid + 1) * 10_000
                &&& after.subcontractor.info.key == before.subcontractor.info.key
                &&& after.vault.info.key == before.vault.info.key
                &&& after.vault.info.lamports == before.vault.info.lamports - paid
                &&& after.vault.data_len == before.vault.data_len
                &&& after.vault.state.released_cumulative == v.released_cumulative + paid
                &&& after.vault.state.status == 1
                &&& after.vault.state.cpc_attested
                &&& after.vault.state == (RetentionVault {
                    released_cumulative: after.vault.state.released_cumulative,
                    cpc_attested: after.vault.state.cpc_attested,
                    status: after.vault.state.status,
                    ..v
                })
                &&& after.certifier == before.certifier
            }
            &&& done is Err ==> after == before
        }),
{
}

/// Each refusal of a certificate has its one reason, in this order: an earlier
/// certificate, the share, what is left, and then the release.
pub proof fn law_certificate_refusals_say_why(
    before: AttestCpc,
    rent: Result<u64, Error>,
    after: AttestCpc,
    done: Result<(), Error>,
)
    requires
        crate::instructions::attest_result(before, rent, after, done),
    ensures
        ({
            let v = before.vault.state;
            let product = v.amount * v.release_schedule_bps;
            let share = product / 10_000;
            let rest = v.amount - v.released_cumulative - v.aggregate_frozen;
            let overflow = Err::<(), Error>(Error::Verita(VeritaError::MathOverflow));
            done == (if v.status != 0 || v.cpc_attested {
                Err(Error::Verita(VeritaError::AlreadyAttested))
            } else if product > u64::MAX {
                overflow
            } else if product < 10_000 {
                Err(Error::Verita(VeritaError::NothingToClaim))
            } else if rest < 0 {
                overflow
            } else if share > rest {
                Err(Error::Verita(VeritaError::InvalidReleaseSchedule))
            } else if rent is Err {
                Err(rent->Err_0)
            } else if before.vault.info.lamports < share {
                overflow
            } else if before.vault.info.lamports - share < rent->Ok_0 {
                Err(Error::Verita(VeritaError::RentExemptViolation))
            } else if before.subcontractor.info.lamports + share > u64::MAX {
                overflow
            } else {
                Ok(())
            })
        }),
{
    if done is Ok {
        assert(done->Ok_0 == ());
    }
    let v = before.vault.state;
    assert(v.amount * v.release_schedule_bps >= 0) by (nonlinear_arith)
        requires
            v.amount >= 0,
            v.release_schedule_bps >= 0,
    ;
}

// ---------------------------------------------------------------------------
// Account binding, close and clock
// ---------------------------------------------------------------------------
/// A claim is decided on its merits exactly when the vault sits at the address that its
/// state derives, the stored subcontractor has signed and the stored rent payer is named;
/// a wrong address is reported first.
pub proof fn law_claim_binds_its_accounts(
    before: ClaimRelease,
    derived: Option<Seq<u8>>,
    build: Build,
    now: Result<i64, Error>,
    rent: Result<u64, Error>,
    after: ClaimRelease,
    done: Result<(), Error>,
)
    requires
        crate::program::claim_release_result(before, derived, build, now, rent, after, done),
    ensures
        ({
            let v = before.vault.state;
            let at_home = derived == Some(before.vault.info.key.bytes@);
            let named = v.subcontractor == before.subcontractor.info.key && v.rent_payer
                == before.rent_payer.info.key;
            &&& !at_home ==> done == Err::<(), Error>(Error::ConstraintSeeds) && after == before
            &&& at_home && !named ==> done == Err::<(), Error>(
                Error::Verita(VeritaError::Unauthorized),
            ) && after == before
            &&& at_home && named ==> crate::instructions::claim_result(
                before,
                build,
                now,
                rent,
                after,
                done,
            )
        }),
{
}

/// A certificate is decided on its merits exactly when the vault sits at the address that
/// its state derives, the stored certifier has signed and the stored subcontractor is
/// named; a wrong address is reported first.
pub proof fn law_certificate_binds_its_accounts(
    before: AttestCpc,
    derived: Option<Seq<u8>>,
    rent: Result<u64, Error>,
    after: AttestCpc,
    done: Result<(), Error>,
)
    requires
        crate::program::attest_cpc_result(before, derived, rent, after, done),
    ensures
        ({
            let v = before.vault.state;
            let at_home = derived == Some(before.vault.info.key.bytes@);
            let named = v.certifier == before.certifier.info.key && v.subcontractor
                == before.subcontractor.info.key;
            &&& !at_home ==> done == Err::<(), Error>(Error::ConstraintSeeds) && after == before
            &&& at_home && !named ==> done == Err::<(), Error>(
                Error::Verita(VeritaError::Unauthorized),
            ) && after == before
            &&& at_home && named ==> crate::instructions::attest_result(before, rent, after, done)
        }),
{
}

/// A close goes through exactly when the vault sits at its address, the stored rent payer is
/// named and is not the vault, the vault is not marked closed, every lamport was released
/// and none is frozen, and the payer's balance can hold the vault's. It hands over the
/// whole balance and gives up the data; a refused one changes nothing. Each refusal
/// has its one reason.
pub proof fn law_close_hands_everything_to_the_rent_payer(
    before: CloseVault,
    derived: Option<Seq<u8>>,
    after: CloseVault,
    done: Result<(), Error>,
)
    requires
        crate::program::close_vault_result(before, derived, after, done),
    ensures
        ({
            let v = before.vault.state;
            let sum = before.rent_payer.info.lamports + before.vault.info.lamports;
            &&& done == (if derived != Some(before.vault.info.key.bytes@) {
                Err(Error::ConstraintSeeds)
            } else if v.rent_payer != before.rent_payer.info.key {
                Err(Error::Verita(VeritaError::Unauthorized))
            } else if v.status == 4 {
                Err(Error::Verita(VeritaError::AlreadyClosed))
            } else if v.released_cumulative != v.amount || v.aggregate_frozen != 0 {
                Err(Error::Verita(VeritaError::NonzeroResidual))
            } else if before.vault.info.key == before.rent_payer.info.key {
                Err(Error::ConstraintClose)
            } else if sum > u64::MAX {
                Err(Error::ArithmeticOverflow)
            } else {
                Ok(())
            })
            &&& done is Ok ==> {
                &&& after.rent_payer.info.key == before.rent_payer.info.key
                &&& after.rent_payer.info.lamports == sum
                &&& after.vault.info.key == before.vault.info.key
                &&& after.vault.info.lamports == 0
                &&& after.vault.data_len == 0
                &&& after.vault.state == v
            }
            &&& done is Err ==> after == before
        }),
{
    if done is Ok {
        assert(done->Ok_0 == ());
    }
}

/// Rolling the clock is the demo authority's, in a demo build and on the vault at its
/// address. It sets the stored offset to the argument, whatever it was, and changes
/// nothing else; a refused call changes nothing.
pub proof fn law_clock_offset_is_absolute(
    before: AdvanceClock,
    args: AdvanceClockArgs,
    build: Build,
    derived: Option<Seq<u8>>,
    after: AdvanceClock,
    done: Result<(), Error>,
)
    requires
        crate::program::advance_clock_result(before, args, build, derived, after, done),
    ensures
        done == (if build == Build::Production {
            Err(Error::InstructionFallbackNotFound)
        } else if derived != Some(before.vault.info.key.bytes@) {
            Err(Error::ConstraintSeeds)
        } else if before.vault.state.demo_authority != before.demo_authority.info.key {
            Err(Error::Verita(VeritaError::Unauthorized))
        } else {
            Ok(())
        }),
        done is Ok ==> {
            &&& after.vault.state.clock_offset == args.new_offset
            &&& after.vault.state == (RetentionVault {
                clock_offset: after.vault.state.clock_offset,
                ..before.vault.state
            })
            &&& after.vault.info == before.vault.info
            &&& after.vault.data_len == before.vault.data_len
            &&& after.demo_authority == before.demo_authority
        },
        done is Err ==> after == before,
{
    if done is Ok {
        assert(done->Ok_0 == ());
    }
}

/// Of two calls that roll the clock the last decides alone: the vault is as if the first
/// had never been made, and in a demo build it goes by the runtime's time plus the last
/// offset.
pub proof fn law_last_clock_offset_decides(
    before: AdvanceClock,
    first: AdvanceClockArgs,
    between: AdvanceClock,
    second: AdvanceClockArgs,
    after: AdvanceClock,
    alone: AdvanceClock,
    derived: Option<Seq<u8>>,
    now: i64,
)
    requires
        crate::program::advance_clock_result(
            before,
            first,
            Build::Demo,
            derived,
            between,
            Ok(()),
        ),
        crate::program::advance_clock_result(
            between,
            second,
            Build::Demo,
            derived,
            after,
            Ok(()),
        ),
        crate::program::advance_clock_result(before, second, Build::Demo, derived, alone, Ok(())),
    ensures
        after == alone,
        after.vault.state.clock_offset == second.new_offset,
        i64::MIN <= now + second.new_offset <= i64::MAX ==> after.vault.state.effective_time(
            Build::Demo,
            Ok(now),
        ) is Ok && after.vault.state.effective_time(Build::Demo, Ok(now))->Ok_0 == now
            + second.new_offset,
{
}

// ---------------------------------------------------------------------------
// The runtime's answers
// ---------------------------------------------------------------------------
/// The time that a claim is decided by is the one that the runtime's clock answered. A claim
/// that goes through in a production build was answered a time at or past completion plus
/// period plus grace; in a demo build, that time plus the stored offset is.
pub proof fn law_claim_goes_by_the_runtimes_clock(
    before: ClaimRelease,
    build: Build,
    now: Result<i64, Error>,
    rent: Result<u64, Error>,
    after: ClaimRelease,
    done: Result<(), Error>,
)
    requires
        crate::runtime::clock_reply(now),
        crate::instructions::claim_result(before, build, now, rent, after, done),
        done is Ok,
    ensures
        exists|t: i64|
            {
                let v = before.vault.state;
                let opens = v.practical_completion_ts + v.dlp_days * 86_400 + v.grace_days * 86_400;
                &&& #[trigger] crate::provenance::clock_answered(Ok(t))
                &&& build == Build::Production ==> t >= opens
                &&& build == Build::Demo ==> t + v.clock_offset >= opens
            },
{
    let clock = choose|clock: Result<i64, anchor_lang::prelude::ProgramError>|
        {
            &&& #[trigger] crate::provenance::clock_answered(clock)
            &&& now == crate::runtime::clock_time(clock)
        };
    assert(crate::provenance::clock_answered(Ok(clock->Ok_0)));
}

/// The answer of the clock is taken as it is, and every failure is an unsupported sysvar.
pub proof fn law_clock_answers_are_taken_as_they_are(
    clock: Result<i64, anchor_lang::prelude::ProgramError>,
)
    ensures
        clock matches Ok(t) ==> crate::runtime::clock_time(clock) == Ok::<i64, Error>(t),
        clock is Err ==> crate::runtime::clock_time(clock) == Err::<i64, Error>(
            Error::UnsupportedSysvar,
        ),
{
}

/// The rent-exempt minimum is the one of `Rent::minimum_balance` for the very length, and is
/// missing only where the charged bytes, 128 more than the data, or their product with
/// the rate leave 64 bits.
pub proof fn law_rent_minimum_is_the_runtimes(rate: u64, threshold_bits: u64, data_len: usize)
    ensures
        (128 + data_len) * rate <= u64::MAX && 128 + data_len <= u64::MAX
            ==> crate::runtime::rent_minimum(rate, threshold_bits, data_len) == Ok::<u64, Error>(
            crate::rent::rent_minimum_balance(rate, threshold_bits, data_len),
        ),
        !((128 + data_len) * rate <= u64::MAX && 128 + data_len <= u64::MAX)
            ==> crate::runtime::rent_minimum(rate, threshold_bits, data_len) == Err::<u64, Error>(
            Error::Verita(VeritaError::MathOverflow),
        ),
{
}

// ---------------------------------------------------------------------------
// Errors
// ---------------------------------------------------------------------------
/// Every error of the program has a number of its own, and the numbers are consecutive.
pub proof fn law_error_codes_are_distinct(a: VeritaError, b: VeritaError)
    ensures
        0 <= crate::error::error_index(a) < 17,
        crate::error::error_index(a) == crate::error::error_index(b) ==> a == b,
{
}

/// The numbers and texts that clients know the errors by.
pub proof fn law_errors_are_numbered_and_worded(e: VeritaError)
    ensures
        (crate::error::error_index(e), crate::error::error_text(e)) == (match e {
            VeritaError::AlreadyFunded => (0int, "This vault is already funded"@),
            VeritaError::Unauthorized => (1, "Your wallet isn't authorized for this action"@),
            VeritaError::BackstopNotReached => (2, "Retention isn't claimable yet — DLP hasn't expired"@),
            VeritaError::NothingToClaim => (3, "Nothing left to claim"@),
            VeritaError::AlreadyAttested => (4, "First moiety already certified"@),
            VeritaError::NonzeroResidual => (5, "Vault still holds funds; can't close"@),
            VeritaError::AlreadyClosed => (6, "Vault is already closed"@),
            VeritaError::VaultNotClaimable => (7, "Vault cannot be claimed in current state"@),
            VeritaError::ProjectIdTooLong => (8, "Project ID exceeds maximum length of 64 bytes"@),
            VeritaError::InvalidAmount => (9, "Retention amount must be greater than zero"@),
            VeritaError::InvalidReleaseSchedule => (10, "Release schedule must be between 1 and 10000 basis points"@),
            VeritaError::RentExemptViolation => (11, "Release would strand the vault below its rent-exempt minimum"@),
            VeritaError::MathOverflow => (12, "Arithmetic overflow or underflow"@),
            VeritaError::DivisionByZero => (13, "Division by zero"@),
            VeritaError::FreezeAfterCutoff => (14, "Defect window has closed"@),
            VeritaError::AggregateCapExceeded => (15, "Freeze exceeds the aggregate cap"@),
            VeritaError::TooManyFreezes => (16, "Too many active freezes"@),
        }),
{
}

} // verus!
