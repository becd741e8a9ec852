//! One input for each refusal, and the effects of each handler on given values.

use verita::error::{Error, VeritaError};
use verita::instructions::{
    handle_advance_clock, handle_attest_cpc, handle_attest_cpc_with, handle_claim_release,
    handle_claim_release_with, handle_close_vault, handle_fund_vault, release_from_vault,
    AccountInfo, AdvanceClock, AdvanceClockArgs, AttestCpc, ClaimRelease, CloseVault, FundVault,
    FundVaultArgs, NewAccount, Signer, SystemAccount, VaultAccount,
};
use verita::keys::Pubkey;
use verita::program::{
    advance_clock, advance_clock_with, attest_cpc, attest_cpc_with, bind_attest_cpc,
    bind_claim_release, claim_release, claim_release_with, close_vault, close_vault_with,
    create_vault, fund_vault, fund_vault_with,
};
use verita::state::{
    Build, RetentionVault, STATUS_CLOSED, STATUS_CPC_RELEASED, STATUS_DISPUTED, STATUS_FUNDED,
    STATUS_NEUTRAL_LOCKED,
};

const CONTRACTOR: u8 = 1;
const SUB: u8 = 2;
const CERTIFIER: u8 = 3;
const RENT_PAYER: u8 = 6;
const DEMO: u8 = 5;
const VAULT: u8 = 8;
const PROGRAM: u8 = 9;
const STRANGER: u8 = 77;

const BACKSTOP: i64 = 1_000 + 3 * 86_400;

fn key(n: u8) -> Pubkey {
    Pubkey::new_from_array([n; 32])
}

fn info(n: u8, lamports: u64) -> AccountInfo {
    AccountInfo {
        key: key(n),
        lamports,
    }
}

fn refused(e: VeritaError) -> Result<(), Error> {
    Err(Error::Verita(e))
}

fn args() -> FundVaultArgs {
    FundVaultArgs {
        project_id: "P".to_string(),
        amount: 1_001,
        practical_completion_ts: 1_000,
        dlp_days: 2,
        grace_days: 1,
        release_schedule_bps: 5_000,
        subcontractor: key(SUB),
        certifier: key(CERTIFIER),
        adjudicator: key(4),
        demo_authority: key(DEMO),
    }
}

fn fund_accounts() -> FundVault {
    FundVault {
        main_contractor: Signer {
            info: info(CONTRACTOR, 0),
        },
        rent_payer: Signer {
            info: info(RENT_PAYER, 0),
        },
        vault: NewAccount {
            key: key(VAULT),
            lamports: 0,
            in_use: false,
        },
    }
}

fn state() -> RetentionVault {
    handle_fund_vault(&fund_accounts(), args(), 200).unwrap().state
}

fn vault() -> VaultAccount {
    VaultAccount {
        info: info(VAULT, 1_501),
        data_len: 365,
        state: state(),
    }
}

fn claim() -> ClaimRelease {
    ClaimRelease {
        subcontractor: Signer {
            info: info(SUB, 10),
        },
        vault: vault(),
        rent_payer: SystemAccount {
            info: info(RENT_PAYER, 20),
        },
    }
}

fn attest() -> AttestCpc {
    AttestCpc {
        certifier: Signer {
            info: info(CERTIFIER, 30),
        },
        vault: vault(),
        subcontractor: SystemAccount {
            info: info(SUB, 10),
        },
    }
}

fn close() -> CloseVault {
    let mut vault = vault();
    vault.state.released_cumulative = vault.state.amount;
    vault.info.lamports = 500;
    CloseVault {
        rent_payer: SystemAccount {
            info: info(RENT_PAYER, 20),
        },
        vault,
    }
}

fn clock() -> AdvanceClock {
    AdvanceClock {
        demo_authority: Signer {
            info: info(DEMO, 40),
        },
        vault: vault(),
    }
}

// ---------------------------------------------------------------------------
// release_from_vault
// ---------------------------------------------------------------------------

#[test]
fn a_release_moves_lamports_down_to_the_rent_minimum() {
    let mut v = vault();
    let mut r = info(SUB, 10);
    assert_eq!(release_from_vault(&mut v, &mut r, 1_001, Ok(500)), Ok(()));
    assert_eq!((v.info.lamports, r.lamports), (500, 1_011));
    assert_eq!(
        release_from_vault(&mut v, &mut r, 1, Ok(500)),
        refused(VeritaError::RentExemptViolation)
    );
    assert_eq!((v.info.lamports, r.lamports), (500, 1_011));
}

#[test]
fn a_release_reports_over_and_underflow() {
    let mut v = vault();
    let mut r = info(SUB, 10);
    assert_eq!(
        release_from_vault(&mut v, &mut r, 1_502, Ok(0)),
        refused(VeritaError::MathOverflow)
    );
    let mut full = info(SUB, u64::MAX);
    assert_eq!(
        release_from_vault(&mut v, &mut full, 1, Ok(0)),
        refused(VeritaError::MathOverflow)
    );
    assert_eq!(
        release_from_vault(&mut v, &mut r, 1_502, Err(Error::UnsupportedSysvar)),
        Err(Error::UnsupportedSysvar)
    );
    assert_eq!((v.info.lamports, r.lamports), (1_501, 10));
}

// ---------------------------------------------------------------------------
// fund_vault
// ---------------------------------------------------------------------------

#[test]
fn funding_stores_the_terms_and_orders_the_transfer() {
    let funding = handle_fund_vault(&fund_accounts(), args(), 200).unwrap();
    assert_eq!(funding.transfer.from, key(CONTRACTOR));
    assert_eq!(funding.transfer.to, key(VAULT));
    assert_eq!(funding.transfer.lamports, 1_001);
    let v = funding.state;
    assert_eq!(v.main_contractor, key(CONTRACTOR));
    assert_eq!(v.rent_payer, key(RENT_PAYER));
    assert_eq!(v.practical_completion_ts, 1_000);
    assert_eq!((v.dlp_days, v.grace_days), (2, 1));
    assert_eq!(v.release_schedule_bps, 5_000);
    assert_eq!((v.aggregate_frozen, v.active_freeze_count), (0, 0));
    assert_eq!((v.aggregate_freeze_cap, v.max_active_freezes), (0, 0));
    assert_eq!((v.clock_offset, v.bump), (0, 200));
}

#[test]
fn funding_refuses_bad_arguments_in_order() {
    let fund = |a: FundVaultArgs| handle_fund_vault(&fund_accounts(), a, 1).map(|_| ());
    let mut a = args();
    a.project_id = "x".repeat(65);
    a.amount = 0;
    a.release_schedule_bps = 0;
    assert_eq!(fund(a), refused(VeritaError::ProjectIdTooLong));
    // the bound is in bytes, not characters
    let mut a = args();
    a.project_id = "é".repeat(33);
    assert_eq!(fund(a), refused(VeritaError::ProjectIdTooLong));
    let mut a = args();
    a.project_id = "é".repeat(32);
    assert_eq!(fund(a), Ok(()));
    let mut a = args();
    a.amount = 0;
    a.release_schedule_bps = 0;
    assert_eq!(fund(a), refused(VeritaError::InvalidAmount));
    let mut a = args();
    a.release_schedule_bps = 0;
    assert_eq!(fund(a), refused(VeritaError::InvalidReleaseSchedule));
    let mut a = args();
    a.release_schedule_bps = 10_001;
    assert_eq!(fund(a), refused(VeritaError::InvalidReleaseSchedule));
    let mut a = args();
    a.release_schedule_bps = 10_000;
    assert_eq!(fund(a), Ok(()));
}

fn try_fund(
    change: &dyn Fn(&mut FundVault),
    found: Option<(Pubkey, u8)>,
    rent: Result<u64, Error>,
) -> Result<verita::Opening, Error> {
    let mut a = fund_accounts();
    change(&mut a);
    fund_vault_with(&a, args(), &key(PROGRAM), found, rent)
}

#[test]
fn funding_needs_the_derived_address_and_a_fresh_account() {
    let found = Some((key(VAULT), 200));
    let opening = try_fund(&|_| {}, found, Ok(500)).unwrap();
    assert_eq!(opening.funding.state.bump, 200);
    assert_eq!(opening.funding.transfer.lamports, 1_001);
    let refuse = |r: Result<verita::Opening, Error>| r.map(|_| ());
    assert_eq!(
        refuse(try_fund(&|_| {}, None, Ok(500))),
        Err(Error::ConstraintSeeds)
    );
    assert_eq!(
        refuse(try_fund(&|_| {}, Some((key(7), 200)), Ok(500))),
        Err(Error::ConstraintSeeds)
    );
    assert_eq!(
        refuse(try_fund(&|a| a.vault.in_use = true, found, Ok(500))),
        Err(Error::AccountAlreadyInUse)
    );
    let own_payer = |a: &mut FundVault| {
        a.vault.lamports = 1;
        a.rent_payer.info.key = key(VAULT);
    };
    assert_eq!(
        refuse(try_fund(&own_payer, found, Ok(500))),
        Err(Error::TryingToInitPayerAsProgramAccount)
    );
    // the rent parameters are asked for before anything else
    assert_eq!(
        refuse(try_fund(&|_| {}, None, Err(Error::UnsupportedSysvar))),
        Err(Error::UnsupportedSysvar)
    );
    assert_eq!(
        refuse(fund_vault(&fund_accounts(), args(), &key(PROGRAM))),
        Err(Error::UnsupportedSysvar)
    );
    // a vault that can be created, with arguments that are refused
    let mut bad = args();
    bad.amount = 0;
    assert_eq!(
        refuse(fund_vault_with(&fund_accounts(), bad, &key(PROGRAM), found, Ok(500))),
        refused(VeritaError::InvalidAmount)
    );
}

#[test]
fn the_rent_payer_brings_the_vault_up_to_the_rent_minimum() {
    let found = Some((key(VAULT), 200));
    let fronted = |held: u64, rent: u64| {
        let mut a = fund_accounts();
        a.vault.lamports = held;
        let c = create_vault(&a, &key(PROGRAM), found, Ok(rent)).unwrap();
        assert_eq!(c.payer, key(RENT_PAYER));
        assert_eq!(c.account, key(VAULT));
        assert_eq!(c.owner, key(PROGRAM));
        assert_eq!(c.space, 365);
        c.lamports
    };
    assert_eq!(fronted(0, 500), 500);
    assert_eq!(fronted(1, 500), 499);
    assert_eq!(fronted(500, 500), 0);
    assert_eq!(fronted(501, 500), 0);
    assert_eq!(fronted(0, 0), 0);
    assert_eq!(fronted(1, 0), 0);
}

// ---------------------------------------------------------------------------
// claim_release
// ---------------------------------------------------------------------------

#[test]
fn a_claim_pays_everything_undisputed() {
    let mut a = claim();
    a.vault.state.aggregate_frozen = 1;
    let done = handle_claim_release_with(&mut a, Build::Production, Ok(BACKSTOP), Ok(500));
    assert_eq!(done, Ok(()));
    assert_eq!(a.vault.info.lamports, 501);
    assert_eq!(a.subcontractor.info.lamports, 1_010);
    assert_eq!(a.rent_payer.info.lamports, 20);
    assert_eq!(a.vault.state.released_cumulative, 1_000);
    assert_eq!(a.vault.state.status, STATUS_FUNDED);
}

#[test]
fn a_claim_is_refused_in_order() {
    let try_claim = |change: &dyn Fn(&mut ClaimRelease), now: i64, rent: u64| {
        let mut a = claim();
        change(&mut a);
        let lamports = a.vault.info.lamports;
        let released = a.vault.state.released_cumulative;
        let done = handle_claim_release_with(&mut a, Build::Production, Ok(now), Ok(rent));
        assert!(done.is_err());
        assert_eq!(a.vault.info.lamports, lamports);
        assert_eq!(a.vault.state.released_cumulative, released);
        done
    };
    for status in [STATUS_DISPUTED, STATUS_NEUTRAL_LOCKED, STATUS_CLOSED] {
        assert_eq!(
            try_claim(&|a| a.vault.state.status = status, BACKSTOP, 500),
            refused(VeritaError::VaultNotClaimable)
        );
    }
    assert_eq!(
        try_claim(&|_| {}, BACKSTOP - 1, 500),
        refused(VeritaError::BackstopNotReached)
    );
    assert_eq!(
        try_claim(
            &|a| a.vault.state.practical_completion_ts = i64::MAX,
            i64::MAX,
            500
        ),
        refused(VeritaError::MathOverflow)
    );
    assert_eq!(
        try_claim(&|a| a.vault.state.released_cumulative = 1_002, BACKSTOP, 500),
        refused(VeritaError::MathOverflow)
    );
    assert_eq!(
        try_claim(&|a| a.vault.state.released_cumulative = 1_001, BACKSTOP, 500),
        refused(VeritaError::NothingToClaim)
    );
    assert_eq!(
        try_claim(&|_| {}, BACKSTOP, 501),
        refused(VeritaError::RentExemptViolation)
    );
    assert_eq!(
        try_claim(&|a| a.vault.info.lamports = 1_000, BACKSTOP, 0),
        refused(VeritaError::MathOverflow)
    );
}

#[test]
fn a_claim_passes_on_what_the_runtime_answers() {
    let mut a = claim();
    assert_eq!(
        handle_claim_release_with(&mut a, Build::Demo, Err(Error::UnsupportedSysvar), Ok(500)),
        Err(Error::UnsupportedSysvar)
    );
    assert_eq!(
        handle_claim_release_with(
            &mut a,
            Build::Demo,
            Ok(BACKSTOP),
            Err(Error::UnsupportedSysvar)
        ),
        Err(Error::UnsupportedSysvar)
    );
    // outside the runtime there is no clock
    assert_eq!(
        handle_claim_release(&mut a, Build::Demo),
        Err(Error::UnsupportedSysvar)
    );
    // the status is looked at first
    a.vault.state.status = STATUS_CLOSED;
    assert_eq!(
        handle_claim_release(&mut a, Build::Demo),
        refused(VeritaError::VaultNotClaimable)
    );
}

#[test]
fn a_stored_offset_opens_the_backstop_in_demo_builds_only() {
    for offset in [0, BACKSTOP, i64::MAX] {
        let mut a = claim();
        a.vault.state.clock_offset = offset;
        assert_eq!(
            handle_claim_release_with(&mut a, Build::Production, Ok(0), Ok(500)),
            refused(VeritaError::BackstopNotReached)
        );
    }
    let mut a = claim();
    a.vault.state.clock_offset = BACKSTOP;
    assert_eq!(
        handle_claim_release_with(&mut a, Build::Demo, Ok(0), Ok(500)),
        Ok(())
    );
}

#[test]
fn a_claim_binds_its_accounts() {
    let at = Some(key(VAULT));
    assert_eq!(bind_claim_release(&claim(), at), Ok(()));
    assert_eq!(
        bind_claim_release(&claim(), None),
        Err(Error::ConstraintSeeds)
    );
    assert_eq!(
        bind_claim_release(&claim(), Some(key(7))),
        Err(Error::ConstraintSeeds)
    );
    let mut a = claim();
    a.subcontractor.info.key = key(CONTRACTOR);
    assert_eq!(
        bind_claim_release(&a, at),
        refused(VeritaError::Unauthorized)
    );
    let mut a = claim();
    a.rent_payer.info.key = key(STRANGER);
    assert_eq!(
        claim_release_with(&mut a, at, Build::Demo, Ok(BACKSTOP), Ok(500)),
        refused(VeritaError::Unauthorized)
    );
    assert_eq!(a.vault.info.lamports, 1_501);
    let mut a = claim();
    assert_eq!(
        claim_release_with(&mut a, at, Build::Demo, Ok(BACKSTOP), Ok(500)),
        Ok(())
    );
    // the key is not the address that the stored fields derive
    let mut a = claim();
    assert_eq!(
        claim_release(&mut a, &key(PROGRAM), Build::Demo),
        Err(Error::ConstraintSeeds)
    );
    // at its own address the claim reaches the runtime, which has no clock here
    let mut a = claim();
    let own = verita::address::find_vault_address("P", &key(SUB), &key(CONTRACTOR), &key(PROGRAM));
    let (address, bump) = own.unwrap();
    a.vault.info.key = address;
    a.vault.state.bump = bump;
    assert_eq!(
        claim_release(&mut a, &key(PROGRAM), Build::Demo),
        Err(Error::UnsupportedSysvar)
    );
}

// ---------------------------------------------------------------------------
// attest_cpc
// ---------------------------------------------------------------------------

#[test]
fn a_certificate_pays_the_first_moiety() {
    let mut a = attest();
    assert_eq!(handle_attest_cpc_with(&mut a, Ok(500)), Ok(()));
    assert_eq!(a.vault.info.lamports, 1_001);
    assert_eq!(a.subcontractor.info.lamports, 510);
    assert_eq!(a.certifier.info.lamports, 30);
    assert_eq!(a.vault.state.released_cumulative, 500);
    assert!(a.vault.state.cpc_attested);
    assert_eq!(a.vault.state.status, STATUS_CPC_RELEASED);
    // the rest, and nothing but the rest, leaves through the backstop
    let mut c = claim();
    c.vault = a.vault;
    assert_eq!(
        handle_claim_release_with(&mut c, Build::Production, Ok(BACKSTOP), Ok(500)),
        Ok(())
    );
    assert_eq!(c.vault.info.lamports, 500);
    assert_eq!(c.subcontractor.info.lamports, 10 + 501);
    assert!(c.vault.state.is_fully_released());
}

#[test]
fn a_certificate_is_refused_in_order() {
    let try_attest = |change: &dyn Fn(&mut AttestCpc), rent: u64| {
        let mut a = attest();
        change(&mut a);
        let lamports = a.vault.info.lamports;
        let done = handle_attest_cpc_with(&mut a, Ok(rent));
        assert!(done.is_err());
        assert_eq!(a.vault.info.lamports, lamports);
        done
    };
    assert_eq!(
        try_attest(&|a| a.vault.state.status = STATUS_CPC_RELEASED, 500),
        refused(VeritaError::AlreadyAttested)
    );
    assert_eq!(
        try_attest(&|a| a.vault.state.cpc_attested = true, 500),
        refused(VeritaError::AlreadyAttested)
    );
    assert_eq!(
        try_attest(&|a| a.vault.state.amount = u64::MAX, 500),
        refused(VeritaError::MathOverflow)
    );
    assert_eq!(
        try_attest(&|a| a.vault.state.amount = 1, 500),
        refused(VeritaError::NothingToClaim)
    );
    assert_eq!(
        try_attest(&|a| a.vault.state.released_cumulative = 1_002, 500),
        refused(VeritaError::MathOverflow)
    );
    assert_eq!(
        try_attest(&|a| a.vault.state.released_cumulative = 1_001, 500),
        refused(VeritaError::InvalidReleaseSchedule)
    );
    assert_eq!(
        try_attest(&|_| {}, 1_002),
        refused(VeritaError::RentExemptViolation)
    );
    let mut a = attest();
    assert_eq!(handle_attest_cpc(&mut a), Err(Error::UnsupportedSysvar));
}

#[test]
fn a_certificate_binds_its_accounts() {
    let at = Some(key(VAULT));
    assert_eq!(bind_attest_cpc(&attest(), at), Ok(()));
    assert_eq!(
        bind_attest_cpc(&attest(), None),
        Err(Error::ConstraintSeeds)
    );
    let mut a = attest();
    a.certifier.info.key = key(CONTRACTOR);
    assert_eq!(
        attest_cpc_with(&mut a, at, Ok(500)),
        refused(VeritaError::Unauthorized)
    );
    let mut a = attest();
    a.subcontractor.info.key = key(STRANGER);
    assert_eq!(
        attest_cpc_with(&mut a, at, Ok(500)),
        refused(VeritaError::Unauthorized)
    );
    assert_eq!(a.subcontractor.info.lamports, 10);
    let mut a = attest();
    assert_eq!(
        attest_cpc(&mut a, &key(PROGRAM)),
        Err(Error::ConstraintSeeds)
    );
}

// ---------------------------------------------------------------------------
// close_vault
// ---------------------------------------------------------------------------

#[test]
fn a_close_hands_over_the_whole_balance() {
    let mut a = close();
    assert_eq!(close_vault_with(&mut a, Some(key(VAULT))), Ok(()));
    assert_eq!(a.rent_payer.info.lamports, 520);
    assert_eq!((a.vault.info.lamports, a.vault.data_len), (0, 0));
}

#[test]
fn a_close_is_refused_in_order() {
    let try_close = |change: &dyn Fn(&mut CloseVault)| {
        let mut a = close();
        change(&mut a);
        let before = (a.vault.info.lamports, a.rent_payer.info.lamports);
        let derived = Some(a.vault.info.key);
        let done = close_vault_with(&mut a, derived);
        assert!(done.is_err());
        assert_eq!((a.vault.info.lamports, a.rent_payer.info.lamports), before);
        done
    };
    assert_eq!(
        try_close(&|a| a.rent_payer.info.key = key(STRANGER)),
        refused(VeritaError::Unauthorized)
    );
    assert_eq!(
        try_close(&|a| a.vault.state.status = STATUS_CLOSED),
        refused(VeritaError::AlreadyClosed)
    );
    assert_eq!(
        try_close(&|a| a.vault.state.released_cumulative = 1_000),
        refused(VeritaError::NonzeroResidual)
    );
    assert_eq!(
        try_close(&|a| a.vault.state.aggregate_frozen = 1),
        refused(VeritaError::NonzeroResidual)
    );
    assert_eq!(
        try_close(&|a| a.vault.info.key = key(RENT_PAYER)),
        Err(Error::ConstraintClose)
    );
    assert_eq!(
        try_close(&|a| a.rent_payer.info.lamports = u64::MAX),
        Err(Error::ArithmeticOverflow)
    );
    let mut a = close();
    assert_eq!(
        close_vault(&mut a, &key(PROGRAM)),
        Err(Error::ConstraintSeeds)
    );
    let mut a = close();
    assert_eq!(handle_close_vault(&mut a), Ok(()));
}

// ---------------------------------------------------------------------------
// advance_clock
// ---------------------------------------------------------------------------

#[test]
fn the_clock_is_set_and_nothing_else() {
    let mut a = clock();
    let offset = AdvanceClockArgs { new_offset: -5 };
    assert_eq!(
        advance_clock_with(&mut a, offset, Build::Demo, Some(key(VAULT))),
        Ok(())
    );
    assert_eq!(a.vault.state.clock_offset, -5);
    let mut same = a.vault.state.clone();
    same.clock_offset = 0;
    assert_eq!(same.serialize(), state().serialize());
    assert_eq!(
        handle_advance_clock(&mut a, AdvanceClockArgs { new_offset: 9 }),
        Ok(())
    );
    assert_eq!(a.vault.state.clock_offset, 9);
}

#[test]
fn the_clock_is_refused_to_others_and_in_production() {
    let offset = AdvanceClockArgs { new_offset: 5 };
    let mut a = clock();
    assert_eq!(
        advance_clock_with(&mut a, offset, Build::Production, Some(key(VAULT))),
        Err(Error::InstructionFallbackNotFound)
    );
    assert_eq!(
        advance_clock_with(&mut a, offset, Build::Demo, None),
        Err(Error::ConstraintSeeds)
    );
    assert_eq!(
        advance_clock(&mut a, offset, &key(PROGRAM), Build::Demo),
        Err(Error::ConstraintSeeds)
    );
    assert_eq!(
        advance_clock(&mut a, offset, &key(PROGRAM), Build::Production),
        Err(Error::InstructionFallbackNotFound)
    );
    a.demo_authority.info.key = key(SUB);
    assert_eq!(
        advance_clock_with(&mut a, offset, Build::Demo, Some(key(VAULT))),
        refused(VeritaError::Unauthorized)
    );
    assert_eq!(a.vault.state.clock_offset, 0);
}
