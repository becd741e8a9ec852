use anchor_lang::prelude::{ProgramError, Rent};
use verita::address::{derive_vault_address, find_vault_address};
use verita::error::{Error, VeritaError};
use verita::instructions::project_seed;
use verita::keys::Pubkey;
use verita::runtime::{
    rates_of, rent_exempt_minimum, rent_minimum_from, unix_timestamp, unix_timestamp_from,
};
use verita::state::{RetentionVault, STATUS_FUNDED, VAULT_SEED};

fn key(n: u8) -> Pubkey {
    Pubkey::new_from_array([n; 32])
}

#[test]
fn rent_minimum_is_rate_times_charged_bytes_times_threshold() {
    // (128 + 365) bytes, 3480 lamports per byte and year, two years
    assert_eq!(rent_minimum_from(Ok(rates_of(Rent::default())), 365), Ok(3_431_280));
    assert_eq!(rent_minimum_from(Ok(rates_of(Rent::default())), 0), Ok(890_880));
    assert_eq!(rent_minimum_from(Ok(rates_of(Rent::free())), 365), Ok(0));
    assert_eq!(
        rent_minimum_from(Ok(rates_of(Rent::with_lamports_per_byte(10))), 72),
        Ok(2_000)
    );
    let rates = rates_of(Rent::with_lamports_per_byte(10));
    assert_eq!(rates.rate(), 10);
    assert_eq!(rates.minimum_balance(72), Ok(2_000));
}

#[test]
fn rent_minimum_reports_an_overflowing_product() {
    assert_eq!(
        rent_minimum_from(Ok(rates_of(Rent::with_lamports_per_byte(u64::MAX))), 1),
        Err(Error::Verita(VeritaError::MathOverflow))
    );
    assert_eq!(
        rent_minimum_from(Ok(rates_of(Rent::default())), usize::MAX),
        Err(Error::Verita(VeritaError::MathOverflow))
    );
}

#[test]
fn without_rent_parameters_there_is_no_minimum() {
    assert_eq!(
        rent_minimum_from(Err(ProgramError::UnsupportedSysvar), 365),
        Err(Error::UnsupportedSysvar)
    );
    assert_eq!(rent_exempt_minimum(365), Err(Error::UnsupportedSysvar));
    assert_eq!(unix_timestamp(), Err(Error::UnsupportedSysvar));
}

#[test]
fn the_time_is_the_one_that_the_clock_answers() {
    assert_eq!(unix_timestamp_from(Ok(1_700_000_000)), Ok(1_700_000_000));
    assert_eq!(unix_timestamp_from(Ok(-1)), Ok(-1));
    assert_eq!(
        unix_timestamp_from(Err(ProgramError::UnsupportedSysvar)),
        Err(Error::UnsupportedSysvar)
    );
}

#[test]
fn project_seed_is_the_sha256_of_the_id() {
    assert_eq!(
        project_seed("abc"),
        [
            0xba, 0x78, 0x16, 0xbf, 0x8f, 0x01, 0xcf, 0xea, 0x41, 0x41, 0x40, 0xde, 0x5d, 0xae,
            0x22, 0x23, 0xb0, 0x03, 0x61, 0xa3, 0x96, 0x17, 0x7a, 0x9c, 0xb4, 0x10, 0xff, 0x61,
            0xf2, 0x00, 0x15, 0xad
        ]
    );
    assert_ne!(project_seed("abc"), project_seed("abd"));
}

fn vault_at(project_id: &str, bump: u8) -> RetentionVault {
    RetentionVault {
        main_contractor: key(1),
        subcontractor: key(2),
        certifier: key(3),
        adjudicator: key(4),
        demo_authority: key(5),
        rent_payer: key(6),
        mint: Pubkey::default(),
        project_id: project_id.to_string(),
        amount: 1,
        released_cumulative: 0,
        practical_completion_ts: 0,
        dlp_days: 0,
        grace_days: 0,
        release_schedule_bps: 1,
        cpc_attested: false,
        aggregate_frozen: 0,
        active_freeze_count: 0,
        aggregate_freeze_cap: 0,
        max_active_freezes: 0,
        clock_offset: 0,
        status: STATUS_FUNDED,
        bump,
    }
}

#[test]
fn the_vault_address_is_the_canonical_program_address() {
    let program_id = anchor_lang::prelude::Pubkey::new_from_array([9; 32]);
    let (address, bump) = anchor_lang::prelude::Pubkey::find_program_address(
        &[
            &VAULT_SEED,
            &project_seed("P-1"),
            &key(2).to_bytes(),
            &key(1).to_bytes(),
        ],
        &program_id,
    );
    let found = find_vault_address("P-1", &key(2), &key(1), &key(9));
    assert_eq!(
        found,
        Some((Pubkey::new_from_array(address.to_bytes()), bump))
    );
    // the stored fields derive the same address
    assert_eq!(
        derive_vault_address(&vault_at("P-1", bump), &key(9)),
        Some(Pubkey::new_from_array(address.to_bytes()))
    );
}

#[test]
fn the_address_depends_on_every_seed() {
    let (vault, bump) = find_vault_address("P-1", &key(2), &key(1), &key(9)).unwrap();
    assert_ne!(find_vault_address("P-2", &key(2), &key(1), &key(9)).unwrap().0, vault);
    assert_ne!(find_vault_address("P-1", &key(3), &key(1), &key(9)).unwrap().0, vault);
    assert_ne!(find_vault_address("P-1", &key(2), &key(3), &key(9)).unwrap().0, vault);
    assert_ne!(find_vault_address("P-1", &key(2), &key(1), &key(8)).unwrap().0, vault);
    assert_ne!(
        derive_vault_address(&vault_at("P-1", bump - 1), &key(9)),
        Some(vault)
    );
    assert_ne!(derive_vault_address(&vault_at("P-2", bump), &key(9)), Some(vault));
}

#[test]
fn no_larger_bump_derives_an_address() {
    for project in ["a", "b", "c", "d", "e", "f", "g", "h"] {
        let (_, bump) = find_vault_address(project, &key(2), &key(1), &key(9)).unwrap();
        let mut larger = bump;
        while larger < 255 {
            larger += 1;
            assert_eq!(derive_vault_address(&vault_at(project, larger), &key(9)), None);
        }
    }
}

#[test]
fn keys_compare_by_their_bytes() {
    assert_eq!(key(1), Pubkey::new_from_array([1; 32]));
    assert_ne!(key(1), key(2));
    let mut last = [1u8; 32];
    last[31] = 2;
    assert_ne!(key(1), Pubkey::new_from_array(last));
    assert_eq!(Pubkey::default().to_bytes(), [0; 32]);
}

#[test]
fn error_codes_follow_the_declaration_order() {
    let all = [
        VeritaError::AlreadyFunded,
        VeritaError::Unauthorized,
        VeritaError::BackstopNotReached,
        VeritaError::NothingToClaim,
        VeritaError::AlreadyAttested,
        VeritaError::NonzeroResidual,
        VeritaError::AlreadyClosed,
        VeritaError::VaultNotClaimable,
        VeritaError::ProjectIdTooLong,
        VeritaError::InvalidAmount,
        VeritaError::InvalidReleaseSchedule,
        VeritaError::RentExemptViolation,
        VeritaError::MathOverflow,
        VeritaError::DivisionByZero,
        VeritaError::FreezeAfterCutoff,
        VeritaError::AggregateCapExceeded,
        VeritaError::TooManyFreezes,
    ];
    let mut code: u32 = 6000;
    for e in all {
        assert_eq!(e.code(), code);
        code += 1;
    }
    assert_eq!(VeritaError::AlreadyFunded.msg(), "This vault is already funded");
    assert_eq!(
        VeritaError::BackstopNotReached.msg(),
        "Retention isn't claimable yet — DLP hasn't expired"
    );
    assert_eq!(VeritaError::TooManyFreezes.msg(), "Too many active freezes");
}
