use verita::error::{Error, VeritaError};
use verita::keys::Pubkey;
use verita::state::{
    Build, RetentionVault, BPS_DENOMINATOR, MAX_PROJECT_ID_LEN, SECONDS_PER_DAY, STATUS_CLOSED,
    STATUS_CPC_RELEASED, STATUS_DISPUTED, STATUS_FUNDED, STATUS_NEUTRAL_LOCKED, VAULT_SEED,
};

fn unique() -> Pubkey {
    Pubkey::new_from_array(anchor_lang::prelude::Pubkey::new_unique().to_bytes())
}

fn vault_with(amount: u64, bps: u16, project_id: &str) -> RetentionVault {
    RetentionVault {
        main_contractor: unique(),
        subcontractor: unique(),
        certifier: unique(),
        adjudicator: unique(),
        demo_authority: unique(),
        rent_payer: unique(),
        mint: Pubkey::default(),
        project_id: project_id.to_string(),
        amount,
        released_cumulative: 0,
        practical_completion_ts: 1_700_000_000,
        dlp_days: 365,
        grace_days: 14,
        release_schedule_bps: bps,
        cpc_attested: false,
        aggregate_frozen: 0,
        active_freeze_count: 0,
        aggregate_freeze_cap: 0,
        max_active_freezes: 0,
        clock_offset: 0,
        status: STATUS_FUNDED,
        bump: 255,
    }
}

const OVERFLOW: Error = Error::Verita(VeritaError::MathOverflow);

#[test]
fn init_space_fits_a_max_length_project_id() {
    // 7 pubkeys + (4 + 64) string + 65 bytes of scalars
    assert_eq!(RetentionVault::INIT_SPACE, 224 + 68 + 65);

    let max_id = "x".repeat(MAX_PROJECT_ID_LEN);
    let vault = vault_with(1_000_000_000, 5_000, &max_id);

    let serialized = vault.serialize().unwrap();
    assert!(
        serialized.len() <= RetentionVault::INIT_SPACE,
        "serialized {} bytes exceeds INIT_SPACE {}",
        serialized.len(),
        RetentionVault::INIT_SPACE
    );
}

#[test]
fn backstop_is_pc_plus_dlp_plus_grace() {
    let vault = vault_with(1_000_000_000, 5_000, "demo");
    let expected = 1_700_000_000 + (365 * SECONDS_PER_DAY) + (14 * SECONDS_PER_DAY);
    assert_eq!(vault.backstop_ts().unwrap(), expected);
}

#[test]
fn first_moiety_and_claimable_track_released_cumulative() {
    let mut vault = vault_with(1_000_000_000, 5_000, "demo");

    assert_eq!(vault.first_moiety().unwrap(), 500_000_000);
    assert_eq!(vault.claimable_now().unwrap(), 1_000_000_000);
    assert!(!vault.is_fully_released());

    // after the CPC moiety leaves, only the remainder is claimable
    vault.released_cumulative = 500_000_000;
    assert_eq!(vault.claimable_now().unwrap(), 500_000_000);
    assert!(!vault.is_fully_released());

    vault.released_cumulative = 1_000_000_000;
    assert_eq!(vault.claimable_now().unwrap(), 0);
    assert!(vault.is_fully_released());
}

#[test]
fn frozen_slice_is_excluded_from_claimable() {
    let mut vault = vault_with(1_000_000_000, 5_000, "demo");
    vault.aggregate_frozen = 250_000_000;
    assert_eq!(vault.claimable_now().unwrap(), 750_000_000);
}

#[test]
fn constants_have_their_values() {
    assert_eq!(&VAULT_SEED, b"vault");
    assert_eq!(MAX_PROJECT_ID_LEN, 64);
    assert_eq!(SECONDS_PER_DAY, 86_400);
    assert_eq!(BPS_DENOMINATOR, 10_000);
    assert_eq!(
        [
            STATUS_FUNDED,
            STATUS_CPC_RELEASED,
            STATUS_DISPUTED,
            STATUS_NEUTRAL_LOCKED,
            STATUS_CLOSED
        ],
        [0, 1, 2, 3, 4]
    );
}

#[test]
fn one_byte_more_than_the_bound_does_not_fit() {
    let long_id = "x".repeat(MAX_PROJECT_ID_LEN + 1);
    let vault = vault_with(1, 1, &long_id);
    assert_eq!(vault.serialize().unwrap().len(), RetentionVault::INIT_SPACE + 1);
}

#[test]
fn serialized_form_is_field_after_field() {
    let mut vault = vault_with(0x0102_0304_0506_0708, 5_000, "id");
    vault.practical_completion_ts = -2;
    vault.cpc_attested = true;
    vault.aggregate_frozen = 9;
    vault.active_freeze_count = 10;
    vault.aggregate_freeze_cap = 11;
    vault.max_active_freezes = 12;
    vault.clock_offset = -1;
    vault.status = STATUS_CPC_RELEASED;
    let bytes = vault.serialize().unwrap();
    assert_eq!(bytes.len(), 293 + 2);
    assert_eq!(bytes[0..32], vault.main_contractor.bytes);
    assert_eq!(bytes[32..64], vault.subcontractor.bytes);
    assert_eq!(bytes[64..96], vault.certifier.bytes);
    assert_eq!(bytes[96..128], vault.adjudicator.bytes);
    assert_eq!(bytes[128..160], vault.demo_authority.bytes);
    assert_eq!(bytes[160..192], vault.rent_payer.bytes);
    assert_eq!(bytes[192..224], [0u8; 32]);
    let mut rest: Vec<u8> = vec![2, 0, 0, 0, b'i', b'd', 8, 7, 6, 5, 4, 3, 2, 1];
    rest.extend_from_slice(&0u64.to_le_bytes());
    rest.extend_from_slice(&(-2i64).to_le_bytes());
    rest.extend_from_slice(&365u32.to_le_bytes());
    rest.extend_from_slice(&14u32.to_le_bytes());
    rest.extend_from_slice(&5_000u16.to_le_bytes());
    rest.push(1);
    rest.extend_from_slice(&9u64.to_le_bytes());
    rest.extend_from_slice(&10u16.to_le_bytes());
    rest.extend_from_slice(&11u64.to_le_bytes());
    rest.extend_from_slice(&12u16.to_le_bytes());
    rest.extend_from_slice(&(-1i64).to_le_bytes());
    rest.push(1);
    rest.push(255);
    assert_eq!(bytes[224..], rest[..]);
}

#[test]
fn first_moiety_rounds_down() {
    assert_eq!(vault_with(3, 5_000, "r").first_moiety(), Ok(1));
    assert_eq!(vault_with(10_001, 1, "r").first_moiety(), Ok(1));
    assert_eq!(vault_with(9_999, 1, "r").first_moiety(), Ok(0));
    assert_eq!(vault_with(7, 10_000, "r").first_moiety(), Ok(7));
}

#[test]
fn first_moiety_reports_an_overflowing_product() {
    assert_eq!(vault_with(u64::MAX, 2, "o").first_moiety(), Err(OVERFLOW));
    assert_eq!(
        vault_with(u64::MAX, 1, "o").first_moiety(),
        Ok(u64::MAX / 10_000)
    );
}

#[test]
fn claimable_reports_an_underflow() {
    let mut vault = vault_with(10, 5_000, "u");
    vault.released_cumulative = 11;
    assert_eq!(vault.claimable_now(), Err(OVERFLOW));
    vault.released_cumulative = 6;
    vault.aggregate_frozen = 5;
    assert_eq!(vault.claimable_now(), Err(OVERFLOW));
    vault.aggregate_frozen = 4;
    assert_eq!(vault.claimable_now(), Ok(0));
}

#[test]
fn backstop_reports_an_overflow() {
    let mut vault = vault_with(1, 1, "b");
    vault.practical_completion_ts = i64::MAX - 379 * SECONDS_PER_DAY;
    assert_eq!(vault.backstop_ts(), Ok(i64::MAX));
    vault.practical_completion_ts += 1;
    assert_eq!(vault.backstop_ts(), Err(OVERFLOW));
    vault.practical_completion_ts = i64::MIN;
    vault.dlp_days = u32::MAX;
    vault.grace_days = u32::MAX;
    let days = 2 * u32::MAX as i64;
    assert_eq!(
        vault.backstop_ts(),
        Ok(i64::MIN + days * SECONDS_PER_DAY)
    );
}

#[test]
fn only_a_demo_build_adds_the_offset() {
    let mut vault = vault_with(1, 1, "t");
    vault.clock_offset = 1_000;
    assert_eq!(vault.effective_ts_from(Build::Demo, Ok(5)), Ok(1_005));
    assert_eq!(vault.effective_ts_from(Build::Production, Ok(5)), Ok(5));
    assert_eq!(
        vault.effective_ts_from(Build::Demo, Ok(i64::MAX)),
        Err(OVERFLOW)
    );
    assert_eq!(
        vault.effective_ts_from(Build::Production, Ok(i64::MAX)),
        Ok(i64::MAX)
    );
    vault.clock_offset = -1_000;
    assert_eq!(
        vault.effective_ts_from(Build::Demo, Ok(i64::MIN)),
        Err(OVERFLOW)
    );
    let failed: Result<i64, Error> = Err(Error::UnsupportedSysvar);
    assert_eq!(vault.effective_ts_from(Build::Demo, failed), failed);
    assert_eq!(vault.effective_ts_from(Build::Production, failed), failed);
}

#[test]
fn outside_the_runtime_there_is_no_clock() {
    let vault = vault_with(1, 1, "c");
    assert_eq!(vault.effective_ts(Build::Demo), Err(Error::UnsupportedSysvar));
    assert_eq!(
        vault.effective_ts(Build::Production),
        Err(Error::UnsupportedSysvar)
    );
}

#[test]
fn a_clone_has_the_same_stored_form() {
    let vault = vault_with(77, 123, "clone me");
    assert_eq!(vault.clone().serialize(), vault.serialize());
}
