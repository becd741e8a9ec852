//! Where a vault lives: the address that the program derives for it.

use vstd::prelude::*;

use anchor_lang::prelude::Pubkey as Address;
use solana_sha256_hasher::hash;

use crate::keys::Pubkey;
use crate::state::{RetentionVault, VAULT_SEED};

verus! {

/// Result of `solana_sha256_hasher::hash`: the SHA-256 digest of the bytes.
pub uninterp spec fn sha256(data: Seq<u8>) -> Seq<u8>;

/// Result of `Pubkey::create_program_address`: the address that the seeds derive under a
/// program, or `None` where they derive none.
pub uninterp spec fn program_address(seeds: Seq<Seq<u8>>, program_id: Seq<u8>) -> Option<Seq<u8>>;

/// The bytes of a derived key.
pub open spec fn key_bytes(key: Option<Pubkey>) -> Option<Seq<u8>> {
    match key {
        Some(k) => Some(k@),
        None => None,
    }
}

/// The bytes of each seed.
pub open spec fn seed_bytes(seeds: Seq<&[u8]>) -> Seq<Seq<u8>> {
    seeds.map_values(|seed: &[u8]| seed@)
}

/// Address derived with one more seed, the bump.
pub open spec fn bumped_address(seeds: Seq<Seq<u8>>, bump: u8, program_id: Seq<u8>) -> Option<
    Seq<u8>,
> {
    program_address(seeds.push(seq![bump]), program_id)
}

/// `found` is the address with the largest bump above zero that derives one.
pub open spec fn is_canonical_address(
    seeds: Seq<Seq<u8>>,
    program_id: Seq<u8>,
    found: Option<(Pubkey, u8)>,
) -> bool {
    match found {
        Some((key, bump)) => {
            &&& bump > 0
            &&& bumped_address(seeds, bump, program_id) == Some(key@)
            &&& forall|larger: u8|
                bump < larger ==> (#[trigger] bumped_address(seeds, larger, program_id)) is None
        },
        None => forall|bump: u8|
            bump > 0 ==> (#[trigger] bumped_address(seeds, bump, program_id)) is None,
    }
}

/// `solana_sha256_hasher::hash`.
#[verifier::external_body]
fn sha256_of(data: &[u8]) -> (digest: [u8; 32])
    ensures
        digest@ == sha256(data@),
{
    hash(data).to_bytes()
}

/// `Pubkey::create_program_address`. Seeds that are too many, too long, or that hash to a point
/// of the curve derive no address; otherwise the address depends on the seeds and
/// the program alone.
#[verifier::external_body]
fn create_program_address(seeds: &[&[u8]], program_id: &Pubkey) -> (key: Option<Pubkey>)
    ensures
        key_bytes(key) == program_address(seed_bytes(seeds@), program_id@),
{
    match Address::create_program_address(seeds, &Address::new_from_array(program_id.bytes)) {
        Ok(address) => Some(Pubkey { bytes: address.to_bytes() }),
        Err(_) => None,
    }
}

/// `Pubkey::try_find_program_address`. It tries the bumps from 255 down to 1 and returns the
/// first that derives an address, together with that address.
#[verifier::external_body]
fn try_find_program_address(seeds: &[&[u8]], program_id: &Pubkey) -> (found: Option<(Pubkey, u8)>)
    ensures
        is_canonical_address(seed_bytes(seeds@), program_id@, found),
{
    match Address::try_find_program_address(seeds, &Address::new_from_array(program_id.bytes)) {
        Some((address, bump)) => Some((Pubkey { bytes: address.to_bytes() }, bump)),
        None => None,
    }
}

/// Digest of a project id.
pub open spec fn project_digest(project_id: Seq<char>) -> Seq<u8> {
    sha256(vstd::utf8::encode_utf8(project_id))
}

/// Seeds of the vault of a project, a subcontractor and a main contractor.
pub open spec fn vault_seeds(
    project_id: Seq<char>,
    subcontractor: Pubkey,
    main_contractor: Pubkey,
) -> Seq<Seq<u8>> {
    seq![VAULT_SEED@, project_digest(project_id), subcontractor@, main_contractor@]
}

/// Address that the stored fields of a vault derive.
pub open spec fn stored_address(v: RetentionVault, program_id: Pubkey) -> Option<Seq<u8>> {
    bumped_address(
        vault_seeds(v.project_id@, v.subcontractor, v.main_contractor),
        v.bump,
        program_id@,
    )
}

/// sha256 of the project id, used as a 32-byte seed component.
pub fn project_seed(project_id: &str) -> (seed: [u8; 32])
    ensures
        seed@ == project_digest(project_id@),
        seed@ == sha256(vstd::utf8::encode_utf8(project_id@)),
{
    sha256_of(project_id.as_bytes())
}

/// Address and bump under which a new vault is opened.
pub fn find_vault_address(
    project_id: &str,
    subcontractor: &Pubkey,
    main_contractor: &Pubkey,
    program_id: &Pubkey,
) -> (found: Option<(Pubkey, u8)>)
    ensures
        is_canonical_address(
            vault_seeds(project_id@, *subcontractor, *main_contractor),
            program_id@,
            found,
        ),
        found matches Some((key, bump)) ==> program_address(
            seq![
                seq![118u8, 97u8, 117u8, 108u8, 116u8],
                sha256(vstd::utf8::encode_utf8(project_id@)),
                subcontractor.bytes@,
                main_contractor.bytes@,
                seq![bump],
            ],
            program_id.bytes@,
        ) == Some(key.bytes@),
{
    let prefix = VAULT_SEED;
    let project = project_seed(project_id);
    let seeds: [&[u8]; 4] = [
        prefix.as_slice(),
        project.as_slice(),
        subcontractor.bytes.as_slice(),
        main_contractor.bytes.as_slice(),
    ];
    assert(seed_bytes(seeds@) =~= vault_seeds(project_id@, *subcontractor, *main_contractor));
    let found = try_find_program_address(seeds.as_slice(), program_id);
    proof {
        assert(VAULT_SEED@ =~= seq![118u8, 97u8, 117u8, 108u8, 116u8]);
        if let Some((_, bump)) = found {
            assert(vault_seeds(project_id@, *subcontractor, *main_contractor).push(seq![bump])
                =~= seq![
                seq![118u8, 97u8, 117u8, 108u8, 116u8],
                sha256(vstd::utf8::encode_utf8(project_id@)),
                subcontractor.bytes@,
                main_contractor.bytes@,
                seq![bump],
            ]);
        }
    }
    found
}

/// Address that the stored fields of a vault, its bump among them, derive.
pub fn derive_vault_address(v: &RetentionVault, program_id: &Pubkey) -> (key: Option<Pubkey>)
    ensures
        key_bytes(key) == stored_address(*v, *program_id),
        key_bytes(key) == program_address(
            seq![
                seq![118u8, 97u8, 117u8, 108u8, 116u8],
                sha256(vstd::utf8::encode_utf8(v.project_id@)),
                v.subcontractor.bytes@,
                v.main_contractor.bytes@,
                seq![v.bump],
            ],
            program_id.bytes@,
        ),
{
    let prefix = VAULT_SEED;
    let project = project_seed(v.project_id.as_str());
    let bump: [u8; 1] = [v.bump];
    let seeds: [&[u8]; 5] = [
        prefix.as_slice(),
        project.as_slice(),
        v.subcontractor.bytes.as_slice(),
        v.main_contractor.bytes.as_slice(),
        bump.as_slice(),
    ];
    assert(bump@ =~= seq![v.bump]);
    assert(seed_bytes(seeds@) =~= vault_seeds(
        v.project_id@,
        v.subcontractor,
        v.main_contractor,
    ).push(seq![v.bump]));
    assert(VAULT_SEED@ =~= seq![118u8, 97u8, 117u8, 108u8, 116u8]);
    assert(seed_bytes(seeds@) =~= seq![
        seq![118u8, 97u8, 117u8, 108u8, 116u8],
        sha256(vstd::utf8::encode_utf8(v.project_id@)),
        v.subcontractor.bytes@,
        v.main_contractor.bytes@,
        seq![v.bump],
    ]);
    create_program_address(seeds.as_slice(), program_id)
}

} // verus!
