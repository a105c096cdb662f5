use anchor_lang::prelude::Pubkey;
use solana_bridge::address::Address;
use solana_bridge::data::Bridge;
use solana_bridge::derivation::bridge_seed_sequence;
use solana_bridge::derivation::confirm_derived;
use solana_bridge::derivation::edition_seed_sequence;
use solana_bridge::derivation::expect_found;
use solana_bridge::derivation::find_bridge_address;
use solana_bridge::derivation::find_edition_address;
use solana_bridge::derivation::find_metadata_address;
use solana_bridge::derivation::find_mint_address;
use solana_bridge::derivation::metadata_seed_sequence;
use solana_bridge::derivation::mint_seed_sequence;
use solana_bridge::derivation::MAX_SEEDS;
use solana_bridge::derivation::MAX_SEED_LEN;
use solana_bridge::errors::Errors;

fn address(fill: u8) -> Address {
    Address::new([fill; 32])
}

fn key(address: &Address) -> Pubkey {
    Pubkey::new_from_array(address.bytes)
}

#[test]
fn address_keeps_its_bytes() {
    let mut bytes = [0u8; 32];
    for (i, byte) in bytes.iter_mut().enumerate() {
        *byte = i as u8;
    }
    let a = Address::new(bytes);
    assert_eq!(a.bytes, bytes);
    assert_eq!(a.to_vec(), bytes.to_vec());
}

#[test]
fn addresses_compare_by_bytes() {
    let mut other = [9u8; 32];
    assert_eq!(address(9), Address::new(other));
    other[31] = 8;
    assert_ne!(address(9), Address::new(other));
    other[31] = 9;
    other[0] = 10;
    assert_ne!(address(9), Address::new(other));
}

#[test]
fn limits_are_those_of_the_platform() {
    assert_eq!(MAX_SEED_LEN, 32);
    assert_eq!(MAX_SEEDS, 16);
}

#[test]
fn bridge_seeds_are_tag_and_little_endian_seed() {
    assert_eq!(
        bridge_seed_sequence(7),
        vec![b"bridge".to_vec(), vec![7, 0, 0, 0, 0, 0, 0, 0]]
    );
    assert_eq!(
        bridge_seed_sequence(0x0102030405060708),
        vec![b"bridge".to_vec(), vec![8, 7, 6, 5, 4, 3, 2, 1]]
    );
    assert_eq!(
        bridge_seed_sequence(u64::MAX),
        vec![b"bridge".to_vec(), vec![255; 8]]
    );
}

#[test]
fn mint_seeds_are_tag_sub_seeds_and_identifier() {
    assert_eq!(
        mint_seed_sequence("x", "y", 1),
        vec![
            b"mint".to_vec(),
            b"x".to_vec(),
            b"y".to_vec(),
            vec![1, 0, 0, 0, 0, 0, 0, 0]
        ]
    );
}

#[test]
fn mint_seeds_take_sub_seeds_as_utf8() {
    let seeds = mint_seed_sequence("é", "", 256);
    assert_eq!(
        seeds,
        vec![
            b"mint".to_vec(),
            vec![0xc3, 0xa9],
            vec![],
            vec![0, 1, 0, 0, 0, 0, 0, 0]
        ]
    );
}

#[test]
fn metadata_and_edition_seeds_name_program_and_mint() {
    let program = address(3);
    let mint = address(4);
    assert_eq!(
        metadata_seed_sequence(&program, &mint),
        vec![b"metadata".to_vec(), vec![3; 32], vec![4; 32]]
    );
    assert_eq!(
        edition_seed_sequence(&program, &mint),
        vec![
            b"metadata".to_vec(),
            vec![3; 32],
            vec![4; 32],
            b"edition".to_vec()
        ]
    );
}

#[test]
fn bridge_address_is_the_platform_derivation() {
    let program = address(11);
    for seed in [0u64, 7, 42, u64::MAX] {
        let (expected, bump) =
            Pubkey::find_program_address(&[b"bridge", &seed.to_le_bytes()], &key(&program));
        let found = find_bridge_address(seed, &program);
        assert_eq!(found, Some((Address::new(expected.to_bytes()), bump)));
    }
}

#[test]
fn bridge_address_depends_on_seed_and_program() {
    let a = find_bridge_address(7, &address(11)).unwrap();
    let b = find_bridge_address(8, &address(11)).unwrap();
    let c = find_bridge_address(7, &address(12)).unwrap();
    assert_ne!(a.0, b.0);
    assert_ne!(a.0, c.0);
    assert_ne!(a.0, address(11));
    assert_eq!(find_bridge_address(7, &address(11)), Some(a));
}

#[test]
fn mint_address_is_the_platform_derivation() {
    let program = address(11);
    let (expected, bump) = Pubkey::find_program_address(
        &[b"mint", b"x", b"y", &1u64.to_le_bytes()],
        &key(&program),
    );
    assert_eq!(
        find_mint_address("x", "y", 1, &program),
        Some((Address::new(expected.to_bytes()), bump))
    );
}

#[test]
fn mint_address_needs_sub_seeds_within_the_limit() {
    let program = address(11);
    let longest = "a".repeat(32);
    let too_long = "a".repeat(33);
    assert!(find_mint_address(&longest, "y", 1, &program).is_some());
    assert_eq!(find_mint_address(&too_long, "y", 1, &program), None);
    assert_eq!(find_mint_address("x", &too_long, 1, &program), None);
}

#[test]
fn metadata_addresses_are_those_of_the_metadata_service() {
    let service = Address::new(mpl_token_metadata::ID.to_bytes());
    let mint = address(21);
    let (metadata, metadata_bump) =
        mpl_token_metadata::accounts::Metadata::find_pda(&key(&mint));
    let (edition, edition_bump) =
        mpl_token_metadata::accounts::MasterEdition::find_pda(&key(&mint));
    assert_eq!(
        find_metadata_address(&service, &mint),
        Some((Address::new(metadata.to_bytes()), metadata_bump))
    );
    assert_eq!(
        find_edition_address(&service, &mint),
        Some((Address::new(edition.to_bytes()), edition_bump))
    );
}

#[test]
fn expect_found_gives_the_bump_of_the_expected_address() {
    assert_eq!(expect_found(Some((address(1), 254)), &address(1)), Ok(254));
    assert_eq!(
        expect_found(Some((address(1), 254)), &address(2)),
        Err(Errors::DerivationMismatch)
    );
    assert_eq!(expect_found(None, &address(1)), Err(Errors::DerivationMismatch));
}

#[test]
fn confirm_derived_accepts_only_the_derived_address() {
    let program = address(11);
    let seeds = bridge_seed_sequence(7);
    let (derived, bump) = find_bridge_address(7, &program).unwrap();
    assert_eq!(confirm_derived(&seeds, &program, &derived), Ok(bump));
    assert_eq!(
        confirm_derived(&seeds, &program, &address(5)),
        Err(Errors::DerivationMismatch)
    );
    assert_eq!(
        confirm_derived(&seeds, &address(12), &derived),
        Err(Errors::DerivationMismatch)
    );
    assert_eq!(
        confirm_derived(&bridge_seed_sequence(8), &program, &derived),
        Err(Errors::DerivationMismatch)
    );
}

#[test]
fn confirm_derived_refuses_seeds_beyond_the_limits() {
    let program = address(11);
    let long = vec![vec![1u8; 33]];
    assert_eq!(
        confirm_derived(&long, &program, &address(5)),
        Err(Errors::DerivationMismatch)
    );
    let many: Vec<Vec<u8>> = (0..16u8).map(|i| vec![i]).collect();
    assert_eq!(
        confirm_derived(&many, &program, &address(5)),
        Err(Errors::DerivationMismatch)
    );
    let most: Vec<Vec<u8>> = (0..15u8).map(|i| vec![i]).collect();
    let slices: Vec<&[u8]> = most.iter().map(|s| s.as_slice()).collect();
    let (derived, bump) = Pubkey::find_program_address(&slices, &key(&program));
    assert_eq!(
        confirm_derived(&most, &program, &Address::new(derived.to_bytes())),
        Ok(bump)
    );
}

#[test]
fn signer_seeds_end_with_the_bump() {
    let bridge = Bridge { backend: address(1), seed: 7, bump: 253 };
    assert_eq!(
        bridge.signer_seed_sequence(),
        vec![b"bridge".to_vec(), vec![7, 0, 0, 0, 0, 0, 0, 0], vec![253]]
    );
}

#[test]
fn backend_guard_passes_only_the_backend() {
    let bridge = Bridge { backend: address(1), seed: 7, bump: 253 };
    assert!(bridge.is_backend(&address(1)));
    assert!(!bridge.is_backend(&address(2)));
    assert_eq!(bridge.authorize(&address(1)), Ok(()));
    assert_eq!(bridge.authorize(&address(2)), Err(Errors::NotBridgeBackend));
}

#[test]
fn initialize_on_the_entity_changes_nothing() {
    let mut bridge = Bridge { backend: address(1), seed: 7, bump: 253 };
    bridge.initialize();
    assert_eq!(bridge, Bridge { backend: address(1), seed: 7, bump: 253 });
}

#[test]
fn errors_have_their_messages() {
    assert_eq!(Errors::NotBridgeBackend.message(), "Not bridge backend");
    assert_eq!(
        Errors::DerivationMismatch.message(),
        "Seeds do not derive the expected address"
    );
    assert_eq!(
        Errors::CollaboratorFailure(1).message(),
        "Delegated call rejected"
    );
    assert_eq!(
        Errors::DuplicateInitialization.message(),
        "Bridge already initialized"
    );
}
