use anchor_lang::prelude::Pubkey;
use solana_bridge::address::Address;
use solana_bridge::data::Bridge;
use solana_bridge::data::BridgeAccount;
use solana_bridge::derivation::find_bridge_address;
use solana_bridge::derivation::find_edition_address;
use solana_bridge::derivation::find_metadata_address;
use solana_bridge::derivation::find_mint_address;
use solana_bridge::errors::Errors;
use solana_bridge::instructions::bridge_request::new_request;
use solana_bridge::instructions::bridge_request::new_request_signed;
use solana_bridge::instructions::bridge_request::NewRequest;
use solana_bridge::instructions::burn_token::burn_token;
use solana_bridge::instructions::burn_token::burn_token_signed;
use solana_bridge::instructions::burn_token::BurnToken;
use solana_bridge::instructions::initialize_bridge::initialize_bridge;
use solana_bridge::instructions::initialize_bridge::initialize_bridge_signed;
use solana_bridge::instructions::initialize_bridge::Initialize;
use solana_bridge::instructions::mint_nft::create_nft;
use solana_bridge::instructions::mint_nft::create_nft_signed;
use solana_bridge::instructions::mint_nft::CreateNFT;
use solana_bridge::transaction::Call;
use solana_bridge::transaction::DataV2;
use solana_bridge::transaction::Event;
use solana_bridge::transaction::NewRequestEvent;
use solana_bridge::transaction::Progress;
use solana_bridge::transaction::Step;
use solana_bridge::transaction::TokenMintedEvent;

fn address(fill: u8) -> Address {
    Address::new([fill; 32])
}

fn program() -> Address {
    address(11)
}

fn backend() -> Address {
    address(1)
}

fn bridge_account(seed: u64) -> BridgeAccount {
    let (key, bump) = find_bridge_address(seed, &program()).unwrap();
    BridgeAccount { key, data: Bridge { backend: backend(), seed, bump } }
}

fn custody_accounts() -> NewRequest {
    NewRequest {
        program_id: program(),
        bridge: bridge_account(7),
        mint: address(30),
        user_token_account: address(31),
        bridge_token_account: address(32),
        backend: backend(),
    }
}

fn release_accounts() -> BurnToken {
    BurnToken {
        program_id: program(),
        bridge: bridge_account(7),
        mint: address(30),
        bridge_token_account: address(32),
        backend: backend(),
    }
}

fn issuance_accounts(seed_p1: &str, seed_p2: &str, id: u64) -> CreateNFT {
    let service = address(40);
    let (mint, _) = find_mint_address(seed_p1, seed_p2, id, &program()).unwrap();
    let (metadata, _) = find_metadata_address(&service, &mint).unwrap();
    let (edition, _) = find_edition_address(&service, &mint).unwrap();
    CreateNFT {
        program_id: program(),
        bridge: bridge_account(7),
        backend: backend(),
        mint,
        destination_token_account: address(41),
        recipient: address(42),
        metadata_program: service,
        master_edition_account: edition,
        nft_metadata: metadata,
    }
}

fn issue(ctx: &CreateNFT, request_id: &str) -> Result<solana_bridge::transaction::Transaction, Errors> {
    create_nft(
        ctx,
        1,
        "x".to_string(),
        "y".to_string(),
        "Art#1".to_string(),
        "ART".to_string(),
        "ipfs://abc".to_string(),
        request_id.to_string(),
    )
}

#[test]
fn initialize_creates_the_entity_for_the_signer() {
    let (key, bump) = find_bridge_address(7, &program()).unwrap();
    let ctx = Initialize { program_id: program(), bridge: key, signer: backend() };
    let tx = initialize_bridge(&ctx, 7).unwrap();
    assert_eq!(
        tx.calls,
        vec![Call::CreateBridge {
            bridge: key,
            payer: backend(),
            record: Bridge { backend: backend(), seed: 7, bump },
        }]
    );
    assert_eq!(tx.event, None);
    assert_eq!(tx.signer.signer(), key);
    assert_eq!(tx.signer.owner(), program());
    assert_eq!(
        tx.signer.signer_seeds(),
        &vec![b"bridge".to_vec(), 7u64.to_le_bytes().to_vec(), vec![bump]]
    );
}

#[test]
fn initialize_refuses_another_address() {
    let ctx = Initialize { program_id: program(), bridge: address(5), signer: backend() };
    assert_eq!(initialize_bridge(&ctx, 7).unwrap_err(), Errors::DerivationMismatch);
    let (key, _) = find_bridge_address(8, &program()).unwrap();
    let ctx = Initialize { program_id: program(), bridge: key, signer: backend() };
    assert_eq!(initialize_bridge(&ctx, 7).unwrap_err(), Errors::DerivationMismatch);
}

#[test]
fn new_request_moves_one_unit_on_the_bridge_authority() {
    let ctx = custody_accounts();
    let tx = new_request(&ctx, "req-1".to_string()).unwrap();
    assert_eq!(
        tx.calls,
        vec![
            Call::OpenHolding {
                holding: address(32),
                payer: backend(),
                mint: address(30),
                owner: ctx.bridge.key,
            },
            Call::Transfer {
                from: address(31),
                to: address(32),
                authority: ctx.bridge.key,
                amount: 1,
            },
        ]
    );
    assert_eq!(
        tx.event,
        Some(Event::NewRequest(NewRequestEvent {
            mint: address(30),
            destination_token_account: address(32),
            request_id: "req-1".to_string(),
        }))
    );
}

#[test]
fn new_request_signs_with_the_seeds_the_platform_accepts() {
    let ctx = custody_accounts();
    let tx = new_request(&ctx, "req-1".to_string()).unwrap();
    assert_eq!(tx.signer.signer(), ctx.bridge.key);
    assert_eq!(tx.signer.owner(), program());
    let seeds = tx.signer.signer_seeds();
    assert_eq!(
        seeds,
        &vec![
            b"bridge".to_vec(),
            7u64.to_le_bytes().to_vec(),
            vec![ctx.bridge.data.bump]
        ]
    );
    let slices: Vec<&[u8]> = seeds.iter().map(|s| s.as_slice()).collect();
    let derived =
        Pubkey::create_program_address(&slices, &Pubkey::new_from_array(program().bytes)).unwrap();
    assert_eq!(Address::new(derived.to_bytes()), ctx.bridge.key);
}

#[test]
fn new_request_refuses_another_signer() {
    let mut ctx = custody_accounts();
    ctx.backend = address(2);
    assert_eq!(
        new_request(&ctx, "req-1".to_string()).unwrap_err(),
        Errors::NotBridgeBackend
    );
}

#[test]
fn new_request_refuses_seeds_that_do_not_reproduce_the_entity() {
    let mut ctx = custody_accounts();
    ctx.bridge.data.bump = ctx.bridge.data.bump.wrapping_sub(1);
    assert_eq!(
        new_request(&ctx, "req-1".to_string()).unwrap_err(),
        Errors::DerivationMismatch
    );
    let mut ctx = custody_accounts();
    ctx.bridge.data.seed = 8;
    assert_eq!(
        new_request(&ctx, "req-1".to_string()).unwrap_err(),
        Errors::DerivationMismatch
    );
    let mut ctx = custody_accounts();
    ctx.bridge.key = address(5);
    assert_eq!(
        new_request(&ctx, "req-1".to_string()).unwrap_err(),
        Errors::DerivationMismatch
    );
    let mut ctx = custody_accounts();
    ctx.program_id = address(12);
    assert_eq!(
        new_request(&ctx, "req-1".to_string()).unwrap_err(),
        Errors::DerivationMismatch
    );
}

#[test]
fn unauthorized_comes_before_derivation() {
    let mut ctx = custody_accounts();
    ctx.backend = address(2);
    ctx.bridge.key = address(5);
    assert_eq!(
        new_request(&ctx, "req-1".to_string()).unwrap_err(),
        Errors::NotBridgeBackend
    );
}

#[test]
fn new_request_signed_hands_on_the_capability_outcome() {
    let ctx = custody_accounts();
    let r = new_request_signed(&ctx, "r".to_string(), Err(Errors::DerivationMismatch));
    assert_eq!(r.unwrap_err(), Errors::DerivationMismatch);
    let r = new_request_signed(&ctx, "r".to_string(), Err(Errors::CollaboratorFailure(9)));
    assert_eq!(r.unwrap_err(), Errors::CollaboratorFailure(9));
    let mut other = custody_accounts();
    other.backend = address(2);
    let r = new_request_signed(&other, "r".to_string(), Err(Errors::DerivationMismatch));
    assert_eq!(r.unwrap_err(), Errors::NotBridgeBackend);
}

#[test]
fn a_capability_signs_only_for_its_own_entity() {
    let ctx = custody_accounts();
    let capability = new_request(&ctx, "r".to_string()).unwrap().signer;
    let mut elsewhere = custody_accounts();
    elsewhere.bridge = bridge_account(8);
    let r = new_request_signed(&elsewhere, "r".to_string(), Ok(capability));
    assert_eq!(r.unwrap_err(), Errors::DerivationMismatch);

    let capability = new_request(&ctx, "r".to_string()).unwrap().signer;
    let mut release = release_accounts();
    release.bridge = bridge_account(8);
    assert_eq!(
        burn_token_signed(&release, Ok(capability)).unwrap_err(),
        Errors::DerivationMismatch
    );

    let capability = new_request(&ctx, "r".to_string()).unwrap().signer;
    let release = release_accounts();
    let tx = burn_token_signed(&release, Ok(capability)).unwrap();
    assert_eq!(tx.signer.signer(), release.bridge.key);
}

#[test]
fn burn_token_destroys_one_unit_and_says_nothing() {
    let ctx = release_accounts();
    let tx = burn_token(&ctx).unwrap();
    assert_eq!(
        tx.calls,
        vec![Call::Burn {
            mint: address(30),
            from: address(32),
            authority: ctx.bridge.key,
            amount: 1,
        }]
    );
    assert_eq!(tx.event, None);
    assert_eq!(tx.signer.signer(), ctx.bridge.key);
}

#[test]
fn burn_token_refuses_another_signer() {
    let mut ctx = release_accounts();
    ctx.backend = address(2);
    assert_eq!(burn_token(&ctx).unwrap_err(), Errors::NotBridgeBackend);
    assert_eq!(
        burn_token_signed(&ctx, Err(Errors::DerivationMismatch)).unwrap_err(),
        Errors::NotBridgeBackend
    );
}

#[test]
fn burn_token_refuses_seeds_that_do_not_reproduce_the_entity() {
    let mut ctx = release_accounts();
    ctx.bridge.data.bump = ctx.bridge.data.bump.wrapping_sub(1);
    assert_eq!(burn_token(&ctx).unwrap_err(), Errors::DerivationMismatch);
}

#[test]
fn create_nft_makes_the_five_calls_in_order() {
    let ctx = issuance_accounts("x", "y", 1);
    let tx = issue(&ctx, "iss-1").unwrap();
    assert_eq!(
        tx.calls,
        vec![
            Call::CreateMint {
                mint: ctx.mint,
                payer: backend(),
                decimals: 0,
                authority: backend(),
                freeze_authority: backend(),
            },
            Call::OpenHolding {
                holding: address(41),
                payer: backend(),
                mint: ctx.mint,
                owner: address(42),
            },
            Call::MintTo { mint: ctx.mint, to: address(41), authority: backend(), amount: 1 },
            Call::CreateMetadata {
                metadata: ctx.nft_metadata,
                mint: ctx.mint,
                mint_authority: backend(),
                payer: backend(),
                update_authority: backend(),
                data: DataV2 {
                    name: "Art#1".to_string(),
                    symbol: "ART".to_string(),
                    uri: "ipfs://abc".to_string(),
                    seller_fee_basis_points: 0,
                    creators: None,
                    collection: None,
                    uses: None,
                },
                is_mutable: true,
                update_authority_is_signer: true,
                collection_details: None,
            },
            Call::CreateMasterEdition {
                edition: ctx.master_edition_account,
                metadata: ctx.nft_metadata,
                mint: ctx.mint,
                mint_authority: backend(),
                payer: backend(),
                update_authority: backend(),
                max_supply: Some(1),
            },
        ]
    );
    assert_eq!(
        tx.event,
        Some(Event::TokenMinted(TokenMintedEvent {
            mint: ctx.mint,
            destination_token_account: address(41),
            request_id: "iss-1".to_string(),
        }))
    );
}

#[test]
fn create_nft_signs_with_the_asset_seeds() {
    let ctx = issuance_accounts("x", "y", 1);
    let (_, bump) = find_mint_address("x", "y", 1, &program()).unwrap();
    let tx = issue(&ctx, "iss-1").unwrap();
    assert_eq!(tx.signer.signer(), ctx.mint);
    assert_eq!(tx.signer.owner(), program());
    assert_eq!(
        tx.signer.signer_seeds(),
        &vec![
            b"mint".to_vec(),
            b"x".to_vec(),
            b"y".to_vec(),
            1u64.to_le_bytes().to_vec(),
            vec![bump]
        ]
    );
    assert_ne!(tx.signer.signer(), ctx.bridge.key);
}

#[test]
fn create_nft_refuses_another_signer() {
    let mut ctx = issuance_accounts("x", "y", 1);
    ctx.backend = address(2);
    assert_eq!(issue(&ctx, "iss-1").unwrap_err(), Errors::NotBridgeBackend);
    let r = create_nft_signed(
        &ctx,
        "Art#1".to_string(),
        "ART".to_string(),
        "ipfs://abc".to_string(),
        "iss-1".to_string(),
        Err(Errors::DerivationMismatch),
    );
    assert_eq!(r.unwrap_err(), Errors::NotBridgeBackend);
}

#[test]
fn create_nft_refuses_accounts_that_are_not_derived() {
    let mut ctx = issuance_accounts("x", "y", 1);
    ctx.mint = address(5);
    assert_eq!(issue(&ctx, "iss-1").unwrap_err(), Errors::DerivationMismatch);
    let mut ctx = issuance_accounts("x", "y", 1);
    ctx.nft_metadata = address(5);
    assert_eq!(issue(&ctx, "iss-1").unwrap_err(), Errors::DerivationMismatch);
    let mut ctx = issuance_accounts("x", "y", 1);
    ctx.master_edition_account = address(5);
    assert_eq!(issue(&ctx, "iss-1").unwrap_err(), Errors::DerivationMismatch);
    let ctx = issuance_accounts("x", "y", 2);
    assert_eq!(issue(&ctx, "iss-1").unwrap_err(), Errors::DerivationMismatch);
    let ctx = issuance_accounts("y", "x", 1);
    assert_eq!(issue(&ctx, "iss-1").unwrap_err(), Errors::DerivationMismatch);
}

#[test]
fn create_nft_refuses_a_sub_seed_that_is_too_long() {
    let ctx = issuance_accounts("x", "y", 1);
    let r = create_nft(
        &ctx,
        1,
        "a".repeat(33),
        "y".to_string(),
        "Art#1".to_string(),
        "ART".to_string(),
        "ipfs://abc".to_string(),
        "iss-1".to_string(),
    );
    assert_eq!(r.unwrap_err(), Errors::DerivationMismatch);
}

#[test]
fn initialize_signed_hands_on_the_capability_outcome() {
    let (key, bump) = find_bridge_address(7, &program()).unwrap();
    let ctx = Initialize { program_id: program(), bridge: key, signer: backend() };
    let r = initialize_bridge_signed(&ctx, 7, bump, Err(Errors::DerivationMismatch));
    assert_eq!(r.unwrap_err(), Errors::DerivationMismatch);
    let capability = initialize_bridge(&ctx, 7).unwrap().signer;
    let tx = initialize_bridge_signed(&ctx, 7, bump, Ok(capability)).unwrap();
    assert_eq!(tx.calls.len(), 1);
    let capability = initialize_bridge(&ctx, 7).unwrap().signer;
    let other = Initialize { program_id: program(), bridge: address(5), signer: backend() };
    let r = initialize_bridge_signed(&other, 7, bump, Ok(capability));
    assert_eq!(r.unwrap_err(), Errors::DerivationMismatch);
}

#[test]
fn delegated_calls_match_the_transactions() {
    let ctx = custody_accounts();
    assert_eq!(ctx.delegated_calls(), new_request(&ctx, "r".to_string()).unwrap().calls);
    let ctx = release_accounts();
    assert_eq!(ctx.delegated_calls(), burn_token(&ctx).unwrap().calls);
    let ctx = issuance_accounts("x", "y", 1);
    assert_eq!(
        ctx.delegated_calls("Art#1".to_string(), "ART".to_string(), "ipfs://abc".to_string()),
        issue(&ctx, "iss-1").unwrap().calls
    );
}

#[test]
fn a_transaction_is_driven_call_by_call() {
    let ctx = issuance_accounts("x", "y", 1);
    let tx = issue(&ctx, "iss-1").unwrap();
    let mut progress = Progress::start();
    for index in 0..5 {
        assert_eq!(tx.next_step(&progress), Step::Invoke(index));
        progress = tx.record(progress, Ok(()));
    }
    assert_eq!(tx.next_step(&progress), Step::Commit);
    progress = tx.record(progress, Err(3));
    assert_eq!(tx.next_step(&progress), Step::Commit);
}

#[test]
fn a_rejected_call_aborts_with_the_collaborator_code() {
    let ctx = issuance_accounts("x", "y", 1);
    for failing in 0..5usize {
        let tx = issue(&ctx, "iss-1").unwrap();
        let mut progress = Progress::start();
        for _ in 0..failing {
            progress = tx.record(progress, Ok(()));
        }
        assert_eq!(tx.next_step(&progress), Step::Invoke(failing));
        progress = tx.record(progress, Err(77));
        assert_eq!(tx.next_step(&progress), Step::Abort(Errors::CollaboratorFailure(77)));
        progress = tx.record(progress, Ok(()));
        assert_eq!(tx.next_step(&progress), Step::Abort(Errors::CollaboratorFailure(77)));
    }
}

#[test]
fn a_rejected_creation_of_the_entity_is_a_duplicate() {
    let (key, _) = find_bridge_address(7, &program()).unwrap();
    let ctx = Initialize { program_id: program(), bridge: key, signer: backend() };
    let tx = initialize_bridge(&ctx, 7).unwrap();
    let progress = tx.record(Progress::start(), Err(0));
    assert_eq!(tx.next_step(&progress), Step::Abort(Errors::DuplicateInitialization));
}

#[test]
fn request_id_is_carried_verbatim() {
    for id in ["", "req-1", "заявка-№1", "リクエスト", "a\nb\t\"c\"", "🔥"] {
        let ctx = custody_accounts();
        let tx = new_request(&ctx, id.to_string()).unwrap();
        assert_eq!(tx.event.unwrap().request_id(), id);
        let ctx = issuance_accounts("x", "y", 1);
        let tx = issue(&ctx, id).unwrap();
        assert_eq!(tx.event.unwrap().request_id(), id);
    }
}

#[test]
fn replay_gives_the_verdict_of_scripted_outcomes() {
    let ctx = issuance_accounts("x", "y", 1);
    let tx = issue(&ctx, "iss-1").unwrap();
    assert_eq!(tx.replay(&vec![]), Step::Invoke(0));
    assert_eq!(tx.replay(&vec![Ok(()), Ok(())]), Step::Invoke(2));
    assert_eq!(tx.replay(&vec![Ok(()); 5]), Step::Commit);
    assert_eq!(
        tx.replay(&vec![Ok(()), Ok(()), Ok(()), Err(9), Ok(())]),
        Step::Abort(Errors::CollaboratorFailure(9))
    );
    assert_eq!(
        tx.replay(&vec![Ok(()), Ok(()), Ok(()), Ok(()), Err(4)]),
        Step::Abort(Errors::CollaboratorFailure(4))
    );
    assert_eq!(
        tx.replay(&vec![Ok(()), Err(2), Err(3)]),
        Step::Abort(Errors::CollaboratorFailure(2))
    );
    assert_eq!(
        tx.replay(&vec![Ok(()), Ok(()), Ok(()), Ok(()), Ok(()), Err(1)]),
        Step::Commit
    );
}

#[test]
fn replay_of_an_initialization_reports_the_duplicate() {
    let (key, _) = find_bridge_address(7, &program()).unwrap();
    let ctx = Initialize { program_id: program(), bridge: key, signer: backend() };
    let tx = initialize_bridge(&ctx, 7).unwrap();
    assert_eq!(tx.replay(&vec![Ok(())]), Step::Commit);
    assert_eq!(tx.replay(&vec![Err(0)]), Step::Abort(Errors::DuplicateInitialization));
}
