use vstd::prelude::*;
use crate::address::Address;
use crate::data::BridgeAccount;
use crate::derivation::bump_for;
use crate::derivation::confirm_derived;
use crate::derivation::edition_seed_sequence;
use crate::derivation::edition_seeds;
use crate::derivation::lemma_located_reproduces;
use crate::derivation::metadata_seed_sequence;
use crate::derivation::metadata_seeds;
use crate::derivation::mint_seed_sequence;
use crate::derivation::mint_seeds;
use crate::derivation::seed_bytes;
use crate::derivation::SigningCapability;
use crate::derivation::with_bump;
use crate::errors::Errors;
use crate::transaction::Call;
use crate::transaction::DataV2;
use crate::transaction::Event;
use crate::transaction::TokenMintedEvent;
use crate::transaction::Transaction;

verus! {

/// The accounts of an issuance.
#[derive(Clone, Copy, Debug, PartialEq, Eq)]
pub struct CreateNFT {
    /// The program that owns the bridge and derives the asset's address.
    pub program_id: Address,
    /// The registry entity.
    pub bridge: BridgeAccount,
    /// The invoking signer, who pays and becomes the asset's authority.
    pub backend: Address,
    /// The token type to create, at the asset's derived address.
    pub mint: Address,
    /// The recipient's holding of the new token type.
    pub destination_token_account: Address,
    /// The owner of that holding.
    pub recipient: Address,
    /// The metadata service.
    pub metadata_program: Address,
    /// The edition marker, derived under the metadata service.
    pub master_edition_account: Address,
    /// The metadata record, derived under the metadata service.
    pub nft_metadata: Address,
}

impl CreateNFT {
    /// The invoking signer is the backend of the bridge.
    pub open spec fn authorized(&self) -> bool {
        self.bridge.data.backend == self.backend
    }

    /// The bump with which the sub-seeds and the identifier derive the token
    /// type's address, where they derive it at all.
    pub open spec fn mint_bump(&self, id: u64, seed_p1: Seq<char>, seed_p2: Seq<char>) -> Option<
        u8,
    > {
        bump_for(mint_seeds(seed_p1, seed_p2, id), self.program_id@, self.mint@)
    }

    /// The metadata record and the edition marker are the ones that the
    /// metadata service derives for the token type.
    pub open spec fn records_derived(&self) -> bool {
        &&& bump_for(
            edition_seeds(self.metadata_program@, self.mint@),
            self.metadata_program@,
            self.master_edition_account@,
        ) is Some
        &&& bump_for(
            metadata_seeds(self.metadata_program@, self.mint@),
            self.metadata_program@,
            self.nft_metadata@,
        ) is Some
    }

    /// The delegated calls of an issuance, in order: create the zero-decimal
    /// token type, open the recipient's holding, mint exactly one unit, attach
    /// the metadata (no royalty, creators, collection or usage grant;
    /// mutable), and attach the edition marker that fixes the copies at one.
    pub open spec fn calls(&self, name: String, symbol: String, uri: String) -> Seq<Call> {
        seq![
            Call::CreateMint {
                mint: self.mint,
                payer: self.backend,
                decimals: 0,
                authority: self.backend,
                freeze_authority: self.backend,
            },
            Call::OpenHolding {
                holding: self.destination_token_account,
                payer: self.backend,
                mint: self.mint,
                owner: self.recipient,
            },
            Call::MintTo {
                mint: self.mint,
                to: self.destination_token_account,
                authority: self.backend,
                amount: 1,
            },
            Call::CreateMetadata {
                metadata: self.nft_metadata,
                mint: self.mint,
                mint_authority: self.backend,
                payer: self.backend,
                update_authority: self.backend,
                data: DataV2 {
                    name,
                    symbol,
                    uri,
                    seller_fee_basis_points: 0,
                    creators: None,
                    collection: None,
                    uses: None,
                },
                is_mutable: true,
                update_authority_is_signer: true,
                collection_details: None,
            },
            Call::CreateMasterEdition {
                edition: self.master_edition_account,
                metadata: self.nft_metadata,
                mint: self.mint,
                mint_authority: self.backend,
                payer: self.backend,
                update_authority: self.backend,
                max_supply: Some(1u64),
            },
        ]
    }

    /// The event of an issuance.
    pub open spec fn event(&self, request_id: String) -> Event {
        Event::TokenMinted(
            TokenMintedEvent {
                mint: self.mint,
                destination_token_account: self.destination_token_account,
                request_id,
            },
        )
    }
}

impl CreateNFT {
    /// Builds `self.calls(name, symbol, uri)`.
    pub fn delegated_calls(&self, name: String, symbol: String, uri: String) -> (calls: Vec<Call>)
        ensures
            calls@ == self.calls(name, symbol, uri),
    {
        let mut calls: Vec<Call> = Vec::new();
        calls.push(
            Call::CreateMint {
                mint: self.mint,
                payer: self.backend,
                decimals: 0,
                authority: self.backend,
                freeze_authority: self.backend,
            },
        );
        calls.push(
            Call::OpenHolding {
                holding: self.destination_token_account,
                payer: self.backend,
                mint: self.mint,
                owner: self.recipient,
            },
        );
        calls.push(
            Call::MintTo {
                mint: self.mint,
                to: self.destination_token_account,
                authority: self.backend,
                amount: 1,
            },
        );
        calls.push(
            Call::CreateMetadata {
                metadata: self.nft_metadata,
                mint: self.mint,
                mint_authority: self.backend,
                payer: self.backend,
                update_authority: self.backend,
                data: DataV2 {
                    name,
                    symbol,
                    uri,
                    seller_fee_basis_points: 0,
                    creators: None,
                    collection: None,
                    uses: None,
                },
                is_mutable: true,
                update_authority_is_signer: true,
                collection_details: None,
            },
        );
        calls.push(
            Call::CreateMasterEdition {
                edition: self.master_edition_account,
                metadata: self.nft_metadata,
                mint: self.mint,
                mint_authority: self.backend,
                payer: self.backend,
                update_authority: self.backend,
                max_supply: Some(1),
            },
        );
        assert(calls@ =~= self.calls(name, symbol, uri));
        calls
    }

    /// `signer` signs for the asset of these accounts.
    pub open spec fn signed_by(&self, signer: SigningCapability) -> bool {
        signer.address() == self.mint && signer.program() == self.program_id
    }

    /// The asset's own capability: the sub-seeds and the identifier, completed
    /// by the bump found for them. It is made only if they derive the token
    /// type's address and the metadata service derives the two records.
    pub(crate) fn asset_capability(&self, id: u64, seed_p1: &str, seed_p2: &str) -> (r: Result<
        SigningCapability,
        Errors,
    >)
        ensures
            self.mint_bump(id, seed_p1@, seed_p2@) is None || !self.records_derived() ==> r is Err
                && r->Err_0 == Errors::DerivationMismatch,
            self.mint_bump(id, seed_p1@, seed_p2@) is Some && self.records_derived() ==> r is Ok
                && r->Ok_0.seeds() == with_bump(
                mint_seeds(seed_p1@, seed_p2@, id),
                self.mint_bump(id, seed_p1@, seed_p2@)->Some_0,
            ) && r->Ok_0.program() == self.program_id && r->Ok_0.address() == self.mint
                && r->Ok_0.reproduces(),
    {
        let mut seeds = mint_seed_sequence(seed_p1, seed_p2, id);
        let bump = match confirm_derived(&seeds, &self.program_id, &self.mint) {
            Ok(bump) => bump,
            Err(error) => {
                return Err(error);
            },
        };
        let edition = edition_seed_sequence(&self.metadata_program, &self.mint);
        if confirm_derived(&edition, &self.metadata_program, &self.master_edition_account).is_err() {
            return Err(Errors::DerivationMismatch);
        }
        let metadata = metadata_seed_sequence(&self.metadata_program, &self.mint);
        if confirm_derived(&metadata, &self.metadata_program, &self.nft_metadata).is_err() {
            return Err(Errors::DerivationMismatch);
        }
        proof {
            lemma_located_reproduces(mint_seeds(seed_p1@, seed_p2@, id), self.program_id@);
        }
        let mut last: Vec<u8> = Vec::new();
        last.push(bump);
        seeds.push(last);
        assert(seed_bytes(seeds@) =~= with_bump(mint_seeds(seed_p1@, seed_p2@, id), bump));
        SigningCapability::present(seeds, &self.program_id, &self.mint)
    }
}

/// The issuance, given the outcome of making the asset's capability. An
/// unauthorized signer is refused whatever that outcome; a capability that
/// could not be made hands on its error; one made for another address or
/// program is a derivation mismatch.
pub fn create_nft_signed(
    ctx: &CreateNFT,
    name: String,
    symbol: String,
    uri: String,
    request_id: String,
    signer: Result<SigningCapability, Errors>,
) -> (r: Result<Transaction, Errors>)
    ensures
        !ctx.authorized() ==> r is Err && r->Err_0 == Errors::NotBridgeBackend,
        ctx.authorized() && signer is Err ==> r is Err && r->Err_0 == signer->Err_0,
        ctx.authorized() && signer is Ok && !ctx.signed_by(signer->Ok_0) ==> r is Err && r->Err_0
            == Errors::DerivationMismatch,
        ctx.authorized() && signer is Ok && ctx.signed_by(signer->Ok_0) ==> r is Ok
            && r->Ok_0.calls@ == ctx.calls(name, symbol, uri) && r->Ok_0.event == Some(
            ctx.event(request_id),
        ) && r->Ok_0.signer == signer->Ok_0 && r->Ok_0.signer.reproduces(),
{
    if !ctx.bridge.data.is_backend(&ctx.backend) {
        return Err(Errors::NotBridgeBackend);
    }
    let signer = match signer {
        Ok(signer) => signer,
        Err(error) => {
            return Err(error);
        },
    };
    if !(signer.signer() == ctx.mint && signer.owner() == ctx.program_id) {
        return Err(Errors::DerivationMismatch);
    }
    let calls = ctx.delegated_calls(name, symbol, uri);
    let event = Event::TokenMinted(
        TokenMintedEvent {
            mint: ctx.mint,
            destination_token_account: ctx.destination_token_account,
            request_id,
        },
    );
    Ok(Transaction { calls, signer, event: Some(event) })
}

/// Issues a new non-fungible asset to the recipient.
///
/// Only the backend of the bridge may do so. The token type must live at the
/// address derived from the namespace tag, the two sub-seeds and the
/// identifier, and the metadata record and edition marker at the addresses
/// that the metadata service derives for it. The transaction is signed with
/// the asset's own capability: the asset's seeds completed by their bump.
pub fn create_nft(
    ctx: &CreateNFT,
    id: u64,
    seed_p1: String,
    seed_p2: String,
    name: String,
    symbol: String,
    uri: String,
    request_id: String,
) -> (r: Result<Transaction, Errors>)
    ensures
        !ctx.authorized() ==> r is Err && r->Err_0 == Errors::NotBridgeBackend,
        ctx.authorized() && (ctx.mint_bump(id, seed_p1@, seed_p2@) is None
            || !ctx.records_derived()) ==> r is Err && r->Err_0 == Errors::DerivationMismatch,
        ctx.authorized() && ctx.mint_bump(id, seed_p1@, seed_p2@) is Some && ctx.records_derived()
            ==> r is Ok && r->Ok_0.calls@ == ctx.calls(name, symbol, uri) && r->Ok_0.event == Some(
            ctx.event(request_id),
        ) && r->Ok_0.signer.seeds() == with_bump(
            mint_seeds(seed_p1@, seed_p2@, id),
            ctx.mint_bump(id, seed_p1@, seed_p2@)->Some_0,
        ) && r->Ok_0.signer.program() == ctx.program_id && r->Ok_0.signer.address() == ctx.mint
            && r->Ok_0.signer.reproduces(),
{
    if !ctx.bridge.data.is_backend(&ctx.backend) {
        return Err(Errors::NotBridgeBackend);
    }
    let signer = ctx.asset_capability(id, seed_p1.as_str(), seed_p2.as_str());
    create_nft_signed(ctx, name, symbol, uri, request_id, signer)
}

} // verus!
