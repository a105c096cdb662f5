use vstd::prelude::*;
use crate::address::Address;
use crate::data::BridgeAccount;
use crate::derivation::SigningCapability;
use crate::errors::Errors;
use crate::transaction::Call;
use crate::transaction::Event;
use crate::transaction::NewRequestEvent;
use crate::transaction::Transaction;

verus! {

/// The accounts of a custody request.
#[derive(Clone, Copy, Debug, PartialEq, Eq)]
pub struct NewRequest {
    /// The program that owns the bridge.
    pub program_id: Address,
    /// The registry entity.
    pub bridge: BridgeAccount,
    /// The token type taken into custody.
    pub mint: Address,
    /// The user's holding, which gives the unit.
    pub user_token_account: Address,
    /// The bridge-owned holding, which receives it.
    pub bridge_token_account: Address,
    /// The invoking signer.
    pub backend: Address,
}

impl NewRequest {
    /// The invoking signer is the backend of the bridge.
    pub open spec fn authorized(&self) -> bool {
        self.bridge.data.backend == self.backend
    }

    /// The delegated calls of a custody request: make sure the bridge-owned
    /// holding exists, then move exactly one unit into it from the user's
    /// holding, on the authority of the bridge entity.
    pub open spec fn calls(&self) -> Seq<Call> {
        seq![
            Call::OpenHolding {
                holding: self.bridge_token_account,
                payer: self.backend,
                mint: self.mint,
                owner: self.bridge.key,
            },
            Call::Transfer {
                from: self.user_token_account,
                to: self.bridge_token_account,
                authority: self.bridge.key,
                amount: 1,
            },
        ]
    }

    /// The event of a custody request.
    pub open spec fn event(&self, request_id: String) -> Event {
        Event::NewRequest(
            NewRequestEvent {
                mint: self.mint,
                destination_token_account: self.bridge_token_account,
                request_id,
            },
        )
    }
}

impl NewRequest {
    /// Builds `self.calls()`.
    pub fn delegated_calls(&self) -> (calls: Vec<Call>)
        ensures
            calls@ == self.calls(),
    {
        let mut calls: Vec<Call> = Vec::new();
        calls.push(
            Call::OpenHolding {
                holding: self.bridge_token_account,
                payer: self.backend,
                mint: self.mint,
                owner: self.bridge.key,
            },
        );
        calls.push(
            Call::Transfer {
                from: self.user_token_account,
                to: self.bridge_token_account,
                authority: self.bridge.key,
                amount: 1,
            },
        );
        assert(calls@ =~= self.calls());
        calls
    }

    /// `signer` signs for the bridge entity of these accounts.
    pub open spec fn signed_by(&self, signer: SigningCapability) -> bool {
        signer.address() == self.bridge.key && signer.program() == self.program_id
    }
}

/// The custody request, given the outcome of making the bridge entity's
/// capability. An unauthorized signer is refused whatever that outcome; a
/// capability that could not be made hands on its error; one made for
/// another entity or program is a derivation mismatch.
pub fn new_request_signed(
    ctx: &NewRequest,
    request_id: String,
    signer: Result<SigningCapability, Errors>,
) -> (r: Result<Transaction, Errors>)
    ensures
        !ctx.authorized() ==> r is Err && r->Err_0 == Errors::NotBridgeBackend,
        ctx.authorized() && signer is Err ==> r is Err && r->Err_0 == signer->Err_0,
        ctx.authorized() && signer is Ok && !ctx.signed_by(signer->Ok_0) ==> r is Err && r->Err_0
            == Errors::DerivationMismatch,
        ctx.authorized() && signer is Ok && ctx.signed_by(signer->Ok_0) ==> r is Ok
            && r->Ok_0.calls@ == ctx.calls() && r->Ok_0.event == Some(ctx.event(request_id))
            && r->Ok_0.signer == signer->Ok_0 && r->Ok_0.signer.reproduces(),
{
    if !ctx.bridge.data.is_backend(&ctx.backend) {
        return Err(Errors::NotBridgeBackend);
    }
    let signer = match signer {
        Ok(signer) => signer,
        Err(error) => {
            return Err(error);
        },
    };
    if !(signer.signer() == ctx.bridge.key && signer.owner() == ctx.program_id) {
        return Err(Errors::DerivationMismatch);
    }
    let calls = ctx.delegated_calls();
    let event = Event::NewRequest(
        NewRequestEvent {
            mint: ctx.mint,
            destination_token_account: ctx.bridge_token_account,
            request_id,
        },
    );
    Ok(Transaction { calls, signer, event: Some(event) })
}

/// Takes one unit of the user's token into the custody of the bridge.
///
/// Only the backend of the bridge may do so. The transaction is signed with
/// the bridge entity's capability, made from its stored seed and bump; if
/// these do not reproduce the entity's address, nothing is signed.
pub fn new_request(ctx: &NewRequest, request_id: String) -> (r: Result<Transaction, Errors>)
    ensures
        !ctx.authorized() ==> r is Err && r->Err_0 == Errors::NotBridgeBackend,
        ctx.authorized() && !ctx.bridge.may_sign(ctx.program_id) ==> r is Err && r->Err_0
            == Errors::DerivationMismatch,
        ctx.authorized() && ctx.bridge.may_sign(ctx.program_id) ==> r is Ok && r->Ok_0.calls@
            == ctx.calls() && r->Ok_0.event == Some(ctx.event(request_id)) && r->Ok_0.signer.seeds()
            == ctx.bridge.data.signer_seeds() && r->Ok_0.signer.program() == ctx.program_id
            && r->Ok_0.signer.address() == ctx.bridge.key && r->Ok_0.signer.reproduces(),
{
    if !ctx.bridge.data.is_backend(&ctx.backend) {
        return Err(Errors::NotBridgeBackend);
    }
    let signer = ctx.bridge.signing_capability(&ctx.program_id);
    new_request_signed(ctx, request_id, signer)
}

} // verus!
