use vstd::prelude::*;
use crate::address::Address;
use crate::data::BridgeAccount;
use crate::derivation::SigningCapability;
use crate::errors::Errors;
use crate::transaction::Call;
use crate::transaction::Transaction;

verus! {

/// The accounts of a release.
#[derive(Clone, Copy, Debug, PartialEq, Eq)]
pub struct BurnToken {
    /// The program that owns the bridge.
    pub program_id: Address,
    /// The registry entity.
    pub bridge: BridgeAccount,
    /// The token type held in custody.
    pub mint: Address,
    /// The bridge-owned holding.
    pub bridge_token_account: Address,
    /// The invoking signer.
    pub backend: Address,
}

impl BurnToken {
    /// The invoking signer is the backend of the bridge.
    pub open spec fn authorized(&self) -> bool {
        self.bridge.data.backend == self.backend
    }

    /// The one delegated call of a release: destroy exactly one unit held in
    /// the bridge-owned holding, on the authority of the bridge entity.
    pub open spec fn calls(&self) -> Seq<Call> {
        seq![
            Call::Burn {
                mint: self.mint,
                from: self.bridge_token_account,
                authority: self.bridge.key,
                amount: 1,
            },
        ]
    }
}

impl BurnToken {
    /// Builds `self.calls()`.
    pub fn delegated_calls(&self) -> (calls: Vec<Call>)
        ensures
            calls@ == self.calls(),
    {
        let mut calls: Vec<Call> = Vec::new();
        calls.push(
            Call::Burn {
                mint: self.mint,
                from: self.bridge_token_account,
                authority: self.bridge.key,
                amount: 1,
            },
        );
        assert(calls@ =~= self.calls());
        calls
    }

    /// `signer` signs for the bridge entity of these accounts.
    pub open spec fn signed_by(&self, signer: SigningCapability) -> bool {
        signer.address() == self.bridge.key && signer.program() == self.program_id
    }
}

/// The release, given the outcome of making the bridge entity's capability.
/// An unauthorized signer is refused whatever that outcome; a capability
/// that could not be made hands on its error; one made for another entity or
/// program is a derivation mismatch.
pub fn burn_token_signed(ctx: &BurnToken, signer: Result<SigningCapability, Errors>) -> (r: Result<
    Transaction,
    Errors,
>)
    ensures
        !ctx.authorized() ==> r is Err && r->Err_0 == Errors::NotBridgeBackend,
        ctx.authorized() && signer is Err ==> r is Err && r->Err_0 == signer->Err_0,
        ctx.authorized() && signer is Ok && !ctx.signed_by(signer->Ok_0) ==> r is Err && r->Err_0
            == Errors::DerivationMismatch,
        ctx.authorized() && signer is Ok && ctx.signed_by(signer->Ok_0) ==> r is Ok
            && r->Ok_0.calls@ == ctx.calls() && r->Ok_0.event is None && r->Ok_0.signer
            == signer->Ok_0 && r->Ok_0.signer.reproduces(),
{
    if !ctx.bridge.data.is_backend(&ctx.backend) {
        return Err(Errors::NotBridgeBackend);
    }
    let signer = match signer {
        Ok(signer) => signer,
        Err(error) => {
            return Err(error);
        },
    };
    if !(signer.signer() == ctx.bridge.key && signer.owner() == ctx.program_id) {
        return Err(Errors::DerivationMismatch);
    }
    let calls = ctx.delegated_calls();
    Ok(Transaction { calls, signer, event: None })
}

/// Destroys the unit held in custody, once the other leg has settled.
///
/// Only the backend of the bridge may do so. The transaction is signed with
/// the bridge entity's capability and publishes no event.
pub fn burn_token(ctx: &BurnToken) -> (r: Result<Transaction, Errors>)
    ensures
        !ctx.authorized() ==> r is Err && r->Err_0 == Errors::NotBridgeBackend,
        ctx.authorized() && !ctx.bridge.may_sign(ctx.program_id) ==> r is Err && r->Err_0
            == Errors::DerivationMismatch,
        ctx.authorized() && ctx.bridge.may_sign(ctx.program_id) ==> r is Ok && r->Ok_0.calls@
            == ctx.calls() && r->Ok_0.event is None && r->Ok_0.signer.seeds()
            == ctx.bridge.data.signer_seeds() && r->Ok_0.signer.program() == ctx.program_id
            && r->Ok_0.signer.address() == ctx.bridge.key && r->Ok_0.signer.reproduces(),
{
    if !ctx.bridge.data.is_backend(&ctx.backend) {
        return Err(Errors::NotBridgeBackend);
    }
    let signer = ctx.bridge.signing_capability(&ctx.program_id);
    burn_token_signed(ctx, signer)
}

} // verus!
