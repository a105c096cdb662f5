use vstd::prelude::*;
use crate::address::Address;
use crate::data::Bridge;
use crate::data::BridgeAccount;
use crate::derivation::bridge_seed_sequence;
use crate::derivation::bridge_seeds;
use crate::derivation::bump_for;
use crate::derivation::confirm_derived;
use crate::derivation::lemma_located_reproduces;
use crate::derivation::SigningCapability;
use crate::errors::Errors;
use crate::transaction::Call;
use crate::transaction::Transaction;

verus! {

/// The accounts of an initialization.
#[derive(Clone, Copy, Debug, PartialEq, Eq)]
pub struct Initialize {
    /// The program that will own the bridge.
    pub program_id: Address,
    /// The address at which the registry entity is created.
    pub bridge: Address,
    /// The initializing signer, who pays and becomes the backend.
    pub signer: Address,
}

impl Initialize {
    /// The bump with which `seed` derives the entity's address, where it
    /// derives it at all.
    pub open spec fn bump(&self, seed: u64) -> Option<u8> {
        bump_for(bridge_seeds(seed), self.program_id@, self.bridge@)
    }

    /// The registry entity that an initialization with `seed` and `bump`
    /// records.
    pub open spec fn record(&self, seed: u64, bump: u8) -> Bridge {
        Bridge { backend: self.signer, seed, bump }
    }

    /// The one delegated call of an initialization: create the registry
    /// entity.
    pub open spec fn calls(&self, seed: u64, bump: u8) -> Seq<Call> {
        seq![
            Call::CreateBridge {
                bridge: self.bridge,
                payer: self.signer,
                record: self.record(seed, bump),
            },
        ]
    }
}

impl Initialize {
    /// Builds `self.calls(seed, bump)`.
    pub fn delegated_calls(&self, seed: u64, bump: u8) -> (calls: Vec<Call>)
        ensures
            calls@ == self.calls(seed, bump),
    {
        let record = Bridge { backend: self.signer, seed, bump };
        let mut calls: Vec<Call> = Vec::new();
        calls.push(Call::CreateBridge { bridge: self.bridge, payer: self.signer, record });
        assert(calls@ =~= self.calls(seed, bump));
        calls
    }

    /// `signer` signs for the registry entity of these accounts.
    pub open spec fn signed_by(&self, signer: SigningCapability) -> bool {
        signer.address() == self.bridge && signer.program() == self.program_id
    }
}

/// The initialization, given the bump found for the entity's address and the
/// outcome of making the entity's capability. A capability that could not be
/// made hands on its error; one made for another address or program is a
/// derivation mismatch.
pub fn initialize_bridge_signed(
    ctx: &Initialize,
    seed: u64,
    bump: u8,
    signer: Result<SigningCapability, Errors>,
) -> (r: Result<Transaction, Errors>)
    ensures
        signer is Err ==> r is Err && r->Err_0 == signer->Err_0,
        signer is Ok && !ctx.signed_by(signer->Ok_0) ==> r is Err && r->Err_0
            == Errors::DerivationMismatch,
        signer is Ok && ctx.signed_by(signer->Ok_0) ==> r is Ok && r->Ok_0.calls@ == ctx.calls(
            seed,
            bump,
        ) && r->Ok_0.event is None && r->Ok_0.signer == signer->Ok_0 && r->Ok_0.signer.reproduces(),
{
    let signer = match signer {
        Ok(signer) => signer,
        Err(error) => {
            return Err(error);
        },
    };
    if !(signer.signer() == ctx.bridge && signer.owner() == ctx.program_id) {
        return Err(Errors::DerivationMismatch);
    }
    let calls = ctx.delegated_calls(seed, bump);
    Ok(Transaction { calls, signer, event: None })
}

/// Creates the registry entity of the bridge for `seed`.
///
/// The entity lives at the address derived from the domain tag and the seed;
/// the initializing signer becomes its backend, and seed and bump are stored
/// with it. The creation is signed with the entity's own capability, and is
/// rejected when the entity exists already.
pub fn initialize_bridge(ctx: &Initialize, seed: u64) -> (r: Result<Transaction, Errors>)
    ensures
        ctx.bump(seed) is None ==> r is Err && r->Err_0 == Errors::DerivationMismatch,
        ctx.bump(seed) is Some ==> r is Ok && r->Ok_0.calls@ == ctx.calls(
            seed,
            ctx.bump(seed)->Some_0,
        ) && r->Ok_0.event is None && r->Ok_0.signer.seeds() == ctx.record(
            seed,
            ctx.bump(seed)->Some_0,
        ).signer_seeds() && r->Ok_0.signer.program() == ctx.program_id && r->Ok_0.signer.address()
            == ctx.bridge && r->Ok_0.signer.reproduces(),
{
    let seeds = bridge_seed_sequence(seed);
    let bump = match confirm_derived(&seeds, &ctx.program_id, &ctx.bridge) {
        Ok(bump) => bump,
        Err(error) => {
            return Err(error);
        },
    };
    let account = BridgeAccount { key: ctx.bridge, data: Bridge { backend: ctx.signer, seed, bump } };
    proof {
        lemma_located_reproduces(bridge_seeds(seed), ctx.program_id@);
    }
    let signer = account.signing_capability(&ctx.program_id);
    initialize_bridge_signed(ctx, seed, bump, signer)
}

} // verus!
