use vstd::prelude::*;
use crate::address::Address;
use crate::derivation::bridge_seed_sequence;
use crate::derivation::bridge_seeds;
use crate::derivation::presentable;
use crate::derivation::seed_bytes;
use crate::derivation::SigningCapability;
use crate::derivation::with_bump;
use crate::errors::Errors;

verus! {

/// The registry entity of one bridge instance. All three fields are fixed at
/// creation: no operation rotates the backend or rewrites seed and bump.
#[derive(Clone, Copy, Debug, PartialEq, Eq)]
pub struct Bridge {
    /// The sole backend allowed to invoke privileged operations.
    pub backend: Address,
    /// The value from which, with the domain tag, the entity's own address
    /// is derived.
    pub seed: u64,
    /// The byte that completes the derivation, kept so that signing need not
    /// search for it again.
    pub bump: u8,
}

/// A registry entity together with the address it lives at.
#[derive(Clone, Copy, Debug, PartialEq, Eq)]
pub struct BridgeAccount {
    pub key: Address,
    pub data: Bridge,
}

impl Bridge {
    /// A registry entity needs no set-up beyond its fields: this changes
    /// nothing.
    pub fn initialize(&mut self)
        ensures
            *final(self) == *old(self),
    {
    }

    /// The complete seed sequence of the entity: domain tag, seed, bump.
    pub open spec fn signer_seeds(&self) -> Seq<Seq<u8>> {
        with_bump(bridge_seeds(self.seed), self.bump)
    }

    /// Whether `signer` is the backend of this bridge.
    pub fn is_backend(&self, signer: &Address) -> (yes: bool)
        ensures
            yes == (self.backend == *signer),
    {
        self.backend == *signer
    }

    /// The guard at the entry of every privileged operation: only the
    /// recorded backend passes.
    pub fn authorize(&self, signer: &Address) -> (r: Result<(), Errors>)
        ensures
            self.backend == *signer ==> r is Ok,
            self.backend != *signer ==> r is Err && r->Err_0 == Errors::NotBridgeBackend,
    {
        if self.is_backend(signer) {
            Ok(())
        } else {
            Err(Errors::NotBridgeBackend)
        }
    }

    /// Builds `self.signer_seeds()`.
    pub fn signer_seed_sequence(&self) -> (seeds: Vec<Vec<u8>>)
        ensures
            seed_bytes(seeds@) == self.signer_seeds(),
    {
        let mut seeds = bridge_seed_sequence(self.seed);
        let mut last: Vec<u8> = Vec::new();
        last.push(self.bump);
        seeds.push(last);
        assert(seed_bytes(seeds@) =~= self.signer_seeds());
        seeds
    }
}

impl BridgeAccount {
    /// The entity's seed and bump reproduce the address it lives at under
    /// `program`: the entity may sign.
    pub open spec fn may_sign(&self, program: Address) -> bool {
        presentable(self.data.signer_seeds(), program@, self.key@)
    }

    /// The capability to sign delegated calls as this entity. It is made from
    /// the stored seed and bump alone, and only if they reproduce the
    /// entity's own address.
    pub(crate) fn signing_capability(&self, program: &Address) -> (r: Result<
        SigningCapability,
        Errors,
    >)
        ensures
            self.may_sign(*program) ==> r is Ok && r->Ok_0.seeds() == self.data.signer_seeds()
                && r->Ok_0.program() == *program && r->Ok_0.address() == self.key
                && r->Ok_0.reproduces(),
            !self.may_sign(*program) ==> r is Err && r->Err_0 == Errors::DerivationMismatch,
    {
        SigningCapability::present(self.data.signer_seed_sequence(), program, &self.key)
    }
}

} // verus!
