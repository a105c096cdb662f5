use vstd::prelude::*;

verus! {

/// Why an operation was rejected. Every rejection aborts the whole operation.
#[derive(Clone, Copy, Debug, PartialEq, Eq, Structural)]
pub enum Errors {
    /// The invoking signer is not the backend recorded in the registry entity.
    NotBridgeBackend,
    /// A seed sequence does not reproduce the address it is presented for.
    DerivationMismatch,
    /// The token or metadata service rejected a delegated call; the code is
    /// the service's own, handed on unchanged.
    CollaboratorFailure(u32),
    /// The registry entity for this seed exists already.
    DuplicateInitialization,
}

impl Errors {
    /// The text shown to a caller for this rejection.
    pub fn message(&self) -> (text: &'static str)
        ensures
            text@ == self.spec_message(),
    {
        match self {
            Errors::NotBridgeBackend => "Not bridge backend",
            Errors::DerivationMismatch => "Seeds do not derive the expected address",
            Errors::CollaboratorFailure(_) => "Delegated call rejected",
            Errors::DuplicateInitialization => "Bridge already initialized",
        }
    }

    pub open spec fn spec_message(&self) -> Seq<char> {
        match self {
            Errors::NotBridgeBackend => "Not bridge backend"@,
            Errors::DerivationMismatch => "Seeds do not derive the expected address"@,
            Errors::CollaboratorFailure(_) => "Delegated call rejected"@,
            Errors::DuplicateInitialization => "Bridge already initialized"@,
        }
    }
}

} // verus!
