use vstd::prelude::*;
use crate::address::Address;
use crate::data::Bridge;
use crate::derivation::SigningCapability;
use crate::errors::Errors;

verus! {

/// How a usage grant is consumed.
#[derive(Clone, Copy, Debug, PartialEq, Eq)]
pub enum UseMethod {
    Burn,
    Multiple,
    Single,
}

/// A usage grant on an asset.
#[derive(Clone, Copy, Debug, PartialEq, Eq)]
pub struct Uses {
    pub use_method: UseMethod,
    pub remaining: u64,
    pub total: u64,
}

/// A creator entry of an asset.
#[derive(Clone, Copy, Debug, PartialEq, Eq)]
pub struct Creator {
    pub address: Address,
    pub verified: bool,
    pub share: u8,
}

/// The collection an asset claims to belong to.
#[derive(Clone, Copy, Debug, PartialEq, Eq)]
pub struct Collection {
    pub verified: bool,
    pub key: Address,
}

/// The size record of a collection parent.
#[derive(Clone, Copy, Debug, PartialEq, Eq)]
pub enum CollectionDetails {
    V1 { size: u64 },
    V2 { padding: [u8; 8] },
}

/// The descriptive data of an asset, as the metadata service takes it.
#[derive(Clone, Debug, PartialEq, Eq)]
pub struct DataV2 {
    pub name: String,
    pub symbol: String,
    pub uri: String,
    pub seller_fee_basis_points: u16,
    pub creators: Option<Vec<Creator>>,
    pub collection: Option<Collection>,
    pub uses: Option<Uses>,
}

/// One delegated call to a collaborator: the system, the token service or
/// the metadata service. The library decides which calls an operation makes
/// and with what arguments; making them is left to whoever drives the
/// transaction.
#[derive(Clone, Debug, PartialEq, Eq)]
pub enum Call {
    /// Create the registry entity at `bridge` holding `record`. Rejected if
    /// the address is taken.
    CreateBridge { bridge: Address, payer: Address, record: Bridge },
    /// Create the token type `mint`. Rejected if it exists.
    CreateMint {
        mint: Address,
        payer: Address,
        decimals: u8,
        authority: Address,
        freeze_authority: Address,
    },
    /// Make sure that `holding` exists for `mint` under `owner`: created on
    /// first use, reused afterwards.
    OpenHolding { holding: Address, payer: Address, mint: Address, owner: Address },
    /// Move `amount` units from one holding to another.
    Transfer { from: Address, to: Address, authority: Address, amount: u64 },
    /// Create `amount` units of `mint` in the holding `to`.
    MintTo { mint: Address, to: Address, authority: Address, amount: u64 },
    /// Destroy `amount` units of `mint` held in `from`.
    Burn { mint: Address, from: Address, authority: Address, amount: u64 },
    /// Attach the metadata record `metadata` to `mint`.
    CreateMetadata {
        metadata: Address,
        mint: Address,
        mint_authority: Address,
        payer: Address,
        update_authority: Address,
        data: DataV2,
        is_mutable: bool,
        update_authority_is_signer: bool,
        collection_details: Option<CollectionDetails>,
    },
    /// Attach the edition marker `edition` to `mint`, fixing how many copies
    /// can ever exist.
    CreateMasterEdition {
        edition: Address,
        metadata: Address,
        mint: Address,
        mint_authority: Address,
        payer: Address,
        update_authority: Address,
        max_supply: Option<u64>,
    },
}

/// Published when a unit has been taken into custody.
#[derive(Clone, Debug, PartialEq, Eq)]
pub struct NewRequestEvent {
    /// The token type.
    pub mint: Address,
    /// The bridge-owned holding that received the unit.
    pub destination_token_account: Address,
    /// The caller's correlation identifier, verbatim.
    pub request_id: String,
}

/// Published when an asset has been issued.
#[derive(Clone, Debug, PartialEq, Eq)]
pub struct TokenMintedEvent {
    /// The token type minted.
    pub mint: Address,
    /// The recipient's holding.
    pub destination_token_account: Address,
    /// The caller's correlation identifier, verbatim.
    pub request_id: String,
}

/// A notification correlating an operation to its off-chain request.
#[derive(Clone, Debug, PartialEq, Eq)]
pub enum Event {
    NewRequest(NewRequestEvent),
    TokenMinted(TokenMintedEvent),
}

impl Event {
    /// The correlation identifier carried by the event.
    pub open spec fn spec_request_id(&self) -> String {
        match self {
            Event::NewRequest(e) => e.request_id,
            Event::TokenMinted(e) => e.request_id,
        }
    }

    /// The correlation identifier carried by the event.
    pub fn request_id(&self) -> (id: &String)
        ensures
            *id == self.spec_request_id(),
    {
        match self {
            Event::NewRequest(e) => &e.request_id,
            Event::TokenMinted(e) => &e.request_id,
        }
    }
}

/// What an authorized operation amounts to: the delegated calls in the order
/// in which they are made, the capability that signs each of them, and the
/// event published once all of them were accepted. The calls take effect
/// together or not at all.
#[derive(Debug)]
pub struct Transaction {
    pub calls: Vec<Call>,
    pub signer: SigningCapability,
    pub event: Option<Event>,
}

/// What the driver of a transaction does next.
#[derive(Clone, Copy, Debug, PartialEq, Eq, Structural)]
pub enum Step {
    /// Make the call at this index, signed with the transaction's capability.
    Invoke(usize),
    /// Every call was accepted: publish the event, if any, and keep the
    /// effects.
    Commit,
    /// A call was rejected: drop every effect and report the error.
    Abort(Errors),
}

/// How far a transaction has come: the number of calls accepted so far, and
/// the rejection that ended it, if any.
#[derive(Clone, Copy, Debug)]
pub struct Progress {
    accepted: usize,
    failure: Option<Errors>,
}

impl Progress {
    /// The number of calls accepted so far.
    pub closed spec fn accepted(&self) -> usize {
        self.accepted
    }

    /// The rejection that ended the transaction.
    pub closed spec fn failure(&self) -> Option<Errors> {
        self.failure
    }

    /// Nothing called yet.
    pub fn start() -> (p: Progress)
        ensures
            p.accepted() == 0,
            p.failure() is None,
    {
        Progress { accepted: 0, failure: None }
    }
}

/// The error that the rejection of `call` with `code` amounts to. A registry
/// entity that cannot be created exists already; any other rejection is the
/// collaborator's, handed on with its code.
pub open spec fn rejection(call: Call, code: u32) -> Errors {
    if call is CreateBridge {
        Errors::DuplicateInitialization
    } else {
        Errors::CollaboratorFailure(code)
    }
}

impl Transaction {
    /// The step to take at `progress`.
    pub open spec fn step(&self, progress: Progress) -> Step {
        match progress.failure() {
            Some(error) => Step::Abort(error),
            None => if progress.accepted() < self.calls@.len() {
                Step::Invoke(progress.accepted())
            } else {
                Step::Commit
            },
        }
    }

    /// The progress after the call due at `progress` came back with
    /// `outcome`. A transaction that was aborted or has no call left stays as
    /// it is.
    pub open spec fn after(&self, progress: Progress, outcome: Result<(), u32>) -> (int, Option<
        Errors,
    >) {
        if progress.failure() is Some || progress.accepted() >= self.calls@.len() {
            (progress.accepted() as int, progress.failure())
        } else {
            match outcome {
                Ok(_) => (progress.accepted() + 1, None),
                Err(code) => (
                    progress.accepted() as int,
                    Some(rejection(self.calls@[progress.accepted() as int], code)),
                ),
            }
        }
    }

    /// The step to take at `progress`.
    pub fn next_step(&self, progress: &Progress) -> (s: Step)
        ensures
            s == self.step(*progress),
    {
        match progress.failure {
            Some(error) => Step::Abort(error),
            None => if progress.accepted < self.calls.len() {
                Step::Invoke(progress.accepted)
            } else {
                Step::Commit
            },
        }
    }

    /// Takes note of the outcome of the call due at `progress`.
    pub fn record(&self, progress: Progress, outcome: Result<(), u32>) -> (p: Progress)
        ensures
            (p.accepted() as int, p.failure()) == self.after(progress, outcome),
    {
        if progress.failure.is_some() || progress.accepted >= self.calls.len() {
            progress
        } else {
            match outcome {
                Ok(_) => Progress { accepted: progress.accepted + 1, failure: None },
                Err(code) => {
                    let error = match &self.calls[progress.accepted] {
                        Call::CreateBridge { .. } => Errors::DuplicateInitialization,
                        _ => Errors::CollaboratorFailure(code),
                    };
                    Progress { accepted: progress.accepted, failure: Some(error) }
                },
            }
        }
    }

    /// Where a transaction stands after its calls came back with `outcomes`,
    /// in order: aborted with the error of the first call rejected, committed
    /// once every call was accepted, and otherwise waiting at the first call
    /// without an outcome. Outcomes beyond the last call count for nothing.
    pub open spec fn verdict(&self, outcomes: Seq<Result<(), u32>>) -> Step {
        let answered = if outcomes.len() <= self.calls@.len() {
            outcomes.len() as int
        } else {
            self.calls@.len() as int
        };
        match first_rejection(outcomes, answered) {
            Some(at) => Step::Abort(rejection(self.calls@[at], outcomes[at]->Err_0)),
            None => if answered < self.calls@.len() {
                Step::Invoke(answered as usize)
            } else {
                Step::Commit
            },
        }
    }

    /// Runs the transaction over a list of outcomes, one for each call in
    /// order, and gives the step at which it then stands.
    pub fn replay(&self, outcomes: &Vec<Result<(), u32>>) -> (s: Step)
        ensures
            s == self.verdict(outcomes@),
    {
        let answered = if outcomes.len() <= self.calls.len() {
            outcomes.len()
        } else {
            self.calls.len()
        };
        let mut progress = Progress::start();
        let mut i: usize = 0;
        while i < answered
            invariant
                i <= answered,
                answered <= outcomes@.len(),
                answered <= self.calls@.len(),
                match first_rejection(outcomes@, i as int) {
                    Some(at) => 0 <= at < i && outcomes@[at] is Err && progress.failure() == Some(
                        rejection(self.calls@[at], outcomes@[at]->Err_0),
                    ),
                    None => progress.failure() is None && progress.accepted() == i,
                },
            decreases answered - i,
        {
            progress = self.record(progress, outcomes[i]);
            i += 1;
        }
        self.next_step(&progress)
    }
}

/// The index of the first rejection among the first `upto` outcomes.
pub open spec fn first_rejection(outcomes: Seq<Result<(), u32>>, upto: int) -> Option<int>
    decreases upto,
{
    if upto <= 0 {
        None
    } else {
        match first_rejection(outcomes, upto - 1) {
            Some(at) => Some(at),
            None => if outcomes[upto - 1] is Err {
                Some(upto - 1)
            } else {
                None
            },
        }
    }
}

} // verus!
