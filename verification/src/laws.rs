use vstd::prelude::*;
use crate::address::Address;
use crate::data::BridgeAccount;
use crate::derivation::bridge_seeds;
use crate::derivation::lemma_located_reproduces;
use crate::errors::Errors;
use crate::instructions::bridge_request::NewRequest;
use crate::instructions::burn_token::BurnToken;
use crate::instructions::initialize_bridge::Initialize;
use crate::instructions::mint_nft::CreateNFT;
use crate::ledger::balance_or_zero;
use crate::ledger::Fault;
use crate::ledger::issued_metadata;
use crate::ledger::LedgerState;
use crate::ledger::REJECT_FUNDS;
use crate::ledger::run_from;
use crate::ledger::state_after;
use crate::program::custody;
use crate::program::initialization;
use crate::program::issuance;
use crate::program::release;
use crate::transaction::first_rejection;
use crate::transaction::Step;
use crate::transaction::Transaction;

verus! {

/// The bump stored at initialization is the one that reproduces the
/// entity's address: the entity it records may sign from then on, without
/// searching again.
pub proof fn law_initialized_bridge_may_sign(ctx: Initialize, seed: u64)
    requires
        ctx.bump(seed) is Some,
    ensures
        (BridgeAccount { key: ctx.bridge, data: ctx.record(seed, ctx.bump(seed)->Some_0) }).may_sign(
            ctx.program_id,
        ),
{
    lemma_located_reproduces(bridge_seeds(seed), ctx.program_id@);
}

/// An initialization that went through cannot be repeated: under the same
/// program, a second one with the same seed is rejected, whoever signs, and
/// leaves the ledger as the first left it. At the same address the rejection
/// is a duplicate initialization.
pub proof fn law_initialize_once(s: LedgerState, first: Initialize, second: Initialize, seed: u64)
    requires
        initialization(s, first, seed) is Ok,
        second.program_id == first.program_id,
    ensures
        initialization(initialization(s, first, seed)->Ok_0, second, seed) is Err,
        second.bridge == first.bridge ==> initialization(
            initialization(s, first, seed)->Ok_0,
            second,
            seed,
        ) == Err::<LedgerState, Errors>(Errors::DuplicateInitialization),
        state_after(
            initialization(s, first, seed)->Ok_0,
            initialization(initialization(s, first, seed)->Ok_0, second, seed),
        ) == initialization(s, first, seed)->Ok_0,
{
    reveal_with_fuel(run_from, 3);
    let s1 = initialization(s, first, seed)->Ok_0;
    if second.bump(seed) is Some {
        assert(second.bridge@ == first.bridge@);
        crate::address::lemma_address_by_bytes(second.bridge, first.bridge);
        assert(s1.bridges.contains_key(first.bridge));
    }
}

/// A custody request by anyone but the backend is refused as unauthorized
/// and changes nothing: no balance, no supply, no event.
pub proof fn law_custody_needs_backend(s: LedgerState, ctx: NewRequest, request_id: String)
    requires
        ctx.backend != ctx.bridge.data.backend,
    ensures
        custody(s, ctx, request_id) == Err::<LedgerState, Errors>(Errors::NotBridgeBackend),
        state_after(s, custody(s, ctx, request_id)) == s,
{
}

/// A release by anyone but the backend is refused as unauthorized and
/// changes nothing.
pub proof fn law_release_needs_backend(s: LedgerState, ctx: BurnToken)
    requires
        ctx.backend != ctx.bridge.data.backend,
    ensures
        release(s, ctx) == Err::<LedgerState, Errors>(Errors::NotBridgeBackend),
        state_after(s, release(s, ctx)) == s,
{
}

/// An issuance by anyone but the backend is refused as unauthorized and
/// changes nothing.
pub proof fn law_issuance_needs_backend(
    s: LedgerState,
    ctx: CreateNFT,
    id: u64,
    seed_p1: String,
    seed_p2: String,
    name: String,
    symbol: String,
    uri: String,
    request_id: String,
    fault: Option<Fault>,
)
    requires
        ctx.backend != ctx.bridge.data.backend,
    ensures
        issuance(s, ctx, id, seed_p1, seed_p2, name, symbol, uri, request_id, fault) == Err::<
            LedgerState,
            Errors,
        >(Errors::NotBridgeBackend),
        state_after(
            s,
            issuance(s, ctx, id, seed_p1, seed_p2, name, symbol, uri, request_id, fault),
        ) == s,
{
}

/// An authorized custody request moves exactly one unit. From a user
/// holding with at least one unit, one unit leaves it and arrives in the
/// bridge-owned holding, which is created if need be; every other holding
/// and every supply stay as they were. From an empty user holding the
/// request fails as the collaborator's rejection for want of funds. Stated
/// for a user holding other than the bridge-owned one, and a bridge-owned
/// holding with room for one more unit.
pub proof fn law_custody_moves_one_unit(s: LedgerState, ctx: NewRequest, request_id: String)
    requires
        ctx.authorized(),
        ctx.bridge.may_sign(ctx.program_id),
        s.balances.contains_key(ctx.user_token_account),
        ctx.user_token_account != ctx.bridge_token_account,
        balance_or_zero(s, ctx.bridge_token_account) < u64::MAX,
    ensures
        s.balances[ctx.user_token_account] >= 1 ==> {
            let after = custody(s, ctx, request_id);
            &&& after is Ok
            &&& after->Ok_0.balances[ctx.user_token_account] == s.balances[ctx.user_token_account]
                - 1
            &&& after->Ok_0.balances[ctx.bridge_token_account] == balance_or_zero(
                s,
                ctx.bridge_token_account,
            ) + 1
            &&& forall|other: Address|
                other != ctx.user_token_account && other != ctx.bridge_token_account ==> (
                #[trigger] after->Ok_0.balances.contains_key(other)) == s.balances.contains_key(
                    other,
                ) && after->Ok_0.balances[other] == s.balances[other]
            &&& after->Ok_0.supplies == s.supplies
        },
        s.balances[ctx.user_token_account] == 0 ==> custody(s, ctx, request_id) == Err::<
            LedgerState,
            Errors,
        >(Errors::CollaboratorFailure(REJECT_FUNDS)) && state_after(
            s,
            custody(s, ctx, request_id),
        ) == s,
{
    reveal_with_fuel(run_from, 4);
}

/// An authorized release goes through exactly when the token type and the
/// bridge-owned holding exist and hold at least one unit each, and then
/// destroys exactly one unit: the holding and the supply are each one less,
/// and everything else stays as it was.
pub proof fn law_release_destroys_one_unit(s: LedgerState, ctx: BurnToken)
    requires
        ctx.authorized(),
        ctx.bridge.may_sign(ctx.program_id),
    ensures
        release(s, ctx) is Ok <==> s.supplies.contains_key(ctx.mint) && s.balances.contains_key(
            ctx.bridge_token_account,
        ) && s.supplies[ctx.mint] >= 1 && s.balances[ctx.bridge_token_account] >= 1,
        release(s, ctx) is Ok ==> {
            let after = release(s, ctx)->Ok_0;
            &&& after.supplies == s.supplies.insert(ctx.mint, (s.supplies[ctx.mint] - 1) as u64)
            &&& after.balances == s.balances.insert(
                ctx.bridge_token_account,
                (s.balances[ctx.bridge_token_account] - 1) as u64,
            )
            &&& after.bridges == s.bridges
            &&& after.metadata == s.metadata
            &&& after.editions == s.editions
            &&& after.events == s.events
        },
{
    reveal_with_fuel(run_from, 3);
}

/// What an initialization that goes through changes: it adds the registry
/// entity at an address that held none, and nothing else.
pub proof fn lemma_initialization_effect(s: LedgerState, ctx: Initialize, seed: u64)
    requires
        initialization(s, ctx, seed) is Ok,
    ensures
        ctx.bump(seed) is Some,
        !s.bridges.contains_key(ctx.bridge),
        initialization(s, ctx, seed)->Ok_0 == (LedgerState {
            bridges: s.bridges.insert(ctx.bridge, ctx.record(seed, ctx.bump(seed)->Some_0)),
            ..s
        }),
{
    reveal_with_fuel(run_from, 3);
}

/// What a custody request that goes through changes: balances and events,
/// and nothing else.
pub proof fn lemma_custody_effect(s: LedgerState, ctx: NewRequest, request_id: String)
    requires
        custody(s, ctx, request_id) is Ok,
    ensures
        custody(s, ctx, request_id)->Ok_0 == (LedgerState {
            balances: custody(s, ctx, request_id)->Ok_0.balances,
            events: s.events.push(ctx.event(request_id)),
            ..s
        }),
{
    reveal_with_fuel(run_from, 4);
}

/// No token type that exists loses its record or gains supply.
pub open spec fn supplies_not_raised(before: LedgerState, after: LedgerState) -> bool {
    forall|mint: Address| #[trigger]
        before.supplies.contains_key(mint) ==> after.supplies.contains_key(mint)
            && after.supplies[mint] <= before.supplies[mint]
}

/// A destroyed unit does not come back: whatever operation runs next, no
/// token type that exists ends with more supply than it had. An issuance
/// only ever gives supply to the token type that it creates.
pub proof fn law_supply_never_restored(
    s: LedgerState,
    init: Initialize,
    seed: u64,
    request: NewRequest,
    burn: BurnToken,
    nft: CreateNFT,
    id: u64,
    seed_p1: String,
    seed_p2: String,
    name: String,
    symbol: String,
    uri: String,
    request_id: String,
    fault: Option<Fault>,
)
    ensures
        supplies_not_raised(s, state_after(s, initialization(s, init, seed))),
        supplies_not_raised(s, state_after(s, custody(s, request, request_id))),
        supplies_not_raised(s, state_after(s, release(s, burn))),
        supplies_not_raised(
            s,
            state_after(
                s,
                issuance(s, nft, id, seed_p1, seed_p2, name, symbol, uri, request_id, fault),
            ),
        ),
{
    if initialization(s, init, seed) is Ok {
        lemma_initialization_effect(s, init, seed);
    }
    if custody(s, request, request_id) is Ok {
        lemma_custody_effect(s, request, request_id);
    }
    if release(s, burn) is Ok {
        law_release_destroys_one_unit(s, burn);
    }
    law_issuance_all_or_nothing(s, nft, id, seed_p1, seed_p2, name, symbol, uri, request_id, fault);
}

/// An issuance is all or nothing. If any of its calls is rejected, the
/// ledger is left without a trace of it: no token type, no supply, no
/// holding, no metadata, no edition marker, no event. A rejection forced on
/// any call makes the issuance fail, and where every call would otherwise
/// have been accepted, it fails with the forced code. If it goes through, the token type is
/// new with a supply of exactly one, the recipient's holding has one unit
/// more, the metadata is recorded as given, the edition marker fixes the
/// copies at one, and the one event is published.
pub proof fn law_issuance_all_or_nothing(
    s: LedgerState,
    ctx: CreateNFT,
    id: u64,
    seed_p1: String,
    seed_p2: String,
    name: String,
    symbol: String,
    uri: String,
    request_id: String,
    fault: Option<Fault>,
)
    ensures
        ({
            let verdict = issuance(s, ctx, id, seed_p1, seed_p2, name, symbol, uri, request_id, fault);
            &&& verdict is Err ==> state_after(s, verdict) == s
            &&& fault is Some && fault->Some_0.at < 5 ==> verdict is Err
            &&& fault is Some && fault->Some_0.at < 5 && issuance(
                s,
                ctx,
                id,
                seed_p1,
                seed_p2,
                name,
                symbol,
                uri,
                request_id,
                None,
            ) is Ok ==> verdict == Err::<LedgerState, Errors>(
                Errors::CollaboratorFailure(fault->Some_0.code),
            )
            &&& verdict is Ok ==> {
                &&& !s.supplies.contains_key(ctx.mint)
                &&& verdict->Ok_0.supplies == s.supplies.insert(ctx.mint, 1)
                &&& verdict->Ok_0.balances == s.balances.insert(
                    ctx.destination_token_account,
                    (balance_or_zero(s, ctx.destination_token_account) + 1) as u64,
                )
                &&& verdict->Ok_0.metadata == s.metadata.insert(
                    ctx.mint,
                    issued_metadata(name, symbol, uri),
                )
                &&& verdict->Ok_0.editions == s.editions.insert(ctx.mint, Some(1u64))
                &&& verdict->Ok_0.bridges == s.bridges
                &&& verdict->Ok_0.events == s.events.push(ctx.event(request_id))
            }
        }),
{
    reveal_with_fuel(run_from, 7);
}

/// Every custody request and every issuance that goes through publishes
/// exactly one event, and its correlation identifier is the caller's,
/// unchanged. A release and an initialization publish none, and no operation
/// ever removes or rewrites an event.
pub proof fn law_events_carry_request_id(
    s: LedgerState,
    init: Initialize,
    seed: u64,
    request: NewRequest,
    burn: BurnToken,
    nft: CreateNFT,
    id: u64,
    seed_p1: String,
    seed_p2: String,
    name: String,
    symbol: String,
    uri: String,
    request_id: String,
    fault: Option<Fault>,
)
    ensures
        custody(s, request, request_id) is Ok ==> custody(s, request, request_id)->Ok_0.events
            == s.events.push(request.event(request_id)) && request.event(
            request_id,
        ).spec_request_id() == request_id,
        issuance(s, nft, id, seed_p1, seed_p2, name, symbol, uri, request_id, fault) is Ok
            ==> issuance(
            s,
            nft,
            id,
            seed_p1,
            seed_p2,
            name,
            symbol,
            uri,
            request_id,
            fault,
        )->Ok_0.events == s.events.push(nft.event(request_id)) && nft.event(
            request_id,
        ).spec_request_id() == request_id,
        state_after(s, release(s, burn)).events == s.events,
        state_after(s, initialization(s, init, seed)).events == s.events,
{
    if initialization(s, init, seed) is Ok {
        lemma_initialization_effect(s, init, seed);
    }
    if custody(s, request, request_id) is Ok {
        lemma_custody_effect(s, request, request_id);
    }
    if release(s, burn) is Ok {
        law_release_destroys_one_unit(s, burn);
    }
    law_issuance_all_or_nothing(s, nft, id, seed_p1, seed_p2, name, symbol, uri, request_id, fault);
}

/// Every registry entity that exists stays exactly as it was created.
pub open spec fn registry_kept(before: LedgerState, after: LedgerState) -> bool {
    forall|key: Address| #[trigger]
        before.bridges.contains_key(key) ==> after.bridges.contains_key(key)
            && after.bridges[key] == before.bridges[key]
}

/// A registry entity is fixed at creation: no operation rotates its backend,
/// rewrites its seed or bump, or removes it.
pub proof fn law_registry_never_changes(
    s: LedgerState,
    init: Initialize,
    seed: u64,
    request: NewRequest,
    burn: BurnToken,
    nft: CreateNFT,
    id: u64,
    seed_p1: String,
    seed_p2: String,
    name: String,
    symbol: String,
    uri: String,
    request_id: String,
    fault: Option<Fault>,
)
    ensures
        registry_kept(s, state_after(s, initialization(s, init, seed))),
        registry_kept(s, state_after(s, custody(s, request, request_id))),
        registry_kept(s, state_after(s, release(s, burn))),
        registry_kept(
            s,
            state_after(
                s,
                issuance(s, nft, id, seed_p1, seed_p2, name, symbol, uri, request_id, fault),
            ),
        ),
{
    if initialization(s, init, seed) is Ok {
        lemma_initialization_effect(s, init, seed);
    }
    if custody(s, request, request_id) is Ok {
        lemma_custody_effect(s, request, request_id);
    }
    if release(s, burn) is Ok {
        law_release_destroys_one_unit(s, burn);
    }
    law_issuance_all_or_nothing(s, nft, id, seed_p1, seed_p2, name, symbol, uri, request_id, fault);
}

/// The first rejection is a rejection, nothing before it is one, and there
/// is none exactly when every outcome is an acceptance.
pub proof fn lemma_first_rejection(outcomes: Seq<Result<(), u32>>, upto: int)
    requires
        0 <= upto <= outcomes.len(),
    ensures
        match first_rejection(outcomes, upto) {
            Some(at) => 0 <= at < upto && outcomes[at] is Err && forall|k: int|
                0 <= k < at ==> (#[trigger] outcomes[k]) is Ok,
            None => forall|k: int| 0 <= k < upto ==> (#[trigger] outcomes[k]) is Ok,
        },
    decreases upto,
{
    if upto > 0 {
        lemma_first_rejection(outcomes, upto - 1);
    }
}

/// A transaction is committed only when every one of its calls was
/// accepted, and whenever one of them was rejected it is aborted: its event
/// is never published over a rejected call.
pub proof fn law_commit_needs_every_call(tx: Transaction, outcomes: Seq<Result<(), u32>>)
    ensures
        tx.verdict(outcomes) == Step::Commit <==> outcomes.len() >= tx.calls@.len() && forall|
            k: int,
        |
            0 <= k < tx.calls@.len() ==> (#[trigger] outcomes[k]) is Ok,
        (exists|k: int| 0 <= k < tx.calls@.len() && k < outcomes.len() && (#[trigger] outcomes[k])
            is Err) ==> tx.verdict(outcomes) is Abort,
{
    let answered = if outcomes.len() <= tx.calls@.len() {
        outcomes.len() as int
    } else {
        tx.calls@.len() as int
    };
    lemma_first_rejection(outcomes, answered);
}

} // verus!
