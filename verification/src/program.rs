use vstd::prelude::*;
use crate::errors::Errors;
use crate::instructions::bridge_request::new_request;
use crate::instructions::bridge_request::NewRequest;
use crate::instructions::burn_token::burn_token;
use crate::instructions::burn_token::BurnToken;
use crate::instructions::initialize_bridge::Initialize;
use crate::instructions::initialize_bridge::initialize_bridge;
use crate::instructions::mint_nft::create_nft;
use crate::instructions::mint_nft::CreateNFT;
use crate::laws::law_custody_moves_one_unit;
use crate::laws::law_issuance_all_or_nothing;
use crate::laws::law_release_destroys_one_unit;
use crate::laws::lemma_custody_effect;
use crate::laws::lemma_initialization_effect;
use crate::ledger::balance_or_zero;
use crate::ledger::Fault;
use crate::ledger::issued_metadata;
use crate::ledger::Ledger;
use crate::ledger::LedgerState;
use crate::ledger::REJECT_FUNDS;
use crate::ledger::reply;
use crate::ledger::settle;
use crate::ledger::state_after;

verus! {

/// The verdict on an initialization: the entity's address must be the one
/// derived for the seed, and the entity must not exist yet.
pub open spec fn initialization(s: LedgerState, ctx: Initialize, seed: u64) -> Result<
    LedgerState,
    Errors,
> {
    match ctx.bump(seed) {
        None => Err(Errors::DerivationMismatch),
        Some(bump) => settle(s, ctx.calls(seed, bump), None, None),
    }
}

/// The verdict on a custody request.
pub open spec fn custody(s: LedgerState, ctx: NewRequest, request_id: String) -> Result<
    LedgerState,
    Errors,
> {
    if !ctx.authorized() {
        Err(Errors::NotBridgeBackend)
    } else if !ctx.bridge.may_sign(ctx.program_id) {
        Err(Errors::DerivationMismatch)
    } else {
        settle(s, ctx.calls(), Some(ctx.event(request_id)), None)
    }
}

/// The verdict on a release.
pub open spec fn release(s: LedgerState, ctx: BurnToken) -> Result<LedgerState, Errors> {
    if !ctx.authorized() {
        Err(Errors::NotBridgeBackend)
    } else if !ctx.bridge.may_sign(ctx.program_id) {
        Err(Errors::DerivationMismatch)
    } else {
        settle(s, ctx.calls(), None, None)
    }
}

/// The verdict on an issuance, with a rejection forced on one of its calls
/// if `fault` says so.
pub open spec fn issuance(
    s: LedgerState,
    ctx: CreateNFT,
    id: u64,
    seed_p1: String,
    seed_p2: String,
    name: String,
    symbol: String,
    uri: String,
    request_id: String,
    fault: Option<Fault>,
) -> Result<LedgerState, Errors> {
    if !ctx.authorized() {
        Err(Errors::NotBridgeBackend)
    } else if ctx.mint_bump(id, seed_p1@, seed_p2@) is None || !ctx.records_derived() {
        Err(Errors::DerivationMismatch)
    } else {
        settle(s, ctx.calls(name, symbol, uri), Some(ctx.event(request_id)), fault)
    }
}

impl Ledger {
    /// Initializes the bridge for `seed` on this ledger. A second
    /// initialization for the same seed is refused and changes nothing.
    pub fn initialize_bridge(&mut self, ctx: &Initialize, seed: u64) -> (r: Result<(), Errors>)
        requires
            old(self).wf(),
        ensures
            final(self).wf(),
            r == reply(initialization(old(self)@, *ctx, seed)),
            final(self)@ == state_after(old(self)@, initialization(old(self)@, *ctx, seed)),
            r is Err ==> final(self)@ == old(self)@,
            ctx.bump(seed) is None ==> r == Err::<(), Errors>(Errors::DerivationMismatch),
            ctx.bump(seed) is Some && old(self)@.bridges.contains_key(ctx.bridge) ==> r == Err::<
                (),
                Errors,
            >(Errors::DuplicateInitialization),
            ctx.bump(seed) is Some && !old(self)@.bridges.contains_key(ctx.bridge) ==> r is Ok
                && final(self)@ == (LedgerState {
                bridges: old(self)@.bridges.insert(
                    ctx.bridge,
                    ctx.record(seed, ctx.bump(seed)->Some_0),
                ),
                ..old(self)@
            }),
    {
        proof {
            reveal_with_fuel(crate::ledger::run_from, 3);
            if initialization(self@, *ctx, seed) is Ok {
                lemma_initialization_effect(self@, *ctx, seed);
            }
        }
        match initialize_bridge(ctx, seed) {
            Ok(tx) => self.process(&tx, None),
            Err(error) => Err(error),
        }
    }

    /// Runs a custody request on this ledger.
    pub fn new_request(&mut self, ctx: &NewRequest, request_id: String) -> (r: Result<(), Errors>)
        requires
            old(self).wf(),
        ensures
            final(self).wf(),
            r == reply(custody(old(self)@, *ctx, request_id)),
            final(self)@ == state_after(old(self)@, custody(old(self)@, *ctx, request_id)),
            r is Err ==> final(self)@ == old(self)@,
            !ctx.authorized() ==> r == Err::<(), Errors>(Errors::NotBridgeBackend),
            ctx.authorized() && !ctx.bridge.may_sign(ctx.program_id) ==> r == Err::<(), Errors>(
                Errors::DerivationMismatch,
            ),
            ctx.authorized() && ctx.bridge.may_sign(ctx.program_id)
                && old(self)@.balances.contains_key(ctx.user_token_account)
                && ctx.user_token_account != ctx.bridge_token_account && balance_or_zero(
                old(self)@,
                ctx.bridge_token_account,
            ) < u64::MAX ==> {
                &&& old(self)@.balances[ctx.user_token_account] == 0 ==> r == Err::<(), Errors>(
                    Errors::CollaboratorFailure(REJECT_FUNDS),
                )
                &&& old(self)@.balances[ctx.user_token_account] >= 1 ==> {
                    &&& r is Ok
                    &&& final(self)@.balances[ctx.user_token_account] == old(
                        self,
                    )@.balances[ctx.user_token_account] - 1
                    &&& final(self)@.balances[ctx.bridge_token_account] == balance_or_zero(
                        old(self)@,
                        ctx.bridge_token_account,
                    ) + 1
                    &&& final(self)@.supplies == old(self)@.supplies
                    &&& final(self)@.events == old(self)@.events.push(ctx.event(request_id))
                }
            },
    {
        proof {
            if ctx.authorized() && ctx.bridge.may_sign(ctx.program_id)
                && self@.balances.contains_key(ctx.user_token_account) && ctx.user_token_account
                != ctx.bridge_token_account && balance_or_zero(self@, ctx.bridge_token_account)
                < u64::MAX {
                law_custody_moves_one_unit(self@, *ctx, request_id);
                if custody(self@, *ctx, request_id) is Ok {
                    lemma_custody_effect(self@, *ctx, request_id);
                }
            }
        }
        match new_request(ctx, request_id) {
            Ok(tx) => self.process(&tx, None),
            Err(error) => Err(error),
        }
    }

    /// Runs a release on this ledger.
    pub fn burn_token(&mut self, ctx: &BurnToken) -> (r: Result<(), Errors>)
        requires
            old(self).wf(),
        ensures
            final(self).wf(),
            r == reply(release(old(self)@, *ctx)),
            final(self)@ == state_after(old(self)@, release(old(self)@, *ctx)),
            r is Err ==> final(self)@ == old(self)@,
            !ctx.authorized() ==> r == Err::<(), Errors>(Errors::NotBridgeBackend),
            ctx.authorized() && !ctx.bridge.may_sign(ctx.program_id) ==> r == Err::<(), Errors>(
                Errors::DerivationMismatch,
            ),
            ctx.authorized() && ctx.bridge.may_sign(ctx.program_id) ==> (r is Ok <==> old(
                self,
            )@.supplies.contains_key(ctx.mint) && old(self)@.balances.contains_key(
                ctx.bridge_token_account,
            ) && old(self)@.supplies[ctx.mint] >= 1 && old(
                self,
            )@.balances[ctx.bridge_token_account] >= 1),
            r is Ok ==> final(self)@ == (LedgerState {
                supplies: old(self)@.supplies.insert(
                    ctx.mint,
                    (old(self)@.supplies[ctx.mint] - 1) as u64,
                ),
                balances: old(self)@.balances.insert(
                    ctx.bridge_token_account,
                    (old(self)@.balances[ctx.bridge_token_account] - 1) as u64,
                ),
                ..old(self)@
            }),
    {
        proof {
            if ctx.authorized() && ctx.bridge.may_sign(ctx.program_id) {
                law_release_destroys_one_unit(self@, *ctx);
            }
        }
        match burn_token(ctx) {
            Ok(tx) => self.process(&tx, None),
            Err(error) => Err(error),
        }
    }

    /// Runs an issuance on this ledger. With a `fault`, the call at its index
    /// is rejected with its code whatever the ledger would have answered.
    pub fn create_nft(
        &mut self,
        ctx: &CreateNFT,
        id: u64,
        seed_p1: String,
        seed_p2: String,
        name: String,
        symbol: String,
        uri: String,
        request_id: String,
        fault: Option<Fault>,
    ) -> (r: Result<(), Errors>)
        requires
            old(self).wf(),
        ensures
            final(self).wf(),
            r == reply(
                issuance(old(self)@, *ctx, id, seed_p1, seed_p2, name, symbol, uri, request_id, fault),
            ),
            final(self)@ == state_after(
                old(self)@,
                issuance(old(self)@, *ctx, id, seed_p1, seed_p2, name, symbol, uri, request_id, fault),
            ),
            r is Err ==> final(self)@ == old(self)@,
            !ctx.authorized() ==> r == Err::<(), Errors>(Errors::NotBridgeBackend),
            ctx.authorized() && (ctx.mint_bump(id, seed_p1@, seed_p2@) is None
                || !ctx.records_derived()) ==> r == Err::<(), Errors>(Errors::DerivationMismatch),
            fault is Some && fault->Some_0.at < 5 ==> r is Err,
            r is Ok ==> !old(self)@.supplies.contains_key(ctx.mint) && final(self)@ == (LedgerState {
                supplies: old(self)@.supplies.insert(ctx.mint, 1),
                balances: old(self)@.balances.insert(
                    ctx.destination_token_account,
                    (balance_or_zero(old(self)@, ctx.destination_token_account) + 1) as u64,
                ),
                metadata: old(self)@.metadata.insert(ctx.mint, issued_metadata(name, symbol, uri)),
                editions: old(self)@.editions.insert(ctx.mint, Some(1u64)),
                events: old(self)@.events.push(ctx.event(request_id)),
                ..old(self)@
            }),
    {
        proof {
            law_issuance_all_or_nothing(
                self@,
                *ctx,
                id,
                seed_p1,
                seed_p2,
                name,
                symbol,
                uri,
                request_id,
                fault,
            );
        }
        match create_nft(ctx, id, seed_p1, seed_p2, name, symbol, uri, request_id) {
            Ok(tx) => self.process(&tx, fault),
            Err(error) => Err(error),
        }
    }
}

} // verus!
