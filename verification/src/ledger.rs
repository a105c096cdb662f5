use vstd::prelude::*;
use crate::address::Address;
use crate::data::Bridge;
use crate::errors::Errors;
use crate::table::Duplicate;
use crate::table::Table;
use crate::transaction::Call;
use crate::transaction::Event;
use crate::transaction::NewRequestEvent;
use crate::transaction::Progress;
use crate::transaction::rejection;
use crate::transaction::Step;
use crate::transaction::TokenMintedEvent;
use crate::transaction::Transaction;

verus! {

/// The account that a call wants to create exists already.
pub const REJECT_IN_USE: u32 = 0;

/// The holding has fewer units than the call takes from it.
pub const REJECT_FUNDS: u32 = 1;

/// An account that the call works on does not exist.
pub const REJECT_MISSING: u32 = 2;

/// The amount does not fit in the balance or the supply.
pub const REJECT_OVERFLOW: u32 = 3;

/// The supply of the token type is fixed by an edition marker.
pub const REJECT_FIXED_SUPPLY: u32 = 4;

/// What the ledger keeps of an asset's metadata.
#[derive(Clone, Debug, PartialEq, Eq)]
pub struct MetadataRecord {
    pub name: String,
    pub symbol: String,
    pub uri: String,
    pub seller_fee_basis_points: u16,
    pub is_mutable: bool,
}

impl Duplicate for Bridge {
    fn duplicate(&self) -> (copy: Bridge) {
        *self
    }
}

impl Duplicate for MetadataRecord {
    fn duplicate(&self) -> (copy: MetadataRecord) {
        MetadataRecord {
            name: self.name.clone(),
            symbol: self.symbol.clone(),
            uri: self.uri.clone(),
            seller_fee_basis_points: self.seller_fee_basis_points,
            is_mutable: self.is_mutable,
        }
    }
}

impl Duplicate for Event {
    fn duplicate(&self) -> (copy: Event) {
        match self {
            Event::NewRequest(e) => Event::NewRequest(
                NewRequestEvent {
                    mint: e.mint,
                    destination_token_account: e.destination_token_account,
                    request_id: e.request_id.clone(),
                },
            ),
            Event::TokenMinted(e) => Event::TokenMinted(
                TokenMintedEvent {
                    mint: e.mint,
                    destination_token_account: e.destination_token_account,
                    request_id: e.request_id.clone(),
                },
            ),
        }
    }
}

/// Everything that the operations of the bridge can observe or change: the
/// registry entities, the supply of each token type, the balance of each
/// holding, the metadata record and edition marker of each token type, and
/// the events published so far.
pub ghost struct LedgerState {
    pub bridges: Map<Address, Bridge>,
    pub supplies: Map<Address, u64>,
    pub balances: Map<Address, u64>,
    pub metadata: Map<Address, MetadataRecord>,
    pub editions: Map<Address, Option<u64>>,
    pub events: Seq<Event>,
}

/// The effect of one delegated call on the ledger, or the code with which
/// it is rejected. A rejected call changes nothing. Creation is refused for
/// what exists, a holding is opened once and reused afterwards, units move
/// or vanish only where enough of them are held, counts never wrap, and a
/// token type with an edition marker is minted no more.
pub open spec fn apply(s: LedgerState, call: Call) -> Result<LedgerState, u32> {
    match call {
        Call::CreateBridge { bridge, payer, record } => {
            if s.bridges.contains_key(bridge) {
                Err(REJECT_IN_USE)
            } else {
                Ok(LedgerState { bridges: s.bridges.insert(bridge, record), ..s })
            }
        },
        Call::CreateMint { mint, payer, decimals, authority, freeze_authority } => {
            if s.supplies.contains_key(mint) {
                Err(REJECT_IN_USE)
            } else {
                Ok(LedgerState { supplies: s.supplies.insert(mint, 0), ..s })
            }
        },
        Call::OpenHolding { holding, payer, mint, owner } => {
            if s.balances.contains_key(holding) {
                Ok(s)
            } else {
                Ok(LedgerState { balances: s.balances.insert(holding, 0), ..s })
            }
        },
        Call::Transfer { from, to, authority, amount } => {
            if !s.balances.contains_key(from) || !s.balances.contains_key(to) {
                Err(REJECT_MISSING)
            } else if s.balances[from] < amount {
                Err(REJECT_FUNDS)
            } else if from == to {
                Ok(s)
            } else if s.balances[to] + amount > u64::MAX {
                Err(REJECT_OVERFLOW)
            } else {
                Ok(
                    LedgerState {
                        balances: s.balances.insert(from, (s.balances[from] - amount) as u64).insert(
                            to,
                            (s.balances[to] + amount) as u64,
                        ),
                        ..s
                    },
                )
            }
        },
        Call::MintTo { mint, to, authority, amount } => {
            if !s.supplies.contains_key(mint) || !s.balances.contains_key(to) {
                Err(REJECT_MISSING)
            } else if s.editions.contains_key(mint) {
                Err(REJECT_FIXED_SUPPLY)
            } else if s.supplies[mint] + amount > u64::MAX || s.balances[to] + amount > u64::MAX {
                Err(REJECT_OVERFLOW)
            } else {
                Ok(
                    LedgerState {
                        supplies: s.supplies.insert(mint, (s.supplies[mint] + amount) as u64),
                        balances: s.balances.insert(to, (s.balances[to] + amount) as u64),
                        ..s
                    },
                )
            }
        },
        Call::Burn { mint, from, authority, amount } => {
            if !s.supplies.contains_key(mint) || !s.balances.contains_key(from) {
                Err(REJECT_MISSING)
            } else if s.balances[from] < amount || s.supplies[mint] < amount {
                Err(REJECT_FUNDS)
            } else {
                Ok(
                    LedgerState {
                        supplies: s.supplies.insert(mint, (s.supplies[mint] - amount) as u64),
                        balances: s.balances.insert(from, (s.balances[from] - amount) as u64),
                        ..s
                    },
                )
            }
        },
        Call::CreateMetadata {
            metadata,
            mint,
            mint_authority,
            payer,
            update_authority,
            data,
            is_mutable,
            update_authority_is_signer,
            collection_details,
        } => {
            if !s.supplies.contains_key(mint) {
                Err(REJECT_MISSING)
            } else if s.metadata.contains_key(mint) {
                Err(REJECT_IN_USE)
            } else {
                Ok(
                    LedgerState {
                        metadata: s.metadata.insert(
                            mint,
                            MetadataRecord {
                                name: data.name,
                                symbol: data.symbol,
                                uri: data.uri,
                                seller_fee_basis_points: data.seller_fee_basis_points,
                                is_mutable,
                            },
                        ),
                        ..s
                    },
                )
            }
        },
        Call::CreateMasterEdition {
            edition,
            metadata,
            mint,
            mint_authority,
            payer,
            update_authority,
            max_supply,
        } => {
            if !s.metadata.contains_key(mint) {
                Err(REJECT_MISSING)
            } else if s.editions.contains_key(mint) {
                Err(REJECT_IN_USE)
            } else {
                Ok(LedgerState { editions: s.editions.insert(mint, max_supply), ..s })
            }
        },
    }
}

/// The balance of a holding that may not exist yet.
pub open spec fn balance_or_zero(s: LedgerState, holding: Address) -> u64 {
    if s.balances.contains_key(holding) {
        s.balances[holding]
    } else {
        0
    }
}

/// The metadata that an issuance records.
pub open spec fn issued_metadata(name: String, symbol: String, uri: String) -> MetadataRecord {
    MetadataRecord { name, symbol, uri, seller_fee_basis_points: 0, is_mutable: true }
}

/// A rejection forced on the call at index `at`, whatever the ledger would
/// have answered.
#[derive(Clone, Copy, Debug, PartialEq, Eq, Structural)]
pub struct Fault {
    pub at: usize,
    pub code: u32,
}

/// The outcome of the call at `index`: the forced rejection if one is due
/// there, else the ledger's own answer.
pub open spec fn attempt(s: LedgerState, call: Call, index: int, fault: Option<Fault>) -> Result<
    LedgerState,
    u32,
> {
    if fault is Some && fault->Some_0.at == index {
        Err(fault->Some_0.code)
    } else {
        apply(s, call)
    }
}

/// The ledger after the calls from index `from` on, or the error of the
/// first one rejected.
pub open spec fn run_from(s: LedgerState, calls: Seq<Call>, from: int, fault: Option<Fault>) -> Result<
    LedgerState,
    Errors,
>
    decreases calls.len() - from,
{
    if from < 0 || from >= calls.len() {
        Ok(s)
    } else {
        match attempt(s, calls[from], from, fault) {
            Ok(next) => run_from(next, calls, from + 1, fault),
            Err(code) => Err(rejection(calls[from], code)),
        }
    }
}

/// The ledger after a whole transaction: every call accepted in order and
/// the event published, or the error of the first call rejected.
pub open spec fn settle(s: LedgerState, calls: Seq<Call>, event: Option<Event>, fault: Option<
    Fault,
>) -> Result<LedgerState, Errors> {
    match run_from(s, calls, 0, fault) {
        Ok(done) => Ok(
            match event {
                Some(e) => LedgerState { events: done.events.push(e), ..done },
                None => done,
            },
        ),
        Err(error) => Err(error),
    }
}

/// The ledger that a verdict leaves: the new one if the operation went
/// through, the old one untouched if it was rejected.
pub open spec fn state_after(s: LedgerState, verdict: Result<LedgerState, Errors>) -> LedgerState {
    match verdict {
        Ok(next) => next,
        Err(_) => s,
    }
}

/// What the caller is told of a verdict.
pub open spec fn reply(verdict: Result<LedgerState, Errors>) -> Result<(), Errors> {
    match verdict {
        Ok(_) => Ok(()),
        Err(error) => Err(error),
    }
}

/// An in-memory stand-in for the collaborators. It keeps registry entities,
/// supplies, balances, metadata records and edition markers, answers each
/// delegated call by the rules of `apply`, and runs whole transactions
/// atomically, so that the operations of the bridge can be run and their
/// guarantees stated where no chain is at hand.
pub struct Ledger {
    bridges: Table<Bridge>,
    supplies: Table<u64>,
    balances: Table<u64>,
    metadata: Table<MetadataRecord>,
    editions: Table<Option<u64>>,
    events: Vec<Event>,
}

impl Ledger {
    /// Every table of the ledger is well formed.
    pub closed spec fn wf(&self) -> bool {
        &&& self.bridges.wf()
        &&& self.supplies.wf()
        &&& self.balances.wf()
        &&& self.metadata.wf()
        &&& self.editions.wf()
    }

    /// What the ledger holds.
    pub closed spec fn view(&self) -> LedgerState {
        LedgerState {
            bridges: self.bridges.view(),
            supplies: self.supplies.view(),
            balances: self.balances.view(),
            metadata: self.metadata.view(),
            editions: self.editions.view(),
            events: self.events@,
        }
    }

    /// The ledger on which nothing exists yet.
    pub fn new() -> (ledger: Ledger)
        ensures
            ledger.wf(),
            ledger@.bridges == Map::<Address, Bridge>::empty(),
            ledger@.supplies == Map::<Address, u64>::empty(),
            ledger@.balances == Map::<Address, u64>::empty(),
            ledger@.metadata == Map::<Address, MetadataRecord>::empty(),
            ledger@.editions == Map::<Address, Option<u64>>::empty(),
            ledger@.events == Seq::<Event>::empty(),
    {
        Ledger {
            bridges: Table::new(),
            supplies: Table::new(),
            balances: Table::new(),
            metadata: Table::new(),
            editions: Table::new(),
            events: Vec::new(),
        }
    }

    /// The registry entity at `key`, if it exists.
    pub fn bridge(&self, key: &Address) -> (found: Option<Bridge>)
        requires
            self.wf(),
        ensures
            found == (if self@.bridges.contains_key(*key) {
                Some(self@.bridges[*key])
            } else {
                None
            }),
    {
        match self.bridges.get(key) {
            Some(record) => Some(*record),
            None => None,
        }
    }

    /// The supply of the token type `mint`, if it exists.
    pub fn supply(&self, mint: &Address) -> (found: Option<u64>)
        requires
            self.wf(),
        ensures
            found == (if self@.supplies.contains_key(*mint) {
                Some(self@.supplies[*mint])
            } else {
                None
            }),
    {
        match self.supplies.get(mint) {
            Some(units) => Some(*units),
            None => None,
        }
    }

    /// The balance of `holding`, if it exists.
    pub fn balance(&self, holding: &Address) -> (found: Option<u64>)
        requires
            self.wf(),
        ensures
            found == (if self@.balances.contains_key(*holding) {
                Some(self@.balances[*holding])
            } else {
                None
            }),
    {
        match self.balances.get(holding) {
            Some(units) => Some(*units),
            None => None,
        }
    }

    /// The metadata record of the token type `mint`, if it has one.
    pub fn metadata(&self, mint: &Address) -> (found: Option<&MetadataRecord>)
        requires
            self.wf(),
        ensures
            match found {
                Some(record) => self@.metadata.contains_key(*mint) && *record
                    == self@.metadata[*mint],
                None => !self@.metadata.contains_key(*mint),
            },
    {
        self.metadata.get(mint)
    }

    /// The most copies that the edition marker of `mint` allows, if it has
    /// a marker.
    pub fn edition(&self, mint: &Address) -> (found: Option<Option<u64>>)
        requires
            self.wf(),
        ensures
            found == (if self@.editions.contains_key(*mint) {
                Some(self@.editions[*mint])
            } else {
                None
            }),
    {
        match self.editions.get(mint) {
            Some(max_supply) => Some(*max_supply),
            None => None,
        }
    }

    /// Answers one delegated call: the call takes effect, or is rejected with
    /// a code and changes nothing.
    pub fn perform(&mut self, call: &Call) -> (r: Result<(), u32>)
        requires
            old(self).wf(),
        ensures
            final(self).wf(),
            apply(old(self)@, *call) is Ok ==> r is Ok && final(self)@ == apply(
                old(self)@,
                *call,
            )->Ok_0,
            apply(old(self)@, *call) is Err ==> r is Err && r->Err_0 == apply(
                old(self)@,
                *call,
            )->Err_0 && final(self)@ == old(self)@,
    {
        match call {
            Call::CreateBridge { bridge, payer, record } => {
                if self.bridges.contains_key(bridge) {
                    return Err(REJECT_IN_USE);
                }
                self.bridges.insert(*bridge, *record);
                Ok(())
            },
            Call::CreateMint { mint, payer, decimals, authority, freeze_authority } => {
                if self.supplies.contains_key(mint) {
                    return Err(REJECT_IN_USE);
                }
                self.supplies.insert(*mint, 0);
                Ok(())
            },
            Call::OpenHolding { holding, payer, mint, owner } => {
                if !self.balances.contains_key(holding) {
                    self.balances.insert(*holding, 0);
                }
                Ok(())
            },
            Call::Transfer { from, to, authority, amount } => {
                let available: u64 = match self.balances.get(from) {
                    Some(units) => *units,
                    None => {
                        return Err(REJECT_MISSING);
                    },
                };
                let held: u64 = match self.balances.get(to) {
                    Some(units) => *units,
                    None => {
                        return Err(REJECT_MISSING);
                    },
                };
                if available < *amount {
                    return Err(REJECT_FUNDS);
                }
                if *from == *to {
                    return Ok(());
                }
                if held > u64::MAX - *amount {
                    return Err(REJECT_OVERFLOW);
                }
                self.balances.insert(*from, available - *amount);
                self.balances.insert(*to, held + *amount);
                Ok(())
            },
            Call::MintTo { mint, to, authority, amount } => {
                let supply: u64 = match self.supplies.get(mint) {
                    Some(units) => *units,
                    None => {
                        return Err(REJECT_MISSING);
                    },
                };
                let held: u64 = match self.balances.get(to) {
                    Some(units) => *units,
                    None => {
                        return Err(REJECT_MISSING);
                    },
                };
                if self.editions.contains_key(mint) {
                    return Err(REJECT_FIXED_SUPPLY);
                }
                if supply > u64::MAX - *amount || held > u64::MAX - *amount {
                    return Err(REJECT_OVERFLOW);
                }
                self.supplies.insert(*mint, supply + *amount);
                self.balances.insert(*to, held + *amount);
                Ok(())
            },
            Call::Burn { mint, from, authority, amount } => {
                let supply: u64 = match self.supplies.get(mint) {
                    Some(units) => *units,
                    None => {
                        return Err(REJECT_MISSING);
                    },
                };
                let held: u64 = match self.balances.get(from) {
                    Some(units) => *units,
                    None => {
                        return Err(REJECT_MISSING);
                    },
                };
                if held < *amount || supply < *amount {
                    return Err(REJECT_FUNDS);
                }
                self.supplies.insert(*mint, supply - *amount);
                self.balances.insert(*from, held - *amount);
                Ok(())
            },
            Call::CreateMetadata {
                metadata,
                mint,
                mint_authority,
                payer,
                update_authority,
                data,
                is_mutable,
                update_authority_is_signer,
                collection_details,
            } => {
                if !self.supplies.contains_key(mint) {
                    return Err(REJECT_MISSING);
                }
                if self.metadata.contains_key(mint) {
                    return Err(REJECT_IN_USE);
                }
                let record = MetadataRecord {
                    name: data.name.clone(),
                    symbol: data.symbol.clone(),
                    uri: data.uri.clone(),
                    seller_fee_basis_points: data.seller_fee_basis_points,
                    is_mutable: *is_mutable,
                };
                self.metadata.insert(*mint, record);
                Ok(())
            },
            Call::CreateMasterEdition {
                edition,
                metadata,
                mint,
                mint_authority,
                payer,
                update_authority,
                max_supply,
            } => {
                if !self.metadata.contains_key(mint) {
                    return Err(REJECT_MISSING);
                }
                if self.editions.contains_key(mint) {
                    return Err(REJECT_IN_USE);
                }
                self.editions.insert(*mint, *max_supply);
                Ok(())
            },
        }
    }

    /// A copy of the ledger.
    pub fn snapshot(&self) -> (copy: Ledger)
        requires
            self.wf(),
        ensures
            copy.wf(),
            copy@ == self@,
    {
        let mut events: Vec<Event> = Vec::new();
        let mut i: usize = 0;
        while i < self.events.len()
            invariant
                i <= self.events@.len(),
                events@ == self.events@.subrange(0, i as int),
            decreases self.events@.len() - i,
        {
            events.push(self.events[i].duplicate());
            i += 1;
            assert(events@ =~= self.events@.subrange(0, i as int));
        }
        assert(events@ =~= self.events@);
        Ledger {
            bridges: self.bridges.snapshot(),
            supplies: self.supplies.snapshot(),
            balances: self.balances.snapshot(),
            metadata: self.metadata.snapshot(),
            editions: self.editions.snapshot(),
            events,
        }
    }

    /// Runs a transaction: every call in order, each answered by the ledger
    /// unless `fault` forces its rejection. Either every call is accepted,
    /// all effects are kept and the event is published, or the first
    /// rejection is reported and the ledger stays exactly as it was.
    pub fn process(&mut self, tx: &Transaction, fault: Option<Fault>) -> (r: Result<(), Errors>)
        requires
            old(self).wf(),
        ensures
            final(self).wf(),
            r == reply(settle(old(self)@, tx.calls@, tx.event, fault)),
            final(self)@ == state_after(
                old(self)@,
                settle(old(self)@, tx.calls@, tx.event, fault),
            ),
    {
        let mut work = self.snapshot();
        let mut progress = Progress::start();
        loop
            invariant
                work.wf(),
                self.wf(),
                *self == *old(self),
                progress.accepted() <= tx.calls@.len(),
                progress.failure() is None ==> run_from(
                    work@,
                    tx.calls@,
                    progress.accepted() as int,
                    fault,
                ) == run_from(old(self)@, tx.calls@, 0, fault),
                progress.failure() is Some ==> run_from(old(self)@, tx.calls@, 0, fault) == Err::<
                    LedgerState,
                    Errors,
                >(progress.failure()->Some_0),
            decreases
                    tx.calls@.len() - progress.accepted() + (if progress.failure() is None {
                        1nat
                    } else {
                        0nat
                    }),
        {
            match tx.next_step(&progress) {
                Step::Invoke(index) => {
                    let ghost before = work@;
                    let forced = match fault {
                        Some(f) => f.at == index,
                        None => false,
                    };
                    let outcome = if forced {
                        match fault {
                            Some(f) => Err(f.code),
                            None => Ok(()),
                        }
                    } else {
                        work.perform(&tx.calls[index])
                    };
                    progress = tx.record(progress, outcome);
                    proof {
                        let reached = run_from(before, tx.calls@, index as int, fault);
                        match attempt(before, tx.calls@[index as int], index as int, fault) {
                            Ok(next) => {
                                assert(work@ == next);
                                assert(reached == run_from(next, tx.calls@, index + 1, fault));
                            },
                            Err(code) => {
                                assert(reached == Err::<LedgerState, Errors>(
                                    rejection(tx.calls@[index as int], code),
                                ));
                            },
                        }
                    }
                },
                Step::Commit => {
                    match &tx.event {
                        Some(event) => {
                            work.events.push(event.duplicate());
                        },
                        None => {},
                    }
                    *self = work;
                    return Ok(());
                },
                Step::Abort(error) => {
                    return Err(error);
                },
            }
        }
    }

    /// The events published so far, oldest first.
    pub fn events(&self) -> (events: &Vec<Event>)
        ensures
            events@ == self@.events,
    {
        &self.events
    }
}

} // verus!
