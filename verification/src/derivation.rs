use vstd::prelude::*;
use vstd::bytes::spec_u64_to_le_bytes;
use vstd::bytes::u64_to_le_bytes;
use vstd::slice::slice_to_vec;
use vstd::utf8::encode_utf8;
use crate::address::Address;
use crate::address::lemma_address_by_bytes;
use crate::errors::Errors;
use anchor_lang::prelude::Pubkey;
use anchor_lang::solana_program::pubkey::PubkeyError;

verus! {

/// Most bytes a single seed may have.
pub const MAX_SEED_LEN: usize = 32;

/// Most seeds a derivation may have, the bump included.
pub const MAX_SEEDS: usize = 16;

/// The address that a program derives from a complete seed sequence (bump
/// included), or `None` when the sequence lands on the curve and so derives
/// nothing. Meaningful for sequences within the limits.
pub uninterp spec fn program_address(seeds: Seq<Seq<u8>>, program: Seq<u8>) -> Option<Seq<u8>>;

/// Why a seed sequence derives no address.
#[derive(Clone, Copy, Debug, PartialEq, Eq, Structural)]
pub(crate) enum SeedFault {
    /// Too many seeds, or a seed that is too long.
    TooLong,
    /// The sequence lands on the curve.
    OnCurve,
    /// The owner is not allowed.
    IllegalOwner,
}

/// The bytes of each seed.
pub open spec fn seed_bytes(seeds: Seq<Vec<u8>>) -> Seq<Seq<u8>> {
    Seq::new(seeds.len(), |i: int| seeds[i]@)
}

/// The number of seeds and the length of each are within what a derivation
/// accepts.
pub open spec fn within_limits(seeds: Seq<Seq<u8>>) -> bool {
    &&& seeds.len() <= MAX_SEEDS
    &&& forall|i: int| 0 <= i < seeds.len() ==> (#[trigger] seeds[i]).len() <= MAX_SEED_LEN
}

/// The seed sequence completed by a bump.
pub open spec fn with_bump(seeds: Seq<Seq<u8>>, bump: u8) -> Seq<Seq<u8>> {
    seeds.push(seq![bump])
}

/// The first bump, counting down from `bump`, that completes `seeds` to a
/// sequence deriving an address, with that address. Bump zero is never tried.
pub open spec fn search(seeds: Seq<Seq<u8>>, program: Seq<u8>, bump: u8) -> Option<(Seq<u8>, u8)>
    decreases bump,
{
    if bump == 0 {
        None
    } else {
        match program_address(with_bump(seeds, bump), program) {
            Some(address) => Some((address, bump)),
            None => search(seeds, program, (bump - 1) as u8),
        }
    }
}

/// The address and bump that a program finds for `seeds`: the highest bump
/// that derives an address. `None` when the seeds leave no room for a bump,
/// one of them is too long, or no bump derives anything.
pub open spec fn located(seeds: Seq<Seq<u8>>, program: Seq<u8>) -> Option<(Seq<u8>, u8)> {
    if within_limits(with_bump(seeds, 255)) {
        search(seeds, program, 255)
    } else {
        None
    }
}

/// `Pubkey::create_program_address`: derives the address of a complete seed
/// sequence. Trusted: a sequence beyond the limits is refused as too long;
/// within them the result is `program_address` of the same bytes, and a
/// sequence that derives nothing is reported as landing on the curve.
#[verifier::external_body]
pub(crate) fn create_program_address(seeds: &Vec<Vec<u8>>, program: &Address) -> (r: Result<
    Address,
    SeedFault,
>)
    ensures
        !within_limits(seed_bytes(seeds@)) ==> r is Err && r->Err_0 == SeedFault::TooLong,
        within_limits(seed_bytes(seeds@)) ==> (match program_address(seed_bytes(seeds@), program@) {
            Some(address) => r is Ok && r->Ok_0@ == address,
            None => r is Err && r->Err_0 == SeedFault::OnCurve,
        }),
{
    let slices: Vec<&[u8]> = seeds.iter().map(|seed| seed.as_slice()).collect();
    match Pubkey::create_program_address(&slices, &Pubkey::new_from_array(program.bytes)) {
        Ok(key) => Ok(Address { bytes: key.to_bytes() }),
        Err(PubkeyError::MaxSeedLengthExceeded) => Err(SeedFault::TooLong),
        Err(PubkeyError::InvalidSeeds) => Err(SeedFault::OnCurve),
        Err(PubkeyError::IllegalOwner) => Err(SeedFault::IllegalOwner),
    }
}

/// `Pubkey::try_find_program_address`: searches the bump for a seed sequence.
/// Trusted: the result is `located` of the same bytes, that is the highest
/// bump from 255 down to 1 whose completed sequence derives an address, and
/// nothing when the sequence with a bump would be beyond the limits.
#[verifier::external_body]
pub(crate) fn try_find_program_address(seeds: &Vec<Vec<u8>>, program: &Address) -> (r: Option<
    (Address, u8),
>)
    ensures
        (match located(seed_bytes(seeds@), program@) {
            Some(found) => r is Some && r->Some_0.0@ == found.0 && r->Some_0.1 == found.1,
            None => r is None,
        }),
{
    let slices: Vec<&[u8]> = seeds.iter().map(|seed| seed.as_slice()).collect();
    match Pubkey::try_find_program_address(&slices, &Pubkey::new_from_array(program.bytes)) {
        Some((key, bump)) => Some((Address { bytes: key.to_bytes() }, bump)),
        None => None,
    }
}

/// The domain tag of the registry entity's own derivation.
pub open spec fn bridge_tag() -> Seq<u8> {
    encode_utf8("bridge"@)
}

/// The namespace tag of a minted asset's derivation.
pub open spec fn mint_tag() -> Seq<u8> {
    encode_utf8("mint"@)
}

/// The tag under which the metadata service derives its records.
pub open spec fn metadata_tag() -> Seq<u8> {
    encode_utf8("metadata"@)
}

/// The tag that tells an edition marker from a metadata record.
pub open spec fn edition_tag() -> Seq<u8> {
    encode_utf8("edition"@)
}

/// The seeds of the registry entity for `seed`: the domain tag and the seed
/// in little-endian bytes.
pub open spec fn bridge_seeds(seed: u64) -> Seq<Seq<u8>> {
    seq![bridge_tag(), spec_u64_to_le_bytes(seed)]
}

/// The seeds of a minted asset: the namespace tag, the two sub-seeds as
/// UTF-8, and the identifier in little-endian bytes.
pub open spec fn mint_seeds(seed_p1: Seq<char>, seed_p2: Seq<char>, id: u64) -> Seq<Seq<u8>> {
    seq![mint_tag(), encode_utf8(seed_p1), encode_utf8(seed_p2), spec_u64_to_le_bytes(id)]
}

/// The seeds of the metadata record of `mint`, derived under the metadata
/// service.
pub open spec fn metadata_seeds(metadata_program: Seq<u8>, mint: Seq<u8>) -> Seq<Seq<u8>> {
    seq![metadata_tag(), metadata_program, mint]
}

/// The seeds of the edition marker of `mint`, derived under the metadata
/// service.
pub open spec fn edition_seeds(metadata_program: Seq<u8>, mint: Seq<u8>) -> Seq<Seq<u8>> {
    seq![metadata_tag(), metadata_program, mint, edition_tag()]
}

fn tag_bytes(tag: &str) -> (bytes: Vec<u8>)
    ensures
        bytes@ == encode_utf8(tag@),
{
    slice_to_vec(tag.as_bytes())
}

/// Builds `bridge_seeds(seed)`.
pub fn bridge_seed_sequence(seed: u64) -> (seeds: Vec<Vec<u8>>)
    ensures
        seed_bytes(seeds@) == bridge_seeds(seed),
{
    let mut seeds: Vec<Vec<u8>> = Vec::new();
    seeds.push(tag_bytes("bridge"));
    seeds.push(u64_to_le_bytes(seed));
    assert(seed_bytes(seeds@) =~= bridge_seeds(seed));
    seeds
}

/// Builds `mint_seeds(seed_p1, seed_p2, id)`.
pub fn mint_seed_sequence(seed_p1: &str, seed_p2: &str, id: u64) -> (seeds: Vec<Vec<u8>>)
    ensures
        seed_bytes(seeds@) == mint_seeds(seed_p1@, seed_p2@, id),
{
    let mut seeds: Vec<Vec<u8>> = Vec::new();
    seeds.push(tag_bytes("mint"));
    seeds.push(tag_bytes(seed_p1));
    seeds.push(tag_bytes(seed_p2));
    seeds.push(u64_to_le_bytes(id));
    assert(seed_bytes(seeds@) =~= mint_seeds(seed_p1@, seed_p2@, id));
    seeds
}

/// Builds `metadata_seeds(metadata_program, mint)`.
pub fn metadata_seed_sequence(metadata_program: &Address, mint: &Address) -> (seeds: Vec<Vec<u8>>)
    ensures
        seed_bytes(seeds@) == metadata_seeds(metadata_program@, mint@),
{
    let mut seeds: Vec<Vec<u8>> = Vec::new();
    seeds.push(tag_bytes("metadata"));
    seeds.push(metadata_program.to_vec());
    seeds.push(mint.to_vec());
    assert(seed_bytes(seeds@) =~= metadata_seeds(metadata_program@, mint@));
    seeds
}

/// Builds `edition_seeds(metadata_program, mint)`.
pub fn edition_seed_sequence(metadata_program: &Address, mint: &Address) -> (seeds: Vec<Vec<u8>>)
    ensures
        seed_bytes(seeds@) == edition_seeds(metadata_program@, mint@),
{
    let mut seeds: Vec<Vec<u8>> = Vec::new();
    seeds.push(tag_bytes("metadata"));
    seeds.push(metadata_program.to_vec());
    seeds.push(mint.to_vec());
    seeds.push(tag_bytes("edition"));
    assert(seed_bytes(seeds@) =~= edition_seeds(metadata_program@, mint@));
    seeds
}

/// The address of the registry entity for `seed` under `program`, with the
/// bump that completes its derivation.
pub fn find_bridge_address(seed: u64, program: &Address) -> (r: Option<(Address, u8)>)
    ensures
        (match located(bridge_seeds(seed), program@) {
            Some(found) => r is Some && r->Some_0.0@ == found.0 && r->Some_0.1 == found.1,
            None => r is None,
        }),
{
    let seeds = bridge_seed_sequence(seed);
    try_find_program_address(&seeds, program)
}

/// The address of the asset named by the two sub-seeds and the identifier
/// under `program`, with the bump that completes its derivation.
pub fn find_mint_address(seed_p1: &str, seed_p2: &str, id: u64, program: &Address) -> (r: Option<
    (Address, u8),
>)
    ensures
        (match located(mint_seeds(seed_p1@, seed_p2@, id), program@) {
            Some(found) => r is Some && r->Some_0.0@ == found.0 && r->Some_0.1 == found.1,
            None => r is None,
        }),
{
    let seeds = mint_seed_sequence(seed_p1, seed_p2, id);
    try_find_program_address(&seeds, program)
}

/// The address of the metadata record of `mint` under the metadata service.
pub fn find_metadata_address(metadata_program: &Address, mint: &Address) -> (r: Option<
    (Address, u8),
>)
    ensures
        (match located(metadata_seeds(metadata_program@, mint@), metadata_program@) {
            Some(found) => r is Some && r->Some_0.0@ == found.0 && r->Some_0.1 == found.1,
            None => r is None,
        }),
{
    let seeds = metadata_seed_sequence(metadata_program, mint);
    try_find_program_address(&seeds, metadata_program)
}

/// The address of the edition marker of `mint` under the metadata service.
pub fn find_edition_address(metadata_program: &Address, mint: &Address) -> (r: Option<
    (Address, u8),
>)
    ensures
        (match located(edition_seeds(metadata_program@, mint@), metadata_program@) {
            Some(found) => r is Some && r->Some_0.0@ == found.0 && r->Some_0.1 == found.1,
            None => r is None,
        }),
{
    let seeds = edition_seed_sequence(metadata_program, mint);
    try_find_program_address(&seeds, metadata_program)
}

/// The bump with which `seeds` derive `expected` under `program`, where the
/// address found for them is `expected`.
pub open spec fn bump_for(seeds: Seq<Seq<u8>>, program: Seq<u8>, expected: Seq<u8>) -> Option<u8> {
    match located(seeds, program) {
        Some(found) => if found.0 == expected {
            Some(found.1)
        } else {
            None
        },
        None => None,
    }
}

/// The bump of a search that found `expected`; a search that found another
/// address, or nothing, is a derivation mismatch.
pub fn expect_found(found: Option<(Address, u8)>, expected: &Address) -> (r: Result<u8, Errors>)
    ensures
        found is Some && found->Some_0.0 == *expected ==> r is Ok && r->Ok_0 == found->Some_0.1,
        !(found is Some && found->Some_0.0 == *expected) ==> r is Err && r->Err_0
            == Errors::DerivationMismatch,
{
    match found {
        Some((address, bump)) => {
            if address == *expected {
                Ok(bump)
            } else {
                Err(Errors::DerivationMismatch)
            }
        },
        None => Err(Errors::DerivationMismatch),
    }
}

/// Checks that `expected` is the address that `program` derives from
/// `seeds`, and gives the bump that completes them. Anything else is a
/// derivation mismatch.
pub fn confirm_derived(seeds: &Vec<Vec<u8>>, program: &Address, expected: &Address) -> (r: Result<
    u8,
    Errors,
>)
    ensures
        bump_for(seed_bytes(seeds@), program@, expected@) is Some ==> r is Ok && r->Ok_0
            == bump_for(seed_bytes(seeds@), program@, expected@)->Some_0,
        bump_for(seed_bytes(seeds@), program@, expected@) is None ==> r is Err && r->Err_0
            == Errors::DerivationMismatch,
{
    let found = try_find_program_address(seeds, program);
    proof {
        if found is Some && found->Some_0.0@ == expected@ {
            lemma_address_by_bytes(found->Some_0.0, *expected);
        }
    }
    expect_found(found, expected)
}

/// The right to sign delegated calls as a derived address: the complete seed
/// sequence that reproduces the address under the owning program. Only the
/// operations of this library make one, and only from a sequence that does
/// reproduce the address.
#[derive(Debug)]
pub struct SigningCapability {
    seeds: Vec<Vec<u8>>,
    program: Address,
    address: Address,
}

impl SigningCapability {
    /// The complete seed sequence, bump last.
    pub closed spec fn seeds(&self) -> Seq<Seq<u8>> {
        seed_bytes(self.seeds@)
    }

    /// The program under which the address is derived.
    pub closed spec fn program(&self) -> Address {
        self.program
    }

    /// The address signed for.
    pub closed spec fn address(&self) -> Address {
        self.address
    }

    /// The seed sequence is within the limits and derives the address.
    pub open spec fn reproduces(&self) -> bool {
        &&& within_limits(self.seeds())
        &&& program_address(self.seeds(), self.program()@) == Some(self.address()@)
    }

    #[verifier::type_invariant]
    spec fn sound(&self) -> bool {
        self.reproduces()
    }

    /// Presents `seeds` as the signer `address` under `program`. Fails closed:
    /// unless the sequence reproduces exactly that address, no capability is
    /// made.
    pub(crate) fn present(seeds: Vec<Vec<u8>>, program: &Address, address: &Address) -> (r: Result<
        SigningCapability,
        Errors,
    >)
        ensures
            presentable(seed_bytes(seeds@), program@, address@) ==> r is Ok && r->Ok_0.seeds()
                == seed_bytes(seeds@) && r->Ok_0.program() == *program && r->Ok_0.address()
                == *address && r->Ok_0.reproduces(),
            !presentable(seed_bytes(seeds@), program@, address@) ==> r is Err && r->Err_0
                == Errors::DerivationMismatch,
    {
        match create_program_address(&seeds, program) {
            Ok(derived) => {
                proof {
                    if derived@ == address@ {
                        lemma_address_by_bytes(derived, *address);
                    }
                }
                if derived == *address {
                    Ok(SigningCapability { seeds, program: *program, address: *address })
                } else {
                    Err(Errors::DerivationMismatch)
                }
            },
            Err(_) => Err(Errors::DerivationMismatch),
        }
    }

    /// The seed sequence to hand to a delegated call. Whatever capability
    /// this is asked of, the sequence reproduces its address.
    pub fn signer_seeds(&self) -> (seeds: &Vec<Vec<u8>>)
        ensures
            seed_bytes(seeds@) == self.seeds(),
            self.reproduces(),
    {
        proof {
            use_type_invariant(self);
        }
        &self.seeds
    }

    /// The address that the capability signs for. Whatever capability this
    /// is asked of, its seed sequence reproduces that address.
    pub fn signer(&self) -> (address: Address)
        ensures
            address == self.address(),
            self.reproduces(),
    {
        proof {
            use_type_invariant(self);
        }
        self.address
    }

    /// The program that owns the derivation.
    pub fn owner(&self) -> (program: Address)
        ensures
            program == self.program(),
    {
        self.program
    }
}

/// A complete seed sequence may be presented for `address` exactly when it is
/// within the limits and derives that address.
pub open spec fn presentable(seeds: Seq<Seq<u8>>, program: Seq<u8>, address: Seq<u8>) -> bool {
    within_limits(seeds) && program_address(seeds, program) == Some(address)
}

/// What `located` finds is a bump between 1 and 255 whose completed sequence
/// derives the address found, and that sequence is within the limits.
pub proof fn lemma_located_reproduces(seeds: Seq<Seq<u8>>, program: Seq<u8>)
    ensures
        match located(seeds, program) {
            Some(found) => found.1 >= 1 && within_limits(with_bump(seeds, found.1))
                && program_address(with_bump(seeds, found.1), program) == Some(found.0),
            None => true,
        },
{
    if within_limits(with_bump(seeds, 255)) {
        lemma_search_reproduces(seeds, program, 255);
        match search(seeds, program, 255) {
            Some(found) => {
                let a = with_bump(seeds, 255);
                let b = with_bump(seeds, found.1);
                assert(a.len() == b.len());
                assert forall|i: int| 0 <= i < b.len() implies (#[trigger] b[i]).len()
                    <= MAX_SEED_LEN by {
                    if i < seeds.len() {
                        assert(b[i] == a[i]);
                    } else {
                        assert(b[i].len() == 1);
                    }
                }
            },
            None => {},
        }
    }
}

proof fn lemma_search_reproduces(seeds: Seq<Seq<u8>>, program: Seq<u8>, bump: u8)
    ensures
        match search(seeds, program, bump) {
            Some(found) => 1 <= found.1 <= bump && program_address(
                with_bump(seeds, found.1),
                program,
            ) == Some(found.0),
            None => true,
        },
    decreases bump,
{
    if bump != 0 {
        if program_address(with_bump(seeds, bump), program) is None {
            lemma_search_reproduces(seeds, program, (bump - 1) as u8);
        }
    }
}

} // verus!
