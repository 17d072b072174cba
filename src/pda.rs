use vstd::prelude::*;
use crate::address::Address;
use crate::wire::{le_u64, write_u64};

verus! {

/// What the host's program-address search returns for the given seeds and
/// program identity: an address and its bump byte, or nothing.
pub uninterp spec fn program_address_search(seeds: Seq<Seq<u8>>, program: Seq<u8>) -> Option<
    (Seq<u8>, u8),
>;

pub open spec fn found_view(r: Option<(Address, u8)>) -> Option<(Seq<u8>, u8)> {
    match r {
        Some((a, b)) => Some((a@, b)),
        None => None,
    }
}

/// Relies on solana_program's `Pubkey::try_find_program_address`, which tries
/// bump bytes from the highest down and returns the first that yields a valid
/// program address; its result depends on the seeds and the program alone.
#[verifier::external_body]
fn try_find_program_address(seeds: &Vec<Vec<u8>>, program: &Address) -> (r: Option<(Address, u8)>)
    ensures
        found_view(r) == program_address_search(seeds.deep_view(), program@),
{
    let refs: Vec<&[u8]> = seeds.iter().map(Vec::as_slice).collect();
    let id = solana_program::pubkey::Pubkey::new_from_array(program.bytes);
    match solana_program::pubkey::Pubkey::try_find_program_address(&refs, &id) {
        Some((key, bump)) => Some((Address { bytes: key.to_bytes() }, bump)),
        None => None,
    }
}

/// The constant first seed of every escrow address: the ASCII text "escrow".
pub open spec fn escrow_seed() -> Seq<u8> {
    seq![101u8, 115u8, 99u8, 114u8, 111u8, 119u8]
}

/// The seeds of an escrow address: the constant seed, the creator, the counter.
pub open spec fn escrow_seeds(creator: Seq<u8>, counter: u64) -> Seq<Seq<u8>> {
    seq![escrow_seed(), creator, le_u64(counter)]
}

/// The address and bump byte of the escrow that `creator` made with `counter`.
pub open spec fn escrow_address(program: Seq<u8>, creator: Seq<u8>, counter: u64) -> Option<
    (Seq<u8>, u8),
> {
    program_address_search(escrow_seeds(creator, counter), program)
}

/// Derives the escrow address of (creator, counter) under the program.
pub fn find_escrow_address(program_id: &Address, creator: &Address, counter: u64) -> (r: Option<
    (Address, u8),
>)
    ensures
        found_view(r) == escrow_address(program_id@, creator@, counter),
{
    let mut seeds: Vec<Vec<u8>> = Vec::new();
    seeds.push(vec![101u8, 115u8, 99u8, 114u8, 111u8, 119u8]);
    let mut key: Vec<u8> = Vec::new();
    crate::wire::append_bytes(&mut key, creator.bytes.as_slice());
    seeds.push(key);
    let mut count: Vec<u8> = Vec::new();
    write_u64(&mut count, counter);
    seeds.push(count);
    assert(seeds[0]@ =~= escrow_seed());
    assert(seeds[2]@ =~= le_u64(counter));
    assert(seeds.deep_view()[0] =~= escrow_seed());
    assert(seeds.deep_view()[1] =~= creator@);
    assert(seeds.deep_view()[2] =~= le_u64(counter));
    assert(seeds.deep_view() =~= escrow_seeds(creator@, counter));
    try_find_program_address(&seeds, program_id)
}

/// Derivation is a function of its inputs: two derivations of the same
/// (program, creator, counter) give the same address and bump.
pub proof fn lemma_derivation_deterministic(
    program: Address,
    creator: Address,
    counter: u64,
    first: Option<(Address, u8)>,
    second: Option<(Address, u8)>,
)
    requires
        found_view(first) == escrow_address(program@, creator@, counter),
        found_view(second) == escrow_address(program@, creator@, counter),
    ensures
        found_view(first) == found_view(second),
        first matches Some((a, b)) ==> second matches Some((c, d)) && a@ == c@ && b == d,
{
}

} // verus!
