use crate::address::{Address, PROGRAM_ID, VAULT_TAG};
use anchor_lang::prelude::Pubkey;
use vstd::prelude::*;

verus! {

/// The seeds from which an owner's vault address is searched: the domain tag, then the owner.
pub open spec fn vault_seeds(owner: Seq<u8>) -> Seq<Seq<u8>> {
    seq![VAULT_TAG@, owner]
}

/// The seeds that stand in for a signature of the vault: those of the search, closed by the
/// bump that the search found.
pub open spec fn signer_seeds(owner: Seq<u8>, bump: u8) -> Seq<Seq<u8>> {
    seq![VAULT_TAG@, owner, seq![bump]]
}

/// What `Pubkey::try_find_program_address` returns for the given seeds and program: the first
/// address off the curve that the search meets, with the bump that produced it, or `None` when
/// the search finds none. It hashes its arguments and reads nothing else.
pub uninterp spec fn program_address(seeds: Seq<Seq<u8>>, program_id: Seq<u8>) -> Option<(Seq<u8>, u8)>;

/// The vault address of an owner and its bump, where the search finds one.
pub open spec fn derived(owner: Seq<u8>) -> Option<(Seq<u8>, u8)> {
    program_address(vault_seeds(owner), PROGRAM_ID@)
}

/// Calls `Pubkey::try_find_program_address` on the seeds, in their order, and the program id.
/// Believed, not proved: the address and bump returned are those that `program_address` names
/// for these arguments, and `None` comes back exactly when it names none.
#[verifier::external_body]
fn find_program_address(seeds: &Vec<Vec<u8>>, program_id: &[u8; 32]) -> (found: Option<([u8; 32], u8)>)
    ensures
        match found {
            Some((address, bump)) => program_address(seeds.deep_view(), program_id@) == Some((address@, bump)),
            None => program_address(seeds.deep_view(), program_id@) is None,
        },
{
    let slices: Vec<&[u8]> = seeds.iter().map(|seed| seed.as_slice()).collect();
    let program = Pubkey::new_from_array(*program_id);
    match Pubkey::try_find_program_address(&slices, &program) {
        Some((address, bump)) => Some((address.to_bytes(), bump)),
        None => None,
    }
}

/// A derivation as plain values: the address as its bytes, beside the bump.
pub open spec fn derivation_view(found: Option<(Address, u8)>) -> Option<(Seq<u8>, u8)> {
    match found {
        Some((address, bump)) => Some((address@, bump)),
        None => None,
    }
}

/// Derivations with the same plain value are the same derivation: the bytes of an address
/// are all there is to it.
pub proof fn lemma_derivation_view_is_injective(first: Option<(Address, u8)>, second: Option<(Address, u8)>)
    requires
        derivation_view(first) == derivation_view(second),
    ensures
        first == second,
{
    if let Some((address, _)) = first {
        if let Some((other, _)) = second {
            Address::lemma_equal_by_bytes(address, other);
        }
    }
}

/// Derives the vault of `owner`: its address and the bump that re-derives it.
///
/// The result is a function of the owner alone: whoever knows the owner computes the same
/// address and the same bump, every time.
pub fn derive(owner: &Address) -> (found: Option<(Address, u8)>)
    ensures
        derivation_view(found) == derived(owner@),
{
    let mut seeds: Vec<Vec<u8>> = Vec::new();
    seeds.push(vstd::slice::slice_to_vec(&VAULT_TAG));
    seeds.push(owner.to_vec());
    assert(seeds.deep_view() =~~= vault_seeds(owner@));
    match find_program_address(&seeds, &PROGRAM_ID) {
        Some((bytes, bump)) => Some((Address::new(bytes), bump)),
        None => None,
    }
}

} // verus!
