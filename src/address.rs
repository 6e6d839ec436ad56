//! Addresses and program-derived addresses.

use vstd::prelude::*;
use vstd::bytes::{spec_u64_to_le_bytes, u64_to_le_bytes};
use anchor_lang::solana_program::pubkey::Pubkey;

verus! {

/// An account identity: 32 bytes, as a public key.
pub type Address = [u8; 32];

/// What `Pubkey::try_find_program_address` returns for the given seeds
/// and program id: the derived address and its bump seed, if one exists.
pub uninterp spec fn program_address(seeds: Seq<Seq<u8>>, program_id: Seq<u8>) -> Option<(Seq<u8>, u8)>;

/// The optional derived address, viewed as bytes.
pub open spec fn found_view(r: Option<(Address, u8)>) -> Option<(Seq<u8>, u8)> {
    match r {
        Some((a, b)) => Some((a@, b)),
        None => None,
    }
}

/// The optional address, viewed as bytes.
pub open spec fn address_view(r: Option<Address>) -> Option<Seq<u8>> {
    match r {
        Some(a) => Some(a@),
        None => None,
    }
}

/// The tag that opens the seeds of every offer: the bytes of "offer".
pub open spec fn offer_tag() -> Seq<u8> {
    seq![111u8, 102u8, 102u8, 101u8, 114u8]
}

/// The seeds from which the address of a maker's offer `id` is derived.
pub open spec fn offer_seeds(maker: Seq<u8>, id: u64) -> Seq<Seq<u8>> {
    seq![offer_tag(), maker, spec_u64_to_le_bytes(id)]
}

/// The address of the offer `id` of `maker` under `program_id`; it is
/// also the authority of the offer's vault.
pub open spec fn offer_authority(program_id: Seq<u8>, maker: Seq<u8>, id: u64) -> Option<Seq<u8>> {
    match program_address(offer_seeds(maker, id), program_id) {
        Some((a, _)) => Some(a),
        None => None,
    }
}

/// Relies on `Pubkey::try_find_program_address` of solana-program (through
/// anchor-lang): for the same seeds and program id it returns the same
/// address and bump seed, or `None` where no bump seed gives an address.
#[verifier::external_body]
fn find_program_address(seeds: &Vec<Vec<u8>>, program_id: &Address) -> (r: Option<(Address, u8)>)
    ensures
        found_view(r) == program_address(seeds@.map_values(|s: Vec<u8>| s@), program_id@),
{
    let slices: Vec<&[u8]> = seeds.iter().map(|s| s.as_slice()).collect();
    Pubkey::try_find_program_address(&slices, &Pubkey::new_from_array(*program_id))
        .map(|(key, bump)| (key.to_bytes(), bump))
}

/// Whether two addresses hold the same bytes.
pub fn same_address(a: &Address, b: &Address) -> (r: bool)
    ensures
        r == (a@ == b@),
{
    proof {
        vstd::array::array_len_matches_n(a);
        vstd::array::array_len_matches_n(b);
    }
    let mut i: usize = 0;
    while i < 32
        invariant
            i <= 32,
            a@.len() == 32,
            b@.len() == 32,
            forall|j: int| 0 <= j < i ==> a@[j] == b@[j],
        decreases 32 - i,
    {
        if a[i] != b[i] {
            return false;
        }
        i = i + 1;
    }
    assert(a@ =~= b@);
    true
}

/// The bytes of an address, as a vector.
fn address_bytes(a: &Address) -> (r: Vec<u8>)
    ensures
        r@ == a@,
{
    proof {
        vstd::array::array_len_matches_n(a);
    }
    let mut out: Vec<u8> = Vec::new();
    let mut i: usize = 0;
    while i < 32
        invariant
            i <= 32,
            a@.len() == 32,
            out@ == a@.subrange(0, i as int),
        decreases 32 - i,
    {
        out.push(a[i]);
        i = i + 1;
        assert(out@ =~= a@.subrange(0, i as int));
    }
    assert(a@.subrange(0, 32) =~= a@);
    out
}

/// The seeds of the offer `id` of `maker`.
pub fn make_offer_seeds(maker: &Address, id: u64) -> (r: Vec<Vec<u8>>)
    ensures
        r@.map_values(|s: Vec<u8>| s@) == offer_seeds(maker@, id),
{
    let tag: Vec<u8> = vec![111u8, 102u8, 102u8, 101u8, 114u8];
    let mut seeds: Vec<Vec<u8>> = Vec::new();
    seeds.push(tag);
    seeds.push(address_bytes(maker));
    seeds.push(u64_to_le_bytes(id));
    assert(seeds@[0]@ =~= offer_tag());
    assert(seeds@.map_values(|s: Vec<u8>| s@) =~= offer_seeds(maker@, id));
    seeds
}

/// Derives the address of the offer `id` of `maker` under `program_id`.
pub fn derive_offer_authority(program_id: &Address, maker: &Address, id: u64) -> (r: Option<Address>)
    ensures
        address_view(r) == offer_authority(program_id@, maker@, id),
{
    let seeds = make_offer_seeds(maker, id);
    match find_program_address(&seeds, program_id) {
        Some((a, _)) => Some(a),
        None => None,
    }
}

} // verus!
