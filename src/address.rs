//! Addresses and the deterministic derivation of program-owned addresses.

use vstd::prelude::*;
use anchor_lang::prelude::Pubkey;

verus! {

/// A 32-byte account address (the bytes of a public key).
#[derive(Clone, Copy, Debug, PartialEq, Eq)]
pub struct Address {
    pub bytes: [u8; 32],
}

impl View for Address {
    type V = Seq<u8>;

    open spec fn view(&self) -> Seq<u8> {
        self.bytes@
    }
}

impl Address {
    pub fn new(bytes: [u8; 32]) -> (r: Address)
        ensures
            r@ == bytes@,
    {
        Address { bytes }
    }

    /// Byte-wise comparison of two addresses.
    pub fn same_as(&self, other: &Address) -> (r: bool)
        ensures
            r == (self@ == other@),
    {
        let mut i: usize = 0;
        while i < 32
            invariant
                0 <= i <= 32,
                self@.len() == 32,
                other@.len() == 32,
                forall|j: int| 0 <= j < i ==> self@[j] == other@[j],
            decreases 32 - i,
        {
            if self.bytes[i] != other.bytes[i] {
                return false;
            }
            i = i + 1;
        }
        assert(self@ =~= other@);
        true
    }
}

/// The program-derived address and bump seed for `seeds` under the program
/// `program_id`, or `None` where no viable bump exists or the seeds are out
/// of bounds.
pub uninterp spec fn program_address(seeds: Seq<Seq<u8>>, program_id: Seq<u8>) -> Option<(Seq<u8>, u8)>;

/// Relies on `Pubkey::try_find_program_address` (solana-program, re-exported by
/// anchor_lang): off-chain it hashes the seeds, a bump seed and the program id,
/// searching bumps downward from 255, so its result depends on the seeds and the
/// program id alone; it never panics.
#[verifier::external_body]
fn find_program_address(seeds: &Vec<Vec<u8>>, program_id: &Address) -> (r: Option<(Address, u8)>)
    ensures
        match r {
            Some((a, b)) => program_address(seeds.deep_view(), program_id@) == Some((a@, b)),
            None => program_address(seeds.deep_view(), program_id@) is None,
        },
{
    let s: Vec<&[u8]> = seeds.iter().map(|x| x.as_slice()).collect();
    Pubkey::try_find_program_address(&s, &Pubkey::new_from_array(program_id.bytes))
        .map(|(k, b)| (Address { bytes: k.to_bytes() }, b))
}

/// The namespace tag of the pool: the bytes of "coin-flip".
pub open spec fn pool_namespace() -> Seq<u8> {
    seq![99u8, 111u8, 105u8, 110u8, 45u8, 102u8, 108u8, 105u8, 112u8]
}

/// The namespace tag of claim receipts: the bytes of "claimant".
pub open spec fn claimant_namespace() -> Seq<u8> {
    seq![99u8, 108u8, 97u8, 105u8, 109u8, 97u8, 110u8, 116u8]
}

pub open spec fn pool_seeds() -> Seq<Seq<u8>> {
    seq![pool_namespace()]
}

pub open spec fn claimant_seeds(owner: Seq<u8>) -> Seq<Seq<u8>> {
    seq![claimant_namespace(), owner]
}

/// The derived address of the pool under `program_id`.
pub fn pool_address(program_id: &Address) -> (r: Option<(Address, u8)>)
    ensures
        match r {
            Some((a, b)) => program_address(pool_seeds(), program_id@) == Some((a@, b)),
            None => program_address(pool_seeds(), program_id@) is None,
        },
{
    let tag: Vec<u8> = vec![99u8, 111u8, 105u8, 110u8, 45u8, 102u8, 108u8, 105u8, 112u8];
    assert(tag.deep_view() =~= pool_namespace());
    let seeds: Vec<Vec<u8>> = vec![tag];
    assert(seeds.deep_view() =~= pool_seeds());
    find_program_address(&seeds, program_id)
}

/// The derived address of the claim receipt of `owner` under `program_id`.
pub fn claimant_address(program_id: &Address, owner: &Address) -> (r: Option<(Address, u8)>)
    ensures
        match r {
            Some((a, b)) => program_address(claimant_seeds(owner@), program_id@) == Some((a@, b)),
            None => program_address(claimant_seeds(owner@), program_id@) is None,
        },
{
    let tag: Vec<u8> = vec![99u8, 108u8, 97u8, 105u8, 109u8, 97u8, 110u8, 116u8];
    let mut key: Vec<u8> = Vec::new();
    let mut i: usize = 0;
    while i < 32
        invariant
            0 <= i <= 32,
            owner@.len() == 32,
            key@ == owner@.subrange(0, i as int),
        decreases 32 - i,
    {
        key.push(owner.bytes[i]);
        i = i + 1;
    }
    assert(key.deep_view() =~= owner@);
    assert(tag.deep_view() =~= claimant_namespace());
    let seeds: Vec<Vec<u8>> = vec![tag, key];
    assert(seeds.deep_view() =~= claimant_seeds(owner@));
    find_program_address(&seeds, program_id)
}

} // verus!
