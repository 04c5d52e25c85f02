//! Seeds of the program's derived addresses: the pool, which signs the
//! calls it makes, and the ticket records, numbered by the pool.

use vstd::prelude::*;

verus! {

/// `b"halopot"`, the seed of the pool's address.
pub open spec fn pool_seed() -> Seq<u8> {
    seq![104u8, 97u8, 108u8, 111u8, 112u8, 111u8, 116u8]
}

/// `b"ticket"`, the first seed of a ticket record's address.
pub open spec fn ticket_seed() -> Seq<u8> {
    seq![116u8, 105u8, 99u8, 107u8, 101u8, 116u8]
}

/// The seeds the pool signs with: `b"halopot"` and its bump.
pub fn pool_signer_seeds(bump: u8) -> (r: Vec<Vec<u8>>)
    ensures
        r@.len() == 2,
        r@[0]@ == pool_seed(),
        r@[1]@ == seq![bump],
{
    let name: Vec<u8> = vec![104u8, 97u8, 108u8, 111u8, 112u8, 111u8, 116u8];
    let b: Vec<u8> = vec![bump];
    let mut seeds: Vec<Vec<u8>> = Vec::new();
    seeds.push(name);
    seeds.push(b);
    seeds
}

/// The seeds of the address of ticket number `id`: `b"ticket"` and the
/// eight little-endian bytes of `id`.
pub fn ticket_seeds(id: u64) -> (r: Vec<Vec<u8>>)
    ensures
        r@.len() == 2,
        r@[0]@ == ticket_seed(),
        r@[1]@ == vstd::bytes::spec_u64_to_le_bytes(id),
        r@[1]@.len() == 8,
{
    let name: Vec<u8> = vec![116u8, 105u8, 99u8, 107u8, 101u8, 116u8];
    let idb = vstd::bytes::u64_to_le_bytes(id);
    let mut seeds: Vec<Vec<u8>> = Vec::new();
    seeds.push(name);
    seeds.push(idb);
    seeds
}

} // verus!
