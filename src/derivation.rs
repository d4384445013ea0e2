use crate::address::{create_program_address, found_view, program_address, program_address_search, try_find_program_address, Address};
use crate::error::EchoError;
use vstd::bytes::{spec_u64_to_le_bytes, u64_to_le_bytes};
use vstd::prelude::*;

verus! {

/// The namespace tag of per-authority buffers: the bytes of `authority`.
pub open spec fn authority_namespace() -> Seq<u8> {
    seq![97u8, 117, 116, 104, 111, 114, 105, 116, 121]
}

/// The namespace tag of priced buffers: the bytes of `vending_machine`.
pub open spec fn vending_machine_namespace() -> Seq<u8> {
    seq![
        118u8, 101, 110, 100, 105, 110, 103, 95, 109, 97, 99, 104, 105, 110, 101,
    ]
}

/// The seed tuple of a buffer family, without bump: the namespace tag, the
/// identity the buffer belongs to, and the 8 bytes of its scalar.
pub open spec fn family_seeds(namespace: Seq<u8>, identity: Seq<u8>, scalar_bytes: Seq<u8>) -> Seq<Seq<u8>> {
    seq![namespace, identity, scalar_bytes]
}

/// A seed tuple followed by the one-byte seed holding its bump.
pub open spec fn with_bump(seeds: Seq<Seq<u8>>, bump: u8) -> Seq<Seq<u8>> {
    seeds.push(seq![bump])
}

/// The canonical address and bump of a family buffer, if any.
pub open spec fn family_derivation(program: Seq<u8>, namespace: Seq<u8>, identity: Seq<u8>, scalar: u64) -> Option<(Seq<u8>, u8)> {
    program_address_search(family_seeds(namespace, identity, spec_u64_to_le_bytes(scalar)), program)
}

/// Whether `claimed` is the address that the seed tuple, completed by `bump`,
/// maps to under `program`.
pub open spec fn derivation_confirms(
    claimed: Seq<u8>,
    program: Seq<u8>,
    namespace: Seq<u8>,
    identity: Seq<u8>,
    scalar_bytes: Seq<u8>,
    bump: u8,
) -> bool {
    program_address(with_bump(family_seeds(namespace, identity, scalar_bytes), bump), program) == Some(claimed)
}

/// The namespace tag of per-authority buffers.
pub fn authority_namespace_bytes() -> (r: Vec<u8>)
    ensures
        r@ == authority_namespace(),
{
    let r: Vec<u8> = vec![97u8, 117, 116, 104, 111, 114, 105, 116, 121];
    assert(r@ =~= authority_namespace());
    r
}

/// The namespace tag of priced buffers.
pub fn vending_machine_namespace_bytes() -> (r: Vec<u8>)
    ensures
        r@ == vending_machine_namespace(),
{
    let r: Vec<u8> = vec![
        118u8, 101, 110, 100, 105, 110, 103, 95, 109, 97, 99, 104, 105, 110, 101,
    ];
    assert(r@ =~= vending_machine_namespace());
    r
}

/// A vector holding the same bytes as `v`.
pub(crate) fn copy_bytes(v: &[u8]) -> (r: Vec<u8>)
    ensures
        r@ == v@,
{
    let mut r: Vec<u8> = Vec::new();
    let mut i: usize = 0;
    while i < v.len()
        invariant
            i <= v@.len(),
            r@ == v@.subrange(0, i as int),
        decreases v@.len() - i,
    {
        r.push(v[i]);
        i = i + 1;
    }
    assert(r@ =~= v@);
    r
}

/// The seed tuple `[namespace, identity, scalar_bytes]` as a vector of seeds.
fn family_seed_list(namespace: &Vec<u8>, identity: &Address, scalar_bytes: Vec<u8>) -> (r: Vec<Vec<u8>>)
    ensures
        r.deep_view() == family_seeds(namespace@, identity@, scalar_bytes@),
{
    let mut r: Vec<Vec<u8>> = Vec::new();
    let ns = copy_bytes(namespace.as_slice());
    let id = identity.to_vec();
    assert(ns.deep_view() =~= ns@);
    assert(id.deep_view() =~= id@);
    assert(scalar_bytes.deep_view() =~= scalar_bytes@);
    r.push(ns);
    r.push(id);
    r.push(scalar_bytes);
    assert(r.deep_view() =~= family_seeds(namespace@, identity@, scalar_bytes@));
    r
}

/// Searches the canonical address and bump of the buffer that the seed tuple
/// `[namespace, identity, little-endian scalar]` names under `program_id`.
/// When one is found, the tuple completed by that bump maps to that address.
pub fn derive_address(program_id: &Address, namespace: &Vec<u8>, identity: &Address, scalar: u64) -> (r: Option<(Address, u8)>)
    ensures
        found_view(r) == family_derivation(program_id@, namespace@, identity@, scalar),
        r matches Some((a, b)) ==> derivation_confirms(
            a@,
            program_id@,
            namespace@,
            identity@,
            spec_u64_to_le_bytes(scalar),
            b,
        ),
{
    let seeds = family_seed_list(namespace, identity, u64_to_le_bytes(scalar));
    try_find_program_address(&seeds, program_id)
}

/// Confirms that `claimed` is the address that the seed tuple
/// `[namespace, identity, scalar_bytes, [bump]]` maps to under `program_id`;
/// any other account is rejected as invalid account data.
pub fn verify_derivation(
    claimed: &Address,
    program_id: &Address,
    namespace: &Vec<u8>,
    identity: &Address,
    scalar_bytes: Vec<u8>,
    bump: u8,
) -> (r: Result<(), EchoError>)
    ensures
        r == (if derivation_confirms(claimed@, program_id@, namespace@, identity@, scalar_bytes@, bump) {
            Ok::<(), EchoError>(())
        } else {
            Err(EchoError::InvalidAccountData)
        }),
{
    let ghost sb = scalar_bytes@;
    let mut seeds = family_seed_list(namespace, identity, scalar_bytes);
    let bump_seed: Vec<u8> = vec![bump];
    assert(bump_seed.deep_view() =~= seq![bump]);
    seeds.push(bump_seed);
    assert(seeds.deep_view() =~= with_bump(family_seeds(namespace@, identity@, sb), bump));
    match create_program_address(&seeds, program_id) {
        Some(found) => {
            if found.same_as(claimed) {
                Ok(())
            } else {
                Err(EchoError::InvalidAccountData)
            }
        },
        None => Err(EchoError::InvalidAccountData),
    }
}

/// Derivation is a pure function: any two derivations from the same program
/// identity, namespace, identity and scalar find the same address and bump.
pub proof fn lemma_derivation_deterministic(
    program: Seq<u8>,
    namespace: Seq<u8>,
    identity: Seq<u8>,
    scalar: u64,
    first: Option<(Address, u8)>,
    second: Option<(Address, u8)>,
)
    requires
        found_view(first) == family_derivation(program, namespace, identity, scalar),
        found_view(second) == family_derivation(program, namespace, identity, scalar),
    ensures
        found_view(first) == found_view(second),
        first matches Some((a, b)) ==> (second matches Some((c, d)) && a@ == c@ && b == d),
{
}

} // verus!
