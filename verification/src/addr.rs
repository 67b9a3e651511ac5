//! Custody-address derivation: a deterministic map from a namespace tag plus
//! seed values to a derived address and its discriminant ("bump"), the value
//! that makes the address provably non-spendable by any external key.

use vstd::prelude::*;
use crate::Address;

verus! {

/// What `try_find_program_address` returns for a given seed list and program
/// id: the derived address together with its discriminant, or nothing when no
/// discriminant in range yields a valid off-curve address.
pub uninterp spec fn pda_found(seeds: Seq<Seq<u8>>, program: Seq<u8>) -> Option<(Seq<u8>, u8)>;

/// What `create_program_address` returns for a given seed list (discriminant
/// seed included) and program id, or nothing when the seeds are rejected or
/// the resulting address is spendable.
pub uninterp spec fn pda_created(seeds: Seq<Seq<u8>>, program: Seq<u8>) -> Option<Seq<u8>>;

/// The view of a seed list.
pub open spec fn seeds_view(seeds: Seq<Vec<u8>>) -> Seq<Seq<u8>> {
    seeds.map_values(|s: Vec<u8>| s@)
}

/// Relies on anchor_lang's `Pubkey::try_find_program_address`: the result is a
/// function of the seeds and the program id alone, and the returned address is
/// the one `create_program_address` yields for the seeds extended with the
/// returned discriminant.
#[verifier::external_body]
fn find_pda(seeds: &Vec<Vec<u8>>, program: &Address) -> (r: Option<(Address, u8)>)
    ensures
        r is Some <==> pda_found(seeds_view(seeds@), program@) is Some,
        r is Some ==> {
            let (a, b) = pda_found(seeds_view(seeds@), program@).unwrap();
            r.unwrap().0@ == a && r.unwrap().1 == b
        },
        r is Some ==> pda_created(
            seeds_view(seeds@).push(seq![r.unwrap().1]),
            program@,
        ) == Some(r.unwrap().0@),
{
    let refs: Vec<&[u8]> = seeds.iter().map(|s| s.as_slice()).collect();
    let program_id = anchor_lang::prelude::Pubkey::new_from_array(program.bytes);
    anchor_lang::prelude::Pubkey::try_find_program_address(&refs, &program_id)
        .map(|(pk, bump)| (Address { bytes: pk.to_bytes() }, bump))
}

/// Relies on anchor_lang's `Pubkey::create_program_address`: the result is a
/// function of the seeds and the program id alone.
#[verifier::external_body]
fn create_pda(seeds: &Vec<Vec<u8>>, program: &Address) -> (r: Option<Address>)
    ensures
        r is Some <==> pda_created(seeds_view(seeds@), program@) is Some,
        r is Some ==> r.unwrap()@ == pda_created(seeds_view(seeds@), program@).unwrap(),
{
    let refs: Vec<&[u8]> = seeds.iter().map(|s| s.as_slice()).collect();
    let program_id = anchor_lang::prelude::Pubkey::new_from_array(program.bytes);
    anchor_lang::prelude::Pubkey::create_program_address(&refs, &program_id)
        .ok()
        .map(|pk| Address { bytes: pk.to_bytes() })
}

/// The full seed list of a derivation: the namespace tag followed by the
/// seed values.
pub open spec fn tagged_seeds(tag: Seq<u8>, seeds: Seq<Seq<u8>>) -> Seq<Seq<u8>> {
    seq![tag] + seeds
}

/// What `derive` returns for a given tag, seed list and program id.
pub open spec fn spec_derive(tag: Seq<u8>, seeds: Seq<Seq<u8>>, program: Seq<u8>) -> Option<
    (Seq<u8>, u8),
> {
    pda_found(tagged_seeds(tag, seeds), program)
}

/// Derives the custody address for a namespace tag and a list of seed values:
/// the unique discriminant (searched from 255 downward) for which the derived
/// address is non-spendable, together with that address. Deterministic: the
/// result is a function of `tag`, `seeds` and `program` alone. Returns `None`
/// when no discriminant in range works, a fatal configuration error.
pub fn derive(tag: &Vec<u8>, seeds: &Vec<Vec<u8>>, program: &Address) -> (r: Option<(Address, u8)>)
    ensures
        r is Some <==> spec_derive(tag@, seeds_view(seeds@), program@) is Some,
        r is Some ==> {
            let (a, b) = spec_derive(tag@, seeds_view(seeds@), program@).unwrap();
            r.unwrap().0@ == a && r.unwrap().1 == b
        },
{
    let mut full: Vec<Vec<u8>> = Vec::new();
    full.push(tag.clone());
    let mut i: usize = 0;
    while i < seeds.len()
        invariant
            0 <= i <= seeds@.len(),
            full@.len() == 1 + i,
            full@[0]@ == tag@,
            forall|j: int| 0 <= j < i ==> full@[j + 1]@ == seeds@[j]@,
        decreases seeds@.len() - i,
    {
        full.push(seeds[i].clone());
        i = i + 1;
    }
    proof {
        assert(seeds_view(full@) =~= tagged_seeds(tag@, seeds_view(seeds@)));
    }
    find_pda(&full, program)
}

/// Recomputes a derived address from its recorded discriminant and compares it
/// with the address supplied by the caller: the address re-derivation check of
/// the authorization gate. Returns true exactly when the seeds extended with
/// the discriminant derive to `supplied`.
pub fn check_derived(
    tag: &Vec<u8>,
    seeds: &Vec<Vec<u8>>,
    bump: u8,
    program: &Address,
    supplied: &Address,
) -> (r: bool)
    ensures
        r <==> spec_check_derived(tag@, seeds_view(seeds@), bump, program@, supplied@),
{
    let mut full: Vec<Vec<u8>> = Vec::new();
    full.push(tag.clone());
    let mut i: usize = 0;
    while i < seeds.len()
        invariant
            0 <= i <= seeds@.len(),
            full@.len() == 1 + i,
            full@[0]@ == tag@,
            forall|j: int| 0 <= j < i ==> full@[j + 1]@ == seeds@[j]@,
        decreases seeds@.len() - i,
    {
        full.push(seeds[i].clone());
        i = i + 1;
    }
    let mut bump_seed: Vec<u8> = Vec::new();
    bump_seed.push(bump);
    full.push(bump_seed);
    proof {
        assert(seeds_view(full@) =~= tagged_seeds(tag@, seeds_view(seeds@)).push(seq![bump]));
    }
    match create_pda(&full, program) {
        Some(a) => a == *supplied,
        None => false,
    }
}

/// Whether the seeds `tag :: seeds`, extended with the discriminant `bump`,
/// re-derive exactly to the address `supplied`.
pub open spec fn spec_check_derived(
    tag: Seq<u8>,
    seeds: Seq<Seq<u8>>,
    bump: u8,
    program: Seq<u8>,
    supplied: Seq<u8>,
) -> bool {
    pda_created(tagged_seeds(tag, seeds).push(seq![bump]), program) == Some(supplied)
}

/// The bytes of an address, for use as a derivation seed.
pub fn addr_seed(a: &Address) -> (v: Vec<u8>)
    ensures
        v@ == a@,
{
    vstd::slice::slice_to_vec(a.bytes.as_slice())
}

/// The little-endian byte representation of a 64-bit seed value.
pub open spec fn u64_le_seq(x: u64) -> Seq<u8> {
    seq![
        (x & 0xff) as u8,
        ((x >> 8) & 0xff) as u8,
        ((x >> 16) & 0xff) as u8,
        ((x >> 24) & 0xff) as u8,
        ((x >> 32) & 0xff) as u8,
        ((x >> 40) & 0xff) as u8,
        ((x >> 48) & 0xff) as u8,
        ((x >> 56) & 0xff) as u8,
    ]
}

/// Relies on `u64::to_le_bytes`: the memory representation of the value as
/// bytes in little-endian order.
#[verifier::external_body]
pub fn u64_le_bytes(x: u64) -> (r: Vec<u8>)
    ensures
        r@ == u64_le_seq(x),
{
    x.to_le_bytes().to_vec()
}

/// The namespace tag of an authority address chained off a state record.
pub open spec fn auth_tag() -> Seq<u8> {
    seq![97u8, 117u8, 116u8, 104u8]
}

/// The tag `auth` as seed bytes.
pub fn auth_tag_vec() -> (v: Vec<u8>)
    ensures
        v@ == auth_tag(),
{
    let v: Vec<u8> = vec![97, 117, 116, 104];
    proof {
        assert(v@ =~= auth_tag());
    }
    v
}

/// The namespace tag of a custody vault address.
pub open spec fn vault_tag() -> Seq<u8> {
    seq![118u8, 97u8, 117u8, 108u8, 116u8]
}

/// The tag `vault` as seed bytes.
pub fn vault_tag_vec() -> (v: Vec<u8>)
    ensures
        v@ == vault_tag(),
{
    let v: Vec<u8> = vec![118, 97, 117, 108, 116];
    proof {
        assert(v@ =~= vault_tag());
    }
    v
}

/// The namespace tag of an escrow record address.
pub open spec fn escrow_tag() -> Seq<u8> {
    seq![101u8, 115u8, 99u8, 114u8, 111u8, 119u8]
}

/// The tag `escrow` as seed bytes.
pub fn escrow_tag_vec() -> (v: Vec<u8>)
    ensures
        v@ == escrow_tag(),
{
    let v: Vec<u8> = vec![101, 115, 99, 114, 111, 119];
    proof {
        assert(v@ =~= escrow_tag());
    }
    v
}

/// The namespace tag of the token-escrow vault authority.
pub open spec fn authority_tag() -> Seq<u8> {
    seq![97u8, 117u8, 116u8, 104u8, 111u8, 114u8, 105u8, 116u8, 121u8]
}

/// The tag `authority` as seed bytes.
pub fn authority_tag_vec() -> (v: Vec<u8>)
    ensures
        v@ == authority_tag(),
{
    let v: Vec<u8> = vec![97, 117, 116, 104, 111, 114, 105, 116, 121];
    proof {
        assert(v@ =~= authority_tag());
    }
    v
}

/// The namespace tag of the token-escrow state record address.
pub open spec fn state_tag() -> Seq<u8> {
    seq![115u8, 116u8, 97u8, 116u8, 101u8]
}

/// The tag `state` as seed bytes.
pub fn state_tag_vec() -> (v: Vec<u8>)
    ensures
        v@ == state_tag(),
{
    let v: Vec<u8> = vec![115, 116, 97, 116, 101];
    proof {
        assert(v@ =~= state_tag());
    }
    v
}

/// Determinism of derivation: any two results that `derive` can return for the
/// same tag, seed list and program id are identical.
pub proof fn lemma_derive_deterministic(
    tag: Seq<u8>,
    seeds: Seq<Seq<u8>>,
    program: Seq<u8>,
    r1: Option<(Seq<u8>, u8)>,
    r2: Option<(Seq<u8>, u8)>,
)
    requires
        r1 == spec_derive(tag, seeds, program),
        r2 == spec_derive(tag, seeds, program),
    ensures
        r1 == r2,
{
}

} // verus!
