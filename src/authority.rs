//! The keyless authority that controls the fee pool and the mint.
//!
//! Its address is derived from `("withheld", mint)` and a one-byte bump; the signer
//! seeds `[b"withheld", mint, [bump]]` are the proof that a settlement presents.
use vstd::prelude::*;

verus! {

/// Domain tag of the withdraw authority: the bytes of `"withheld"`.
pub open spec fn withheld_tag() -> Seq<u8> {
    seq![119u8, 105u8, 116u8, 104u8, 104u8, 101u8, 108u8, 100u8]
}

/// The signer seeds of the authority for `mint` with the given bump.
pub open spec fn withheld_seeds_of(mint: Seq<u8>, bump: u8) -> Seq<Seq<u8>> {
    seq![withheld_tag(), mint, seq![bump]]
}

/// The program-derived address of `seeds` under `program_id`, or `None` where the
/// seeds give a point on the curve (or break the seed limits).
pub uninterp spec fn program_address_of(seeds: Seq<Seq<u8>>, program_id: Seq<u8>) -> Option<
    Seq<u8>,
>;

/// The address the authority has when derived with `bump`.
pub open spec fn authority_at(mint: Seq<u8>, program_id: Seq<u8>, bump: u8) -> Option<Seq<u8>> {
    program_address_of(withheld_seeds_of(mint, bump), program_id)
}

/// `bump` is the smallest bump for which the derivation gives an address.
pub open spec fn is_first_bump(mint: Seq<u8>, program_id: Seq<u8>, bump: u8) -> bool {
    &&& authority_at(mint, program_id, bump) is Some
    &&& forall|b: u8| b < bump ==> (#[trigger] authority_at(mint, program_id, b)) is None
}

/// Relies on `Pubkey::create_program_address` (solana-program): hashes the seeds, the
/// program id and the PDA marker, and returns the hash unless it lies on the ed25519
/// curve or a seed limit is broken. The result depends on its arguments alone.
#[verifier::external_body]
fn create_program_address(seeds: &Vec<Vec<u8>>, program_id: &[u8; 32]) -> (r: Option<[u8; 32]>)
    ensures
        r is Some <==> program_address_of(seeds.deep_view(), program_id@) is Some,
        r matches Some(a) ==> program_address_of(seeds.deep_view(), program_id@) == Some(a@),
{
    let slices: Vec<&[u8]> = seeds.iter().map(|s| s.as_slice()).collect();
    let id = anchor_lang::prelude::Pubkey::new_from_array(*program_id);
    match anchor_lang::prelude::Pubkey::create_program_address(&slices, &id) {
        Ok(address) => Some(address.to_bytes()),
        Err(_) => None,
    }
}

/// Byte-wise equality of two addresses.
pub fn same_address(a: &[u8; 32], b: &[u8; 32]) -> (r: bool)
    ensures
        r == (a@ == b@),
{
    let mut i: usize = 0;
    while i < 32
        invariant
            0 <= i <= 32,
            a@.len() == 32,
            b@.len() == 32,
            forall|j: int| 0 <= j < i ==> a@[j] == b@[j],
        decreases 32 - i,
    {
        if a[i] != b[i] {
            return false;
        }
        i = i + 1;
    }
    assert(a@ =~= b@);
    true
}

/// The signer seeds `[b"withheld", mint, [bump]]`.
pub fn withheld_seeds(mint: &[u8; 32], bump: u8) -> (r: Vec<Vec<u8>>)
    ensures
        r.deep_view() == withheld_seeds_of(mint@, bump),
{
    // "withheld"
    let tag: Vec<u8> = vec![119u8, 105u8, 116u8, 104u8, 104u8, 101u8, 108u8, 100u8];
    let mut key: Vec<u8> = Vec::new();
    let mut i: usize = 0;
    while i < 32
        invariant
            0 <= i <= 32,
            mint@.len() == 32,
            key@ == mint@.subrange(0, i as int),
        decreases 32 - i,
    {
        key.push(mint[i]);
        i = i + 1;
    }
    assert(key@ =~= mint@);
    let bump_seed: Vec<u8> = vec![bump];
    assert(tag.deep_view() =~= withheld_tag());
    assert(key.deep_view() =~= mint@);
    assert(bump_seed.deep_view() =~= seq![bump]);
    let r: Vec<Vec<u8>> = vec![tag, key, bump_seed];
    assert(r.deep_view() =~= withheld_seeds_of(mint@, bump));
    r
}

/// Derives the authority of `mint` under `program_id`: the address and the smallest bump
/// for which the derivation succeeds, or `None` when no bump does.
pub fn derive_withdraw_authority(mint: &[u8; 32], program_id: &[u8; 32]) -> (r: Option<
    ([u8; 32], u8),
>)
    ensures
        r matches Some((address, bump)) ==> is_first_bump(mint@, program_id@, bump)
            && authority_at(mint@, program_id@, bump) == Some(address@),
        r is None ==> forall|b: u8| (#[trigger] authority_at(mint@, program_id@, b)) is None,
{
    let mut bump: u16 = 0;
    while bump < 256
        invariant
            0 <= bump <= 256,
            forall|b: u8| b < bump ==> (#[trigger] authority_at(mint@, program_id@, b)) is None,
        decreases 256 - bump,
    {
        let seeds = withheld_seeds(mint, bump as u8);
        match create_program_address(&seeds, program_id) {
            Some(address) => {
                return Some((address, bump as u8));
            },
            None => {},
        }
        bump = bump + 1;
    }
    None
}

/// Proof of the authority's signature: the mint and the bump that rebuild its seeds.
#[derive(Clone, Copy, Debug)]
pub struct AuthorityProof {
    pub mint: [u8; 32],
    pub bump: u8,
}

/// The proof derives `authority` under `program_id`.
pub open spec fn proves(proof: AuthorityProof, program_id: Seq<u8>, authority: Seq<u8>) -> bool {
    authority_at(proof.mint@, program_id, proof.bump) == Some(authority)
}

impl AuthorityProof {
    /// The signer seeds this proof stands for.
    pub fn signer_seeds(&self) -> (r: Vec<Vec<u8>>)
        ensures
            r.deep_view() == withheld_seeds_of(self.mint@, self.bump),
    {
        withheld_seeds(&self.mint, self.bump)
    }

    /// Rebuilds the address from the seeds and compares it with `authority`, as the
    /// token program does before it accepts a signed instruction.
    pub fn authorizes(&self, program_id: &[u8; 32], authority: &[u8; 32]) -> (r: bool)
        ensures
            r == proves(*self, program_id@, authority@),
    {
        let seeds = self.signer_seeds();
        match create_program_address(&seeds, program_id) {
            Some(address) => same_address(&address, authority),
            None => false,
        }
    }
}

} // verus!
