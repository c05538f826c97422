//! Program-derived addresses: the address for seeds and a bump, and the
//! search for the canonical bump, the highest one whose address lies off the
//! ed25519 curve.
use vstd::prelude::*;
use anchor_lang::solana_program::pubkey::{Pubkey, PubkeyError};
use crate::error::VaultError;

verus! {

/// The most seeds, the bump included, that one derivation takes.
pub const MAX_SEEDS: usize = 16;

/// The longest single seed, in bytes.
pub const MAX_SEED_LEN: usize = 32;

#[verifier::external_type_specification]
#[verifier::external_body]
pub struct ExPubkeyError(PubkeyError);

/// The address that the runtime's derivation gives for seeds (bump included)
/// and a program id, `None` where the hash lies on the curve.
pub uninterp spec fn program_address_of(seeds: Seq<Seq<u8>>, program_id: Seq<u8>) -> Option<Seq<u8>>;

/// Whether 32 bytes decode to a point of the ed25519 curve, that is whether
/// they could be a public key with a private key behind it.
pub uninterp spec fn is_curve_point(bytes: Seq<u8>) -> bool;

/// The byte strings that a list of seeds holds.
pub open spec fn seeds_view(seeds: Seq<Vec<u8>>) -> Seq<Seq<u8>> {
    seeds.map_values(|s: Vec<u8>| s@)
}

/// Whether the runtime accepts seeds for derivation.
pub open spec fn seeds_within_limits(seeds: Seq<Seq<u8>>) -> bool {
    &&& seeds.len() <= MAX_SEEDS
    &&& forall|i: int| 0 <= i < seeds.len() ==> #[trigger] seeds[i].len() <= MAX_SEED_LEN
}

/// The seeds followed by the one-byte bump seed.
pub open spec fn with_bump(seeds: Seq<Seq<u8>>, bump: u8) -> Seq<Seq<u8>> {
    seeds.push(seq![bump])
}

/// The derived address for seeds and a bump, if that bump is valid.
pub open spec fn derived_address(seeds: Seq<Seq<u8>>, bump: u8, program_id: Seq<u8>) -> Option<Seq<u8>> {
    if seeds_within_limits(with_bump(seeds, bump)) {
        program_address_of(with_bump(seeds, bump), program_id)
    } else {
        None
    }
}

/// The highest valid bump below `n`.
pub open spec fn highest_valid_bump_below(seeds: Seq<Seq<u8>>, program_id: Seq<u8>, n: nat) -> Option<u8>
    decreases n,
{
    if n == 0 {
        None
    } else if derived_address(seeds, (n - 1) as u8, program_id) is Some {
        Some((n - 1) as u8)
    } else {
        highest_valid_bump_below(seeds, program_id, (n - 1) as nat)
    }
}

/// The canonical bump: the highest valid one in `0..=255`.
pub open spec fn canonical_bump(seeds: Seq<Seq<u8>>, program_id: Seq<u8>) -> Option<u8> {
    highest_valid_bump_below(seeds, program_id, 256)
}

/// A derived address with the seeds and the bump that regenerate it.
#[derive(Debug)]
pub struct DerivedAddress {
    pub seeds: Vec<Vec<u8>>,
    pub nonce: u8,
    pub address: [u8; 32],
}

/// What `find_canonical_nonce` returns for seeds and a program id.
pub open spec fn find_canonical_nonce_post(
    seeds: Seq<Seq<u8>>,
    program_id: Seq<u8>,
    r: Result<DerivedAddress, VaultError>,
) -> bool {
    match canonical_bump(seeds, program_id) {
        Some(b) => r matches Ok(d) && d.nonce == b && seeds_view(d.seeds@) == seeds
            && derived_address(seeds, b, program_id) == Some(d.address@)
            && !is_curve_point(d.address@),
        None => r matches Err(e) && e == VaultError::NoValidNonceFound,
    }
}

/// Relies on `Pubkey::create_program_address`: for seeds within the limits
/// it hashes the seeds with the program id, and returns the hash unless
/// `bytes_are_curve_point` holds of it.
#[verifier::external_body]
fn create_program_address(seeds: &Vec<Vec<u8>>, program_id: &[u8; 32]) -> (r: Result<[u8; 32], PubkeyError>)
    requires
        seeds_within_limits(seeds_view(seeds@)),
    ensures
        match r {
            Ok(a) => program_address_of(seeds_view(seeds@), program_id@) == Some(a@),
            Err(_) => program_address_of(seeds_view(seeds@), program_id@) is None,
        },
        r matches Ok(a) ==> !is_curve_point(a@),
{
    let refs: Vec<&[u8]> = seeds.iter().map(|s| s.as_slice()).collect();
    Pubkey::create_program_address(&refs, &Pubkey::new_from_array(*program_id)).map(|k| k.to_bytes())
}

/// Whether the runtime accepts the seeds: at most `MAX_SEEDS` of them, none
/// longer than `MAX_SEED_LEN` bytes.
pub fn seeds_fit(seeds: &Vec<Vec<u8>>) -> (r: bool)
    ensures
        r == seeds_within_limits(seeds_view(seeds@)),
{
    if seeds.len() > MAX_SEEDS {
        return false;
    }
    let mut i: usize = 0;
    while i < seeds.len()
        invariant
            i <= seeds@.len(),
            forall|j: int| 0 <= j < i ==> #[trigger] seeds@[j]@.len() <= MAX_SEED_LEN,
        decreases seeds@.len() - i,
    {
        if seeds[i].len() > MAX_SEED_LEN {
            assert(seeds_view(seeds@)[i as int].len() > MAX_SEED_LEN);
            return false;
        }
        i = i + 1;
    }
    assert forall|j: int| 0 <= j < seeds_view(seeds@).len() implies #[trigger] seeds_view(seeds@)[j].len() <= MAX_SEED_LEN by {
        assert(seeds@[j]@.len() <= MAX_SEED_LEN);
    }
    true
}

/// A copy of the bytes.
pub fn copy_bytes(b: &Vec<u8>) -> (r: Vec<u8>)
    ensures
        r@ == b@,
{
    let mut r: Vec<u8> = Vec::new();
    let mut i: usize = 0;
    while i < b.len()
        invariant
            i <= b@.len(),
            r@ == b@.subrange(0, i as int),
        decreases b@.len() - i,
    {
        r.push(b[i]);
        i = i + 1;
    }
    assert(r@ =~= b@);
    r
}

/// A copy of the seeds.
pub fn copy_seeds(seeds: &Vec<Vec<u8>>) -> (r: Vec<Vec<u8>>)
    ensures
        seeds_view(r@) == seeds_view(seeds@),
{
    let mut r: Vec<Vec<u8>> = Vec::new();
    let mut i: usize = 0;
    while i < seeds.len()
        invariant
            i <= seeds@.len(),
            r@.len() == i,
            forall|j: int| 0 <= j < i ==> #[trigger] r@[j]@ == seeds@[j]@,
        decreases seeds@.len() - i,
    {
        let s = copy_bytes(&seeds[i]);
        r.push(s);
        i = i + 1;
    }
    assert(seeds_view(r@) =~= seeds_view(seeds@));
    r
}

/// The address derived from the seeds and the bump, or `None` where that
/// bump gives no valid address (the hash lies on the curve, or the seeds
/// exceed the runtime's limits).
pub fn derive_address(seeds: &Vec<Vec<u8>>, bump: u8, program_id: &[u8; 32]) -> (r: Option<[u8; 32]>)
    ensures
        match r {
            Some(a) => derived_address(seeds_view(seeds@), bump, program_id@) == Some(a@)
                && !is_curve_point(a@),
            None => derived_address(seeds_view(seeds@), bump, program_id@) is None,
        },
{
    let mut full = copy_seeds(seeds);
    let last: Vec<u8> = vec![bump];
    assert(last@ =~= seq![bump]);
    full.push(last);
    assert(seeds_view(full@) =~= with_bump(seeds_view(seeds@), bump));
    if !seeds_fit(&full) {
        return None;
    }
    match create_program_address(&full, program_id) {
        Ok(a) => Some(a),
        Err(_) => None,
    }
}

/// Finds the canonical bump for the seeds: tries 255, 254, ... down to 0 and
/// returns the first that gives a valid address, with that address.
pub fn find_canonical_nonce(seeds: &Vec<Vec<u8>>, program_id: &[u8; 32]) -> (r: Result<DerivedAddress, VaultError>)
    ensures
        find_canonical_nonce_post(seeds_view(seeds@), program_id@, r),
{
    let mut n: u16 = 256;
    while n > 0
        invariant
            n <= 256,
            canonical_bump(seeds_view(seeds@), program_id@)
                == highest_valid_bump_below(seeds_view(seeds@), program_id@, n as nat),
        decreases n,
    {
        let bump = (n - 1) as u8;
        match derive_address(seeds, bump, program_id) {
            Some(address) => {
                return Ok(DerivedAddress { seeds: copy_seeds(seeds), nonce: bump, address });
            },
            None => {},
        }
        n = n - 1;
    }
    Err(VaultError::NoValidNonceFound)
}

/// What `highest_valid_bump_below` returns: the highest bump under `n` that
/// gives an address, with none between it and `n`.
proof fn lemma_highest_valid_bump_below(seeds: Seq<Seq<u8>>, program_id: Seq<u8>, n: nat)
    requires
        n <= 256,
    ensures
        match highest_valid_bump_below(seeds, program_id, n) {
            Some(b) => b < n && derived_address(seeds, b, program_id) is Some && forall|k: int|
                b < k < n ==> #[trigger] derived_address(seeds, k as u8, program_id) is None,
            None => forall|k: int|
                0 <= k < n ==> #[trigger] derived_address(seeds, k as u8, program_id) is None,
        },
    decreases n,
{
    if n > 0 {
        lemma_highest_valid_bump_below(seeds, program_id, (n - 1) as nat);
    }
}

/// The canonical bump is the highest valid one: every bump above it gives
/// no address, and where there is none, no bump at all gives one.
pub proof fn lemma_canonical_is_highest(seeds: Seq<Seq<u8>>, program_id: Seq<u8>)
    ensures
        match canonical_bump(seeds, program_id) {
            Some(b) => derived_address(seeds, b, program_id) is Some && forall|k: u8|
                b < k ==> #[trigger] derived_address(seeds, k, program_id) is None,
            None => forall|k: u8| #[trigger] derived_address(seeds, k, program_id) is None,
        },
{
    lemma_highest_valid_bump_below(seeds, program_id, 256);
    match canonical_bump(seeds, program_id) {
        Some(b) => {
            assert forall|k: u8| b < k implies #[trigger] derived_address(seeds, k, program_id) is None by {
                assert(derived_address(seeds, (k as int) as u8, program_id) is None);
            }
        },
        None => {
            assert forall|k: u8| #[trigger] derived_address(seeds, k, program_id) is None by {
                assert(derived_address(seeds, (k as int) as u8, program_id) is None);
            }
        },
    }
}

/// The bump search is deterministic: any two results that it may give for
/// the same seeds and program id carry the same seeds, bump and address, or
/// the same error.
pub proof fn lemma_find_canonical_nonce_deterministic(
    seeds: Seq<Seq<u8>>,
    program_id: Seq<u8>,
    first: Result<DerivedAddress, VaultError>,
    second: Result<DerivedAddress, VaultError>,
)
    requires
        find_canonical_nonce_post(seeds, program_id, first),
        find_canonical_nonce_post(seeds, program_id, second),
    ensures
        match first {
            Ok(d1) => second matches Ok(d2) && d1.nonce == d2.nonce && d1.address@ == d2.address@
                && seeds_view(d1.seeds@) == seeds_view(d2.seeds@),
            Err(e1) => second matches Err(e2) && e1 == e2,
        },
{
}

/// An address that the bump search finds is never a point of the curve, so
/// no private key signs for it.
pub proof fn lemma_found_address_off_curve(
    seeds: Seq<Seq<u8>>,
    program_id: Seq<u8>,
    found: Result<DerivedAddress, VaultError>,
)
    requires
        find_canonical_nonce_post(seeds, program_id, found),
    ensures
        found matches Ok(d) ==> !is_curve_point(d.address@),
{
}

} // verus!
