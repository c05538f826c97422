//! Resolution of derived authorities to the evidence that lets the program
//! sign for them: the cached bump where there is one, the canonical search
//! otherwise.
use vstd::prelude::*;
use crate::cache::{cached_bump, AuthorityCache, AuthorityRole};
use crate::address::{
    canonical_bump, copy_seeds, derive_address, derived_address, find_canonical_nonce, is_curve_point,
    seeds_view, DerivedAddress,
};
use crate::error::VaultError;

verus! {

/// The bump and address that a role with these seeds resolves to, or `None`
/// where no valid address comes out.
pub open spec fn resolved(
    cache: Map<AuthorityRole, u8>,
    role: AuthorityRole,
    seeds: Seq<Seq<u8>>,
    program_id: Seq<u8>,
) -> Option<(u8, Seq<u8>)> {
    match cached_bump(cache, role) {
        Some(b) => match derived_address(seeds, b, program_id) {
            Some(a) => Some((b, a)),
            None => None,
        },
        None => match canonical_bump(seeds, program_id) {
            Some(b) => Some((b, derived_address(seeds, b, program_id).unwrap())),
            None => None,
        },
    }
}

/// Whether `d` is the evidence that `resolved` gives.
pub open spec fn is_resolution(
    cache: Map<AuthorityRole, u8>,
    role: AuthorityRole,
    seeds: Seq<Seq<u8>>,
    program_id: Seq<u8>,
    d: DerivedAddress,
) -> bool {
    &&& resolved(cache, role, seeds, program_id) == Some((d.nonce, d.address@))
    &&& seeds_view(d.seeds@) == seeds
    &&& !is_curve_point(d.address@)
}

/// Resolves one role: re-derives the address from the cached bump, or
/// searches the canonical bump where none is cached.
pub fn resolve_authority(
    cache: &AuthorityCache,
    role: AuthorityRole,
    seeds: &Vec<Vec<u8>>,
    program_id: &[u8; 32],
) -> (r: Result<DerivedAddress, VaultError>)
    ensures
        match r {
            Ok(d) => is_resolution(cache@, role, seeds_view(seeds@), program_id@, d),
            Err(e) => e == VaultError::NoValidNonceFound
                && resolved(cache@, role, seeds_view(seeds@), program_id@) is None,
        },
{
    match cache.get(role) {
        Some(bump) => match derive_address(seeds, bump, program_id) {
            Some(address) => Ok(DerivedAddress { seeds: copy_seeds(seeds), nonce: bump, address }),
            None => Err(VaultError::NoValidNonceFound),
        },
        None => find_canonical_nonce(seeds, program_id),
    }
}

/// Resolves each `(role, seeds)` request, in the order given, into the
/// evidence for one co-signing derived authority. Fails as a whole where
/// any request cannot be resolved.
pub fn resolve_authorities(
    cache: &AuthorityCache,
    requests: &Vec<(AuthorityRole, Vec<Vec<u8>>)>,
    program_id: &[u8; 32],
) -> (r: Result<Vec<DerivedAddress>, VaultError>)
    ensures
        match r {
            Ok(v) => v@.len() == requests@.len() && forall|i: int|
                0 <= i < v@.len() ==> is_resolution(
                    cache@,
                    requests@[i].0,
                    seeds_view(requests@[i].1@),
                    program_id@,
                    #[trigger] v@[i],
                ),
            Err(e) => e == VaultError::NoValidNonceFound && exists|i: int|
                0 <= i < requests@.len() && #[trigger] resolved(
                    cache@,
                    requests@[i].0,
                    seeds_view(requests@[i].1@),
                    program_id@,
                ) is None,
        },
{
    let mut out: Vec<DerivedAddress> = Vec::new();
    let mut i: usize = 0;
    while i < requests.len()
        invariant
            i <= requests@.len(),
            out@.len() == i,
            forall|j: int|
                0 <= j < i ==> is_resolution(
                    cache@,
                    requests@[j].0,
                    seeds_view(requests@[j].1@),
                    program_id@,
                    #[trigger] out@[j],
                ),
        decreases requests@.len() - i,
    {
        let request = &requests[i];
        match resolve_authority(cache, request.0, &request.1, program_id) {
            Ok(d) => out.push(d),
            Err(e) => return Err(e),
        }
        i = i + 1;
    }
    Ok(out)
}

} // verus!
