//! The write-once record of the bump found for each authority role.
use vstd::prelude::*;
use crate::error::VaultError;

verus! {

/// The derived roles of a vault: the address that holds the funds, and the
/// address that signs for them.
#[derive(Clone, Copy, Debug, PartialEq, Eq, Structural)]
pub enum AuthorityRole {
    Vault,
    Authority,
}

/// Bumps cached per role. A role's bump is set at most once.
#[derive(Debug)]
pub struct AuthorityCache {
    vault: Option<u8>,
    authority: Option<u8>,
}

impl View for AuthorityCache {
    type V = Map<AuthorityRole, u8>;

    closed spec fn view(&self) -> Map<AuthorityRole, u8> {
        let with_vault = match self.vault {
            Some(b) => Map::empty().insert(AuthorityRole::Vault, b),
            None => Map::empty(),
        };
        match self.authority {
            Some(b) => with_vault.insert(AuthorityRole::Authority, b),
            None => with_vault,
        }
    }
}

/// The bump cached for a role, if any.
pub open spec fn cached_bump(cache: Map<AuthorityRole, u8>, role: AuthorityRole) -> Option<u8> {
    if cache.contains_key(role) {
        Some(cache[role])
    } else {
        None
    }
}

/// What `AuthorityCache::set` does: a first write stores the bump, any later
/// one is refused and changes nothing.
pub open spec fn set_post(
    before: Map<AuthorityRole, u8>,
    role: AuthorityRole,
    bump: u8,
    after: Map<AuthorityRole, u8>,
    r: Result<(), VaultError>,
) -> bool {
    if before.contains_key(role) {
        r == Err::<(), VaultError>(VaultError::BumpAlreadyCached) && after == before
    } else {
        r == Ok::<(), VaultError>(()) && after == before.insert(role, bump)
    }
}

impl AuthorityCache {
    /// A cache that holds no bump.
    pub fn new() -> (r: AuthorityCache)
        ensures
            r@ == Map::<AuthorityRole, u8>::empty(),
    {
        let r = AuthorityCache { vault: None, authority: None };
        assert(r@ =~= Map::<AuthorityRole, u8>::empty());
        r
    }

    /// The bump cached for the role, if any.
    pub fn get(&self, role: AuthorityRole) -> (r: Option<u8>)
        ensures
            r == cached_bump(self@, role),
    {
        match role {
            AuthorityRole::Vault => self.vault,
            AuthorityRole::Authority => self.authority,
        }
    }

    /// Caches the bump for the role, unless one is cached already.
    pub fn set(&mut self, role: AuthorityRole, bump: u8) -> (r: Result<(), VaultError>)
        ensures
            set_post(old(self)@, role, bump, final(self)@, r),
    {
        match role {
            AuthorityRole::Vault => {
                if self.vault.is_some() {
                    return Err(VaultError::BumpAlreadyCached);
                }
                self.vault = Some(bump);
            },
            AuthorityRole::Authority => {
                if self.authority.is_some() {
                    return Err(VaultError::BumpAlreadyCached);
                }
                self.authority = Some(bump);
            },
        }
        assert(self@ =~= old(self)@.insert(role, bump));
        Ok(())
    }
}

/// A second `set` on a role is refused with `BumpAlreadyCached` and leaves
/// the cache, and so the first bump, as it was.
pub proof fn lemma_second_set_refused(
    c0: Map<AuthorityRole, u8>,
    c1: Map<AuthorityRole, u8>,
    c2: Map<AuthorityRole, u8>,
    role: AuthorityRole,
    first: u8,
    second: u8,
    r1: Result<(), VaultError>,
    r2: Result<(), VaultError>,
)
    requires
        set_post(c0, role, first, c1, r1),
        set_post(c1, role, second, c2, r2),
    ensures
        r2 == Err::<(), VaultError>(VaultError::BumpAlreadyCached),
        c2 == c1,
        cached_bump(c2, role) == cached_bump(c1, role),
        r1 is Ok ==> cached_bump(c2, role) == Some(first),
{
}

} // verus!
