//! A single derived account keyed by its user: its canonical bump is found
//! once and kept in the account's own data.
use vstd::prelude::*;
use crate::address::{canonical_bump, derived_address, find_canonical_nonce, is_curve_point, seeds_view, DerivedAddress};
use crate::error::VaultError;
use crate::vault::address_bytes;

verus! {

/// The fixed seed of the account: `"my-seed"` in ASCII.
pub open spec fn my_seed_label() -> Seq<u8> {
    seq![109u8, 121u8, 45u8, 115u8, 101u8, 101u8, 100u8]
}

/// The seeds of the account of `user`.
pub open spec fn my_pda_seeds(user: Seq<u8>) -> Seq<Seq<u8>> {
    seq![my_seed_label(), user]
}

/// The data of the derived account: the bump that derives it.
#[derive(Clone, Copy, Debug, PartialEq, Eq, Structural)]
pub struct MyPdaAccount {
    pub bump: u8,
}

/// What initialization sets up: the account's address with the evidence
/// that derives it, and the data written into it.
#[derive(Debug)]
pub struct Initialize {
    pub user: [u8; 32],
    pub my_pda_account: DerivedAddress,
    pub data: MyPdaAccount,
}

/// Derives the account of `user` at its canonical bump and records that
/// bump in the account's data.
pub fn initialize(user: &[u8; 32], program_id: &[u8; 32]) -> (r: Result<Initialize, VaultError>)
    ensures
        match canonical_bump(my_pda_seeds(user@), program_id@) {
            Some(b) => r matches Ok(init) && init.user == *user && init.data.bump == b
                && init.my_pda_account.nonce == b
                && derived_address(my_pda_seeds(user@), b, program_id@) == Some(init.my_pda_account.address@)
                && seeds_view(init.my_pda_account.seeds@) == my_pda_seeds(user@)
                && !is_curve_point(init.my_pda_account.address@),
            None => r matches Err(e) && e == VaultError::NoValidNonceFound,
        },
{
    let label: Vec<u8> = vec![109u8, 121u8, 45u8, 115u8, 101u8, 101u8, 100u8];
    assert(label@ =~= my_seed_label());
    let mut seeds: Vec<Vec<u8>> = Vec::new();
    seeds.push(label);
    seeds.push(address_bytes(user));
    assert(seeds_view(seeds@) =~= my_pda_seeds(user@));
    match find_canonical_nonce(&seeds, program_id) {
        Ok(pda) => {
            let data = MyPdaAccount { bump: pda.nonce };
            Ok(Initialize { user: *user, my_pda_account: pda, data })
        },
        Err(e) => Err(e),
    }
}

} // verus!
