//! The vault: its persisted record, and the decisions of initialize, deposit,
//! withdraw and the multi-authority operation. The host runtime performs the
//! token transfers that these decisions describe and reports their outcome.
use vstd::prelude::*;
use crate::address::{
    canonical_bump, derived_address, find_canonical_nonce, find_canonical_nonce_post, is_curve_point,
    seeds_view, DerivedAddress,
};
use crate::cache::{cached_bump, AuthorityCache, AuthorityRole};
use crate::coordinator::{is_resolution, resolve_authorities, resolve_authority, resolved};
use crate::error::{TransferError, VaultError};

verus! {

/// The seed that names a role: `"vault"` or `"authority"` in ASCII.
pub open spec fn role_label(role: AuthorityRole) -> Seq<u8> {
    match role {
        AuthorityRole::Vault => seq![118u8, 97u8, 117u8, 108u8, 116u8],
        AuthorityRole::Authority => seq![97u8, 117u8, 116u8, 104u8, 111u8, 114u8, 105u8, 116u8, 121u8],
    }
}

/// The seeds of a role's address: its label, then the vault record's own
/// address, which keeps the addresses of different vaults apart.
pub open spec fn role_seeds(role: AuthorityRole, state_address: Seq<u8>) -> Seq<Seq<u8>> {
    seq![role_label(role), state_address]
}

/// The label seed of a role.
pub fn role_label_bytes(role: AuthorityRole) -> (r: Vec<u8>)
    ensures
        r@ == role_label(role),
{
    match role {
        AuthorityRole::Vault => {
            let r: Vec<u8> = vec![118u8, 97u8, 117u8, 108u8, 116u8];
            assert(r@ =~= role_label(role));
            r
        },
        AuthorityRole::Authority => {
            let r: Vec<u8> = vec![97u8, 117u8, 116u8, 104u8, 111u8, 114u8, 105u8, 116u8, 121u8];
            assert(r@ =~= role_label(role));
            r
        },
    }
}

/// The bytes of an address, as a seed.
pub fn address_bytes(a: &[u8; 32]) -> (r: Vec<u8>)
    ensures
        r@ == a@,
{
    let mut r: Vec<u8> = Vec::new();
    let mut i: usize = 0;
    while i < 32
        invariant
            i <= 32,
            a@.len() == 32,
            r@ == a@.subrange(0, i as int),
        decreases 32 - i,
    {
        r.push(a[i]);
        i = i + 1;
    }
    assert(r@ =~= a@);
    r
}

/// The seeds of a role's address for the vault record at `state_address`.
pub fn role_seed_list(role: AuthorityRole, state_address: &[u8; 32]) -> (r: Vec<Vec<u8>>)
    ensures
        seeds_view(r@) == role_seeds(role, state_address@),
{
    let mut r: Vec<Vec<u8>> = Vec::new();
    r.push(role_label_bytes(role));
    r.push(address_bytes(state_address));
    assert(seeds_view(r@) =~= role_seeds(role, state_address@));
    r
}

/// The persisted vault record: what was deposited and withdrawn over its
/// life, and the bumps of its two derived roles, cached once.
#[derive(Debug)]
pub struct StateAccount {
    total_deposited: u64,
    total_withdrawn: u64,
    bumps: AuthorityCache,
}

impl StateAccount {
    /// The total deposited over the record's life.
    pub closed spec fn deposited(&self) -> u64 {
        self.total_deposited
    }

    /// The total withdrawn over the record's life.
    pub closed spec fn withdrawn(&self) -> u64 {
        self.total_withdrawn
    }

    /// The bumps that the record holds, by role.
    pub closed spec fn bump_cache(&self) -> Map<AuthorityRole, u8> {
        self.bumps@
    }

    /// The record as it was persisted: both totals, and the bumps that its
    /// initialization cached.
    pub fn from_stored(total_deposited: u64, total_withdrawn: u64, vault_bump: u8, authority_bump: u8) -> (r: StateAccount)
        ensures
            r.deposited() == total_deposited,
            r.withdrawn() == total_withdrawn,
            r.bump_cache() == map![
                AuthorityRole::Vault => vault_bump,
                AuthorityRole::Authority => authority_bump,
            ],
    {
        let mut bumps = AuthorityCache::new();
        let set_vault = bumps.set(AuthorityRole::Vault, vault_bump);
        let set_authority = bumps.set(AuthorityRole::Authority, authority_bump);
        assert(set_vault is Ok && set_authority is Ok);
        assert(bumps@ =~= map![
            AuthorityRole::Vault => vault_bump,
            AuthorityRole::Authority => authority_bump,
        ]);
        StateAccount { total_deposited, total_withdrawn, bumps }
    }

    /// The total deposited over the record's life.
    pub fn total_deposited(&self) -> (r: u64)
        ensures
            r == self.deposited(),
    {
        self.total_deposited
    }

    /// The total withdrawn over the record's life.
    pub fn total_withdrawn(&self) -> (r: u64)
        ensures
            r == self.withdrawn(),
    {
        self.total_withdrawn
    }

    /// The bump cached for a role, read from the record without a search.
    pub fn cached_bump(&self, role: AuthorityRole) -> (r: Option<u8>)
        ensures
            r == cached_bump(self.bump_cache(), role),
    {
        self.bumps.get(role)
    }

    /// The cached bump of the vault-holding address.
    pub fn vault_bump(&self) -> (r: Option<u8>)
        ensures
            r == cached_bump(self.bump_cache(), AuthorityRole::Vault),
    {
        self.bumps.get(AuthorityRole::Vault)
    }

    /// The cached bump of the authority address.
    pub fn authority_bump(&self) -> (r: Option<u8>)
        ensures
            r == cached_bump(self.bump_cache(), AuthorityRole::Authority),
    {
        self.bumps.get(AuthorityRole::Authority)
    }
}

/// The value held at the vault address as the record accounts for it.
pub open spec fn held_balance(s: StateAccount) -> int {
    s.deposited() - s.withdrawn()
}

/// What initialization derives for the record at `state_address`: the two
/// role addresses. The runtime creates the token account at `vault`, with
/// `authority` as its owner.
#[derive(Debug)]
pub struct Initialize {
    pub vault: DerivedAddress,
    pub authority: DerivedAddress,
}

/// Whether `d` is the canonical derivation for a role of the record.
pub open spec fn is_canonical_for(
    role: AuthorityRole,
    state_address: Seq<u8>,
    program_id: Seq<u8>,
    d: DerivedAddress,
) -> bool {
    let seeds = role_seeds(role, state_address);
    &&& canonical_bump(seeds, program_id) == Some(d.nonce)
    &&& derived_address(seeds, d.nonce, program_id) == Some(d.address@)
    &&& seeds_view(d.seeds@) == seeds
    &&& !is_curve_point(d.address@)
}

/// Whether a record has a bump cached for either role, that is whether it
/// was initialized.
pub open spec fn holds_a_bump(s: StateAccount) -> bool {
    s.bump_cache().contains_key(AuthorityRole::Vault) || s.bump_cache().contains_key(AuthorityRole::Authority)
}

/// Whether the record slot holds an initialized record.
pub open spec fn is_initialized(record: Option<StateAccount>) -> bool {
    record matches Some(s) && holds_a_bump(s)
}

/// Initializes the vault record at `state_address`: finds the canonical bump
/// of both roles, caches them through the record's write-once cache, and
/// zeroes both counters. A record that holds a bump already is not
/// initialized again. On any error the record is left as it was.
pub fn initialize(
    record: &mut Option<StateAccount>,
    state_address: &[u8; 32],
    program_id: &[u8; 32],
) -> (r: Result<Initialize, VaultError>)
    ensures
        is_initialized(*old(record)) ==> (r matches Err(e) && e == VaultError::BumpAlreadyCached
            && *final(record) == *old(record)),
        !is_initialized(*old(record)) ==> match r {
            Ok(init) => {
                &&& is_canonical_for(AuthorityRole::Vault, state_address@, program_id@, init.vault)
                &&& is_canonical_for(AuthorityRole::Authority, state_address@, program_id@, init.authority)
                &&& *final(record) matches Some(s) && s.deposited() == 0 && s.withdrawn() == 0
                    && s.bump_cache() == map![
                        AuthorityRole::Vault => init.vault.nonce,
                        AuthorityRole::Authority => init.authority.nonce,
                    ]
            },
            Err(e) => {
                &&& e == VaultError::NoValidNonceFound
                &&& canonical_bump(role_seeds(AuthorityRole::Vault, state_address@), program_id@) is None
                    || canonical_bump(role_seeds(AuthorityRole::Authority, state_address@), program_id@) is None
                &&& *final(record) == *old(record)
            },
        },
{
    let initialized = match &*record {
        Some(s) => s.bumps.get(AuthorityRole::Vault).is_some() || s.bumps.get(AuthorityRole::Authority).is_some(),
        None => false,
    };
    if initialized {
        return Err(VaultError::BumpAlreadyCached);
    }
    let vault_seeds = role_seed_list(AuthorityRole::Vault, state_address);
    let vault = match find_canonical_nonce(&vault_seeds, program_id) {
        Ok(d) => d,
        Err(e) => return Err(e),
    };
    let authority_seeds = role_seed_list(AuthorityRole::Authority, state_address);
    let authority = match find_canonical_nonce(&authority_seeds, program_id) {
        Ok(d) => d,
        Err(e) => return Err(e),
    };
    let mut bumps = match record.take() {
        Some(s) => s.bumps,
        None => AuthorityCache::new(),
    };
    let set_vault = bumps.set(AuthorityRole::Vault, vault.nonce);
    let set_authority = bumps.set(AuthorityRole::Authority, authority.nonce);
    assert(set_vault is Ok && set_authority is Ok);
    assert(bumps@ =~= map![
        AuthorityRole::Vault => vault.nonce,
        AuthorityRole::Authority => authority.nonce,
    ]);
    *record = Some(StateAccount { total_deposited: 0, total_withdrawn: 0, bumps });
    Ok(Initialize { vault, authority })
}

/// Whether two addresses are the same.
pub fn same_address(a: &[u8; 32], b: &[u8; 32]) -> (r: bool)
    ensures
        r == (a@ == b@),
{
    let mut i: usize = 0;
    while i < 32
        invariant
            i <= 32,
            a@.len() == 32,
            b@.len() == 32,
            forall|j: int| 0 <= j < i ==> a@[j] == b@[j],
        decreases 32 - i,
    {
        if a[i] != b[i] {
            return false;
        }
        i = i + 1;
    }
    assert(a@ =~= b@);
    true
}

/// The accounts of a deposit: the depositor, the vault record, the
/// vault-holding token account, the depositor's token account, the owner
/// recorded in that token account, and whether the host's caller proof shows
/// that the depositor signed.
#[derive(Clone, Copy, Debug)]
pub struct Deposit {
    pub user: [u8; 32],
    pub state: [u8; 32],
    pub vault: [u8; 32],
    pub user_token: [u8; 32],
    pub user_token_owner: [u8; 32],
    pub user_signed: bool,
}

/// The accounts of a withdrawal, named as for a deposit, with the
/// authority address that signs for the vault.
#[derive(Clone, Copy, Debug)]
pub struct Withdraw {
    pub user: [u8; 32],
    pub state: [u8; 32],
    pub vault: [u8; 32],
    pub authority: [u8; 32],
    pub user_token: [u8; 32],
    pub user_token_owner: [u8; 32],
    pub user_signed: bool,
}

/// The address that a role of the record at `state_address` resolves to.
pub open spec fn role_address(
    state: StateAccount,
    role: AuthorityRole,
    state_address: Seq<u8>,
    program_id: Seq<u8>,
) -> Option<Seq<u8>> {
    match resolved(state.bump_cache(), role, role_seeds(role, state_address), program_id) {
        Some((_, a)) => Some(a),
        None => None,
    }
}

/// Whether a supplied account is the address of its role: an error where it
/// cannot be derived or differs.
pub open spec fn role_account_check(
    state: StateAccount,
    role: AuthorityRole,
    state_address: Seq<u8>,
    program_id: Seq<u8>,
    supplied: Seq<u8>,
) -> Result<(), VaultError> {
    match role_address(state, role, state_address, program_id) {
        None => Err(VaultError::NoValidNonceFound),
        Some(a) => if a == supplied {
            Ok(())
        } else {
            Err(VaultError::AddressMismatch)
        },
    }
}

/// The checks of a deposit, in order: the depositor must have signed, the
/// deposited total must not overflow,
/// the vault account must be the vault address, and the depositor must own
/// the source token account.
pub open spec fn deposit_check(state: StateAccount, accounts: Deposit, amount: u64, program_id: Seq<u8>) -> Result<(), VaultError> {
    if !accounts.user_signed {
        Err(VaultError::MissingSignature)
    } else if state.deposited() + amount > u64::MAX {
        Err(VaultError::ArithmeticOverflow)
    } else if role_account_check(state, AuthorityRole::Vault, accounts.state@, program_id, accounts.vault@) is Err {
        role_account_check(state, AuthorityRole::Vault, accounts.state@, program_id, accounts.vault@)
    } else if accounts.user_token_owner@ != accounts.user@ {
        Err(VaultError::OwnerMismatch)
    } else {
        Ok(())
    }
}

/// The checks of a withdrawal, in order: the user must have signed, the
/// withdrawn total must not overflow, the vault and authority accounts must be the addresses of their
/// roles, and the user must own the destination token account.
pub open spec fn withdraw_check(state: StateAccount, accounts: Withdraw, amount: u64, program_id: Seq<u8>) -> Result<(), VaultError> {
    if !accounts.user_signed {
        Err(VaultError::MissingSignature)
    } else if state.withdrawn() + amount > u64::MAX {
        Err(VaultError::ArithmeticOverflow)
    } else if role_account_check(state, AuthorityRole::Vault, accounts.state@, program_id, accounts.vault@) is Err {
        role_account_check(state, AuthorityRole::Vault, accounts.state@, program_id, accounts.vault@)
    } else if role_account_check(state, AuthorityRole::Authority, accounts.state@, program_id, accounts.authority@) is Err {
        role_account_check(state, AuthorityRole::Authority, accounts.state@, program_id, accounts.authority@)
    } else if accounts.user_token_owner@ != accounts.user@ {
        Err(VaultError::OwnerMismatch)
    } else {
        Ok(())
    }
}

/// Checks that `supplied` is the address of the role, resolved from the
/// cached bump where there is one.
fn check_role_account(
    state: &StateAccount,
    role: AuthorityRole,
    state_address: &[u8; 32],
    program_id: &[u8; 32],
    supplied: &[u8; 32],
) -> (r: Result<DerivedAddress, VaultError>)
    ensures
        match role_account_check(*state, role, state_address@, program_id@, supplied@) {
            Ok(_) => r matches Ok(d) && d.address == *supplied && is_resolution(
                state.bump_cache(),
                role,
                role_seeds(role, state_address@),
                program_id@,
                d,
            ),
            Err(e) => r matches Err(e2) && e2 == e,
        },
{
    let seeds = role_seed_list(role, state_address);
    match resolve_authority(&state.bumps, role, &seeds, program_id) {
        Ok(d) => {
            if same_address(&d.address, supplied) {
                assert(d.address =~= *supplied);
                Ok(d)
            } else {
                Err(VaultError::AddressMismatch)
            }
        },
        Err(e) => Err(e),
    }
}

/// A token transfer for the runtime to perform: `amount` moves from `from`
/// to `to` on the authority of `authority`. Where the authority is a derived
/// address, `signer` holds the seeds and bump that stand for its signature.
#[derive(Debug)]
pub struct TransferInstruction {
    pub from: [u8; 32],
    pub to: [u8; 32],
    pub authority: [u8; 32],
    pub amount: u64,
    pub signer: Option<DerivedAddress>,
}

/// The signing evidence of both derived roles, for one operation that both
/// co-sign.
#[derive(Debug)]
pub struct ComplexOperation {
    pub vault: DerivedAddress,
    pub authority: DerivedAddress,
}

/// What `deposit` does to the record, by the transfer's outcome.
pub open spec fn deposit_post(
    before: StateAccount,
    amount: u64,
    outcome: Result<(), TransferError>,
    after: StateAccount,
    r: Result<(), VaultError>,
) -> bool {
    if before.deposited() + amount > u64::MAX {
        r == Err::<(), VaultError>(VaultError::ArithmeticOverflow) && after == before
    } else {
        match outcome {
            Err(e) => r == Err::<(), VaultError>(VaultError::Transfer(e)) && after == before,
            Ok(_) => {
                &&& r == Ok::<(), VaultError>(())
                &&& after.deposited() == before.deposited() + amount
                &&& after.withdrawn() == before.withdrawn()
                &&& after.bump_cache() == before.bump_cache()
            },
        }
    }
}

/// What `withdraw` does to the record, by the transfer's outcome.
pub open spec fn withdraw_post(
    before: StateAccount,
    amount: u64,
    outcome: Result<(), TransferError>,
    after: StateAccount,
    r: Result<(), VaultError>,
) -> bool {
    if before.withdrawn() + amount > u64::MAX {
        r == Err::<(), VaultError>(VaultError::ArithmeticOverflow) && after == before
    } else {
        match outcome {
            Err(e) => r == Err::<(), VaultError>(VaultError::Transfer(e)) && after == before,
            Ok(_) => {
                &&& r == Ok::<(), VaultError>(())
                &&& after.withdrawn() == before.withdrawn() + amount
                &&& after.deposited() == before.deposited()
                &&& after.bump_cache() == before.bump_cache()
            },
        }
    }
}

/// The transfer of a deposit: from the depositor's token account to the
/// vault, on the depositor's own signature. Refused where a check of
/// `deposit_check` fails.
pub fn deposit_instruction(
    state: &StateAccount,
    accounts: &Deposit,
    amount: u64,
    program_id: &[u8; 32],
) -> (r: Result<TransferInstruction, VaultError>)
    requires
        amount > 0,
    ensures
        match deposit_check(*state, *accounts, amount, program_id@) {
            Ok(_) => r matches Ok(t) && t.from == accounts.user_token && t.to == accounts.vault
                && t.authority == accounts.user && t.amount == amount && t.signer is None,
            Err(e) => r matches Err(e2) && e2 == e,
        },
{
    if !accounts.user_signed {
        return Err(VaultError::MissingSignature);
    }
    if amount > u64::MAX - state.total_deposited {
        return Err(VaultError::ArithmeticOverflow);
    }
    match check_role_account(state, AuthorityRole::Vault, &accounts.state, program_id, &accounts.vault) {
        Ok(_) => {},
        Err(e) => return Err(e),
    }
    if !same_address(&accounts.user_token_owner, &accounts.user) {
        return Err(VaultError::OwnerMismatch);
    }
    Ok(TransferInstruction {
        from: accounts.user_token,
        to: accounts.vault,
        authority: accounts.user,
        amount,
        signer: None,
    })
}

/// Records a deposit once the runtime has performed its transfer: the
/// deposited total grows by `amount`. A failed transfer, or a total that
/// would overflow, leaves the record unchanged.
pub fn deposit(state: &mut StateAccount, amount: u64, outcome: Result<(), TransferError>) -> (r: Result<(), VaultError>)
    requires
        amount > 0,
    ensures
        deposit_post(*old(state), amount, outcome, *final(state), r),
{
    if amount > u64::MAX - state.total_deposited {
        return Err(VaultError::ArithmeticOverflow);
    }
    match outcome {
        Err(e) => Err(VaultError::Transfer(e)),
        Ok(_) => {
            state.total_deposited = state.total_deposited + amount;
            Ok(())
        },
    }
}

/// What `withdraw_instruction` returns: the first failed check of
/// `withdraw_check`, or the transfer from the vault to the user's token
/// account, signed for by the authority address with its resolved evidence.
pub open spec fn withdraw_instruction_post(
    state: StateAccount,
    accounts: Withdraw,
    amount: u64,
    program_id: Seq<u8>,
    r: Result<TransferInstruction, VaultError>,
) -> bool {
    match withdraw_check(state, accounts, amount, program_id) {
        Ok(_) => r matches Ok(t) && t.from == accounts.vault && t.to == accounts.user_token
            && t.authority == accounts.authority && t.amount == amount && (t.signer matches Some(d)
            && is_resolution(
                state.bump_cache(),
                AuthorityRole::Authority,
                role_seeds(AuthorityRole::Authority, accounts.state@),
                program_id,
                d,
            )),
        Err(e) => r matches Err(e2) && e2 == e,
    }
}

/// The transfer of a withdrawal: from the vault to the user's token account,
/// on the authority address's behalf. Its signing evidence is rebuilt from
/// the cached authority bump, without a search; the bump is searched only
/// where none is cached. Refused where a check of `withdraw_check` fails.
pub fn withdraw_instruction(
    state: &StateAccount,
    accounts: &Withdraw,
    amount: u64,
    program_id: &[u8; 32],
) -> (r: Result<TransferInstruction, VaultError>)
    requires
        amount > 0,
    ensures
        withdraw_instruction_post(*state, *accounts, amount, program_id@, r),
{
    if !accounts.user_signed {
        return Err(VaultError::MissingSignature);
    }
    if amount > u64::MAX - state.total_withdrawn {
        return Err(VaultError::ArithmeticOverflow);
    }
    match check_role_account(state, AuthorityRole::Vault, &accounts.state, program_id, &accounts.vault) {
        Ok(_) => {},
        Err(e) => return Err(e),
    }
    let signer = match check_role_account(
        state,
        AuthorityRole::Authority,
        &accounts.state,
        program_id,
        &accounts.authority,
    ) {
        Ok(d) => d,
        Err(e) => return Err(e),
    };
    if !same_address(&accounts.user_token_owner, &accounts.user) {
        return Err(VaultError::OwnerMismatch);
    }
    Ok(TransferInstruction {
        from: accounts.vault,
        to: accounts.user_token,
        authority: signer.address,
        amount,
        signer: Some(signer),
    })
}

/// Records a withdrawal once the runtime has performed its transfer: the
/// withdrawn total grows by `amount`. A failed transfer, or a total that
/// would overflow, leaves the record unchanged.
pub fn withdraw(state: &mut StateAccount, amount: u64, outcome: Result<(), TransferError>) -> (r: Result<(), VaultError>)
    requires
        amount > 0,
    ensures
        withdraw_post(*old(state), amount, outcome, *final(state), r),
{
    if amount > u64::MAX - state.total_withdrawn {
        return Err(VaultError::ArithmeticOverflow);
    }
    match outcome {
        Err(e) => Err(VaultError::Transfer(e)),
        Ok(_) => {
            state.total_withdrawn = state.total_withdrawn + amount;
            Ok(())
        },
    }
}

/// Resolves the signing evidence of both derived roles of the record at
/// `state_address`, the vault first, for an operation that both co-sign.
pub fn complex_operation(
    state: &StateAccount,
    state_address: &[u8; 32],
    program_id: &[u8; 32],
) -> (r: Result<ComplexOperation, VaultError>)
    ensures
        match (
            resolved(state.bump_cache(), AuthorityRole::Vault, role_seeds(AuthorityRole::Vault, state_address@), program_id@),
            resolved(state.bump_cache(), AuthorityRole::Authority, role_seeds(AuthorityRole::Authority, state_address@), program_id@),
        ) {
            (Some(_), Some(_)) => r matches Ok(op)
                && is_resolution(state.bump_cache(), AuthorityRole::Vault,
                    role_seeds(AuthorityRole::Vault, state_address@), program_id@, op.vault)
                && is_resolution(state.bump_cache(), AuthorityRole::Authority,
                    role_seeds(AuthorityRole::Authority, state_address@), program_id@, op.authority),
            _ => r matches Err(e) && e == VaultError::NoValidNonceFound,
        },
{
    let mut requests: Vec<(AuthorityRole, Vec<Vec<u8>>)> = Vec::new();
    requests.push((AuthorityRole::Vault, role_seed_list(AuthorityRole::Vault, state_address)));
    requests.push((AuthorityRole::Authority, role_seed_list(AuthorityRole::Authority, state_address)));
    match resolve_authorities(&state.bumps, &requests, program_id) {
        Ok(mut evidence) => {
            assert(is_resolution(state.bump_cache(), requests@[1].0, seeds_view(requests@[1].1@), program_id@, evidence@[1]));
            let authority = evidence.pop().unwrap();
            let vault = evidence.pop().unwrap();
            Ok(ComplexOperation { vault, authority })
        },
        Err(e) => {
            assert(resolved(state.bump_cache(), requests@[0].0, seeds_view(requests@[0].1@), program_id@) is None
                || resolved(state.bump_cache(), requests@[1].0, seeds_view(requests@[1].1@), program_id@) is None);
            Err(e)
        },
    }
}

/// A deposit of `amount` into a fresh vault, with the transfer carried out,
/// followed at once by a withdrawal of the same amount, leaves both totals at
/// `amount` and nothing held at the vault.
pub proof fn lemma_deposit_then_withdraw(
    fresh: StateAccount,
    deposited: StateAccount,
    withdrawn: StateAccount,
    amount: u64,
    r1: Result<(), VaultError>,
    r2: Result<(), VaultError>,
)
    requires
        fresh.deposited() == 0,
        fresh.withdrawn() == 0,
        amount > 0,
        deposit_post(fresh, amount, Ok(()), deposited, r1),
        withdraw_post(deposited, amount, Ok(()), withdrawn, r2),
    ensures
        r1 is Ok,
        r2 is Ok,
        withdrawn.deposited() == amount,
        withdrawn.withdrawn() == amount,
        held_balance(withdrawn) == 0,
        withdrawn.bump_cache() == fresh.bump_cache(),
{
}

/// Deriving a role's address again, by the bump search on its seeds, gives
/// the very bump and address that initialization found and cached.
pub proof fn lemma_rederivation_matches_cache(
    role: AuthorityRole,
    state_address: Seq<u8>,
    program_id: Seq<u8>,
    cached: DerivedAddress,
    state: StateAccount,
    again: Result<DerivedAddress, VaultError>,
)
    requires
        is_canonical_for(role, state_address, program_id, cached),
        cached_bump(state.bump_cache(), role) == Some(cached.nonce),
        find_canonical_nonce_post(role_seeds(role, state_address), program_id, again),
    ensures
        again matches Ok(d) && d.nonce == cached.nonce && d.address@ == cached.address@
            && Some(d.nonce) == cached_bump(state.bump_cache(), role),
{
}

/// A deposit whose transfer failed leaves the deposited total, and the
/// whole record, as it was.
pub proof fn lemma_failed_deposit_keeps_total(
    before: StateAccount,
    amount: u64,
    error: TransferError,
    after: StateAccount,
    r: Result<(), VaultError>,
)
    requires
        deposit_post(before, amount, Err(error), after, r),
    ensures
        r is Err,
        after.deposited() == before.deposited(),
        after == before,
{
}

/// A withdrawal that passes its checks is one transfer from the vault to the
/// user's token account, signed for by the authority address with the seeds
/// `["authority", state]` and exactly the cached authority bump: no search
/// takes place.
pub proof fn lemma_withdraw_signs_with_cached_bump(
    state: StateAccount,
    accounts: Withdraw,
    amount: u64,
    program_id: Seq<u8>,
    r: Result<TransferInstruction, VaultError>,
    bump: u8,
)
    requires
        withdraw_instruction_post(state, accounts, amount, program_id, r),
        withdraw_check(state, accounts, amount, program_id) is Ok,
        cached_bump(state.bump_cache(), AuthorityRole::Authority) == Some(bump),
    ensures
        r matches Ok(t) && t.from == accounts.vault && t.to == accounts.user_token && t.amount == amount
            && (t.signer matches Some(d) && d.nonce == bump
            && seeds_view(d.seeds@) == role_seeds(AuthorityRole::Authority, accounts.state@)
            && derived_address(role_seeds(AuthorityRole::Authority, accounts.state@), bump, program_id)
                == Some(t.authority@)),
{
}

} // verus!
