use anchor_lang::solana_program::pubkey::Pubkey;
use pda_vault::address::{derive_address, find_canonical_nonce};
use pda_vault::bump_seed;
use pda_vault::cache::{AuthorityCache, AuthorityRole};
use pda_vault::coordinator::{resolve_authorities, resolve_authority};
use pda_vault::error::{TransferError, VaultError};
use pda_vault::vault::{
    complex_operation, deposit, deposit_instruction, initialize, role_seed_list, withdraw,
    withdraw_instruction, Deposit, Initialize, StateAccount, Withdraw,
};

const PROGRAM: [u8; 32] = [7u8; 32];
const STATE: [u8; 32] = [42u8; 32];
const USER: [u8; 32] = [3u8; 32];
const USER_TOKEN: [u8; 32] = [4u8; 32];

/// The compressed ed25519 base point, a point of the curve.
fn base_point() -> [u8; 32] {
    let mut b = [0x66u8; 32];
    b[0] = 0x58;
    b
}

fn fresh() -> (StateAccount, Initialize) {
    let mut record = None;
    let init = initialize(&mut record, &STATE, &PROGRAM).unwrap();
    (record.unwrap(), init)
}

fn deposit_accounts(vault: [u8; 32]) -> Deposit {
    Deposit { user: USER, state: STATE, vault, user_token: USER_TOKEN, user_token_owner: USER, user_signed: true }
}

fn withdraw_accounts(init: &Initialize) -> Withdraw {
    Withdraw {
        user: USER,
        state: STATE,
        vault: init.vault.address,
        authority: init.authority.address,
        user_token: USER_TOKEN,
        user_token_owner: USER,
        user_signed: true,
    }
}

fn is_on_curve(address: &[u8; 32]) -> bool {
    Pubkey::new_from_array(*address).is_on_curve()
}

fn stored(total_deposited: u64, total_withdrawn: u64) -> (StateAccount, Initialize) {
    let (state, init) = fresh();
    let restored = StateAccount::from_stored(
        total_deposited,
        total_withdrawn,
        state.vault_bump().unwrap(),
        state.authority_bump().unwrap(),
    );
    (restored, init)
}

fn seeds(parts: &[&[u8]]) -> Vec<Vec<u8>> {
    parts.iter().map(|p| p.to_vec()).collect()
}

#[test]
fn canonical_nonce_is_deterministic() {
    let s = seeds(&[b"vault", &STATE]);
    let a = find_canonical_nonce(&s, &PROGRAM).unwrap();
    let b = find_canonical_nonce(&s, &PROGRAM).unwrap();
    assert_eq!(a.nonce, b.nonce);
    assert_eq!(a.address, b.address);
    assert_eq!(a.seeds, s);
}

#[test]
fn canonical_nonce_matches_runtime_search() {
    for label in [&b"vault"[..], &b"authority"[..], &b""[..], &b"x"[..]] {
        let s = seeds(&[label, &STATE]);
        let found = find_canonical_nonce(&s, &PROGRAM).unwrap();
        let refs: Vec<&[u8]> = s.iter().map(|v| v.as_slice()).collect();
        let (key, bump) = Pubkey::find_program_address(&refs, &Pubkey::new_from_array(PROGRAM));
        assert_eq!(found.nonce, bump);
        assert_eq!(found.address, key.to_bytes());
    }
}

#[test]
fn canonical_nonce_is_the_highest_valid() {
    let s = seeds(&[b"authority", &STATE]);
    let found = find_canonical_nonce(&s, &PROGRAM).unwrap();
    assert_eq!(derive_address(&s, found.nonce, &PROGRAM), Some(found.address));
    for b in (found.nonce as u16 + 1)..=255u16 {
        assert_eq!(derive_address(&s, b as u8, &PROGRAM), None);
    }
}

#[test]
fn found_address_is_off_curve() {
    for i in 0u8..20 {
        let s = seeds(&[b"vault", &[i; 32]]);
        let found = find_canonical_nonce(&s, &PROGRAM).unwrap();
        assert!(!is_on_curve(&found.address));
    }
    assert!(is_on_curve(&base_point()));
}

#[test]
fn derived_address_is_not_the_seed() {
    let s = seeds(&[&STATE]);
    let found = find_canonical_nonce(&s, &PROGRAM).unwrap();
    assert_ne!(found.address, STATE);
    assert_ne!(found.address, PROGRAM);
}

#[test]
fn seeds_beyond_limits_find_no_nonce() {
    let long = seeds(&[&[1u8; 33]]);
    assert_eq!(find_canonical_nonce(&long, &PROGRAM).unwrap_err(), VaultError::NoValidNonceFound);
    assert_eq!(derive_address(&long, 255, &PROGRAM), None);
    let many: Vec<Vec<u8>> = (0..16).map(|i| vec![i as u8]).collect();
    assert_eq!(find_canonical_nonce(&many, &PROGRAM).unwrap_err(), VaultError::NoValidNonceFound);
    let fifteen: Vec<Vec<u8>> = (0..15).map(|i| vec![i as u8]).collect();
    assert!(find_canonical_nonce(&fifteen, &PROGRAM).is_ok());
    let widest = seeds(&[&[1u8; 32]]);
    assert!(find_canonical_nonce(&widest, &PROGRAM).is_ok());
}

#[test]
fn second_set_is_refused() {
    let mut cache = AuthorityCache::new();
    assert_eq!(cache.get(AuthorityRole::Vault), None);
    assert_eq!(cache.set(AuthorityRole::Vault, 254), Ok(()));
    assert_eq!(cache.set(AuthorityRole::Vault, 17), Err(VaultError::BumpAlreadyCached));
    assert_eq!(cache.get(AuthorityRole::Vault), Some(254));
    assert_eq!(cache.get(AuthorityRole::Authority), None);
    assert_eq!(cache.set(AuthorityRole::Authority, 0), Ok(()));
    assert_eq!(cache.set(AuthorityRole::Authority, 0), Err(VaultError::BumpAlreadyCached));
    assert_eq!(cache.get(AuthorityRole::Authority), Some(0));
}

#[test]
fn initialize_zeroes_and_caches_both_bumps() {
    let (state, init) = fresh();
    assert_eq!(state.total_deposited(), 0);
    assert_eq!(state.total_withdrawn(), 0);
    assert_eq!(state.vault_bump(), Some(init.vault.nonce));
    assert_eq!(state.authority_bump(), Some(init.authority.nonce));
    assert_eq!(state.cached_bump(AuthorityRole::Vault), Some(init.vault.nonce));
    assert_eq!(state.cached_bump(AuthorityRole::Authority), Some(init.authority.nonce));
}

#[test]
fn reinitialization_is_refused() {
    let mut record = None;
    let init = initialize(&mut record, &STATE, &PROGRAM).unwrap();
    assert_eq!(deposit(record.as_mut().unwrap(), 70, Ok(())), Ok(()));
    let again = initialize(&mut record, &STATE, &PROGRAM);
    assert_eq!(again.unwrap_err(), VaultError::BumpAlreadyCached);
    let state = record.unwrap();
    assert_eq!(state.total_deposited(), 70);
    assert_eq!(state.vault_bump(), Some(init.vault.nonce));
    assert_eq!(state.authority_bump(), Some(init.authority.nonce));
}

#[test]
fn stored_record_is_not_initialized_again() {
    let (state, init) = stored(9, 2);
    let mut record = Some(state);
    assert_eq!(initialize(&mut record, &STATE, &PROGRAM).unwrap_err(), VaultError::BumpAlreadyCached);
    let state = record.unwrap();
    assert_eq!(state.total_deposited(), 9);
    assert_eq!(state.total_withdrawn(), 2);
    assert_eq!(state.vault_bump(), Some(init.vault.nonce));
}

#[test]
fn role_addresses_are_distinct_and_reproducible() {
    let (_, init) = fresh();
    assert_ne!(init.vault.address, init.authority.address);
    let again = find_canonical_nonce(&seeds(&[b"vault", &STATE]), &PROGRAM).unwrap();
    assert_eq!(again.address, init.vault.address);
    assert_eq!(again.nonce, init.vault.nonce);
    assert_eq!(init.vault.seeds, seeds(&[b"vault", &STATE]));
    assert_eq!(init.authority.seeds, seeds(&[b"authority", &STATE]));
    let other = initialize(&mut None, &[43u8; 32], &PROGRAM).unwrap();
    assert_ne!(other.vault.address, init.vault.address);
}

#[test]
fn deposit_then_withdraw_balances_out() {
    let mut state = fresh().0;
    assert_eq!(deposit(&mut state, 500, Ok(())), Ok(()));
    assert_eq!(withdraw(&mut state, 500, Ok(())), Ok(()));
    assert_eq!(state.total_deposited(), 500);
    assert_eq!(state.total_withdrawn(), 500);
    assert_eq!(state.total_deposited() - state.total_withdrawn(), 0);
}

#[test]
fn failed_transfer_leaves_totals() {
    let mut state = fresh().0;
    let err = TransferError { code: 1 };
    assert_eq!(deposit(&mut state, 10, Err(err)), Err(VaultError::Transfer(err)));
    assert_eq!(state.total_deposited(), 0);
    assert_eq!(deposit(&mut state, 10, Ok(())), Ok(()));
    assert_eq!(withdraw(&mut state, 4, Err(err)), Err(VaultError::Transfer(err)));
    assert_eq!(state.total_withdrawn(), 0);
    assert_eq!(state.total_deposited(), 10);
}

#[test]
fn deposit_overflow_is_refused() {
    let mut state = stored(u64::MAX, 0).0;
    assert_eq!(deposit(&mut state, 1, Ok(())), Err(VaultError::ArithmeticOverflow));
    assert_eq!(state.total_deposited(), u64::MAX);
    let accounts = deposit_accounts([9u8; 32]);
    assert_eq!(deposit_instruction(&state, &accounts, 1, &PROGRAM).unwrap_err(), VaultError::ArithmeticOverflow);
    let mut state = stored(u64::MAX - 1, 0).0;
    assert_eq!(deposit(&mut state, 1, Ok(())), Ok(()));
    assert_eq!(state.total_deposited(), u64::MAX);
}

#[test]
fn withdraw_overflow_is_refused() {
    let mut state = stored(0, u64::MAX - 2).0;
    assert_eq!(withdraw(&mut state, 3, Ok(())), Err(VaultError::ArithmeticOverflow));
    assert_eq!(state.total_withdrawn(), u64::MAX - 2);
}

#[test]
fn deposit_moves_from_user_on_user_signature() {
    let (state, init) = fresh();
    let t = deposit_instruction(&state, &deposit_accounts(init.vault.address), 25, &PROGRAM).unwrap();
    assert_eq!(t.from, USER_TOKEN);
    assert_eq!(t.to, init.vault.address);
    assert_eq!(t.authority, USER);
    assert_eq!(t.amount, 25);
    assert!(t.signer.is_none());
}

#[test]
fn deposit_to_another_account_is_refused() {
    let (state, init) = fresh();
    let wrong = deposit_instruction(&state, &deposit_accounts([9u8; 32]), 25, &PROGRAM);
    assert_eq!(wrong.unwrap_err(), VaultError::AddressMismatch);
    let swapped = deposit_instruction(&state, &deposit_accounts(init.authority.address), 25, &PROGRAM);
    assert_eq!(swapped.unwrap_err(), VaultError::AddressMismatch);
    let mut foreign = deposit_accounts(init.vault.address);
    foreign.user_token_owner = [5u8; 32];
    assert_eq!(deposit_instruction(&state, &foreign, 25, &PROGRAM).unwrap_err(), VaultError::OwnerMismatch);
    let mut unsigned = deposit_accounts(init.vault.address);
    unsigned.user_signed = false;
    assert_eq!(deposit_instruction(&state, &unsigned, 25, &PROGRAM).unwrap_err(), VaultError::MissingSignature);
}

#[test]
fn withdraw_signs_with_cached_authority_bump() {
    let (state, init) = fresh();
    let t = withdraw_instruction(&state, &withdraw_accounts(&init), 8, &PROGRAM).unwrap();
    assert_eq!(t.from, init.vault.address);
    assert_eq!(t.to, USER_TOKEN);
    assert_eq!(t.authority, init.authority.address);
    assert_eq!(t.amount, 8);
    let signer = t.signer.unwrap();
    assert_eq!(signer.nonce, init.authority.nonce);
    assert_eq!(signer.seeds, seeds(&[b"authority", &STATE]));
    let mut with_bump: Vec<&[u8]> = signer.seeds.iter().map(|v| v.as_slice()).collect();
    let bump = [signer.nonce];
    with_bump.push(&bump);
    let key = Pubkey::create_program_address(&with_bump, &Pubkey::new_from_array(PROGRAM)).unwrap();
    assert_eq!(key.to_bytes(), t.authority);
}

#[test]
fn withdraw_with_wrong_accounts_is_refused() {
    let (state, init) = fresh();
    let mut wrong_authority = withdraw_accounts(&init);
    wrong_authority.authority = USER;
    assert_eq!(
        withdraw_instruction(&state, &wrong_authority, 8, &PROGRAM).unwrap_err(),
        VaultError::AddressMismatch
    );
    let mut wrong_vault = withdraw_accounts(&init);
    wrong_vault.vault = [9u8; 32];
    assert_eq!(withdraw_instruction(&state, &wrong_vault, 8, &PROGRAM).unwrap_err(), VaultError::AddressMismatch);
    let mut foreign = withdraw_accounts(&init);
    foreign.user_token_owner = [5u8; 32];
    assert_eq!(withdraw_instruction(&state, &foreign, 8, &PROGRAM).unwrap_err(), VaultError::OwnerMismatch);
    let mut unsigned = withdraw_accounts(&init);
    unsigned.user_signed = false;
    assert_eq!(withdraw_instruction(&state, &unsigned, 8, &PROGRAM).unwrap_err(), VaultError::MissingSignature);
    let full = stored(0, u64::MAX).0;
    assert_eq!(
        withdraw_instruction(&full, &withdraw_accounts(&init), 1, &PROGRAM).unwrap_err(),
        VaultError::ArithmeticOverflow
    );
}

#[test]
fn resolve_uses_cached_bump() {
    let s = seeds(&[b"authority", &STATE]);
    let canonical = find_canonical_nonce(&s, &PROGRAM).unwrap();
    let mut cache = AuthorityCache::new();
    let fresh = resolve_authority(&cache, AuthorityRole::Authority, &s, &PROGRAM).unwrap();
    assert_eq!(fresh.nonce, canonical.nonce);
    assert_eq!(fresh.address, canonical.address);
    // A lower bump that also gives an address is taken as cached.
    let mut lower = canonical.nonce;
    let mut lower_address = None;
    while lower > 0 {
        lower -= 1;
        if let Some(a) = derive_address(&s, lower, &PROGRAM) {
            lower_address = Some(a);
            break;
        }
    }
    let lower_address = lower_address.unwrap();
    cache.set(AuthorityRole::Authority, lower).unwrap();
    let cached = resolve_authority(&cache, AuthorityRole::Authority, &s, &PROGRAM).unwrap();
    assert_eq!(cached.nonce, lower);
    assert_eq!(cached.address, lower_address);
    assert_ne!(cached.address, canonical.address);
}

#[test]
fn resolve_keeps_request_order() {
    let cache = AuthorityCache::new();
    let requests = vec![
        (AuthorityRole::Authority, role_seed_list(AuthorityRole::Authority, &STATE)),
        (AuthorityRole::Vault, role_seed_list(AuthorityRole::Vault, &STATE)),
        (AuthorityRole::Vault, seeds(&[b"other"])),
    ];
    let out = resolve_authorities(&cache, &requests, &PROGRAM).unwrap();
    assert_eq!(out.len(), 3);
    for (d, (_, s)) in out.iter().zip(requests.iter()) {
        let expected = find_canonical_nonce(s, &PROGRAM).unwrap();
        assert_eq!(d.address, expected.address);
        assert_eq!(&d.seeds, s);
    }
    let bad = vec![
        (AuthorityRole::Vault, role_seed_list(AuthorityRole::Vault, &STATE)),
        (AuthorityRole::Authority, seeds(&[&[0u8; 40]])),
    ];
    assert_eq!(resolve_authorities(&cache, &bad, &PROGRAM).unwrap_err(), VaultError::NoValidNonceFound);
    assert!(resolve_authorities(&cache, &Vec::new(), &PROGRAM).unwrap().is_empty());
}

#[test]
fn complex_operation_gives_both_signers() {
    let (state, init) = fresh();
    let op = complex_operation(&state, &STATE, &PROGRAM).unwrap();
    assert_eq!(op.vault.address, init.vault.address);
    assert_eq!(op.vault.nonce, init.vault.nonce);
    assert_eq!(op.vault.seeds, seeds(&[b"vault", &STATE]));
    assert_eq!(op.authority.address, init.authority.address);
    assert_eq!(op.authority.nonce, init.authority.nonce);
    assert_eq!(op.authority.seeds, seeds(&[b"authority", &STATE]));
}

#[test]
fn my_pda_account_keeps_its_bump() {
    let init = bump_seed::initialize(&USER, &PROGRAM).unwrap();
    let refs: [&[u8]; 2] = [b"my-seed", &USER];
    let (key, bump) = Pubkey::find_program_address(&refs, &Pubkey::new_from_array(PROGRAM));
    assert_eq!(init.data, bump_seed::MyPdaAccount { bump });
    assert_eq!(init.my_pda_account.address, key.to_bytes());
    assert_eq!(init.my_pda_account.nonce, bump);
    assert_eq!(init.user, USER);
    assert!(!is_on_curve(&init.my_pda_account.address));
}
