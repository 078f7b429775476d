use anchor_lang::prelude::Pubkey;
use vault_program::address::{find_address, probe, Address, Probe, SeedError};
use vault_program::derivation::{
    address_of, confirms, derive_address, find_all, rederive_address, rederive_all, seeds_of,
    signer_seeds_of, Found, Rederived, Role,
};
use vault_program::{HoldingAccount, OwnerAccount, RecordAccount, Vault, VaultAccounts};

fn program_id() -> Address {
    let mut bytes = [0u8; 32];
    let mut i = 0;
    while i < 32 {
        bytes[i] = (7 * i + 3) as u8;
        i += 1;
    }
    Address::new(bytes)
}

fn owner_key(tag: u8) -> Address {
    Address::new([tag; 32])
}

fn pubkey(address: &Address) -> Pubkey {
    Pubkey::new_from_array(address.bytes)
}

#[test]
fn tags_are_the_role_names() {
    assert_eq!(Role::State.tag_seed(), b"state".to_vec());
    assert_eq!(Role::Auth.tag_seed(), b"auth".to_vec());
    assert_eq!(Role::Vault.tag_seed(), b"vault".to_vec());
}

#[test]
fn seeds_are_tag_then_key() {
    let key = owner_key(9);
    assert_eq!(seeds_of(Role::State, &key), vec![b"state".to_vec(), vec![9u8; 32]]);
    assert_eq!(
        signer_seeds_of(Role::Vault, &key, 254),
        vec![b"vault".to_vec(), vec![9u8; 32], vec![254u8]]
    );
}

#[test]
fn address_as_seed_keeps_every_byte() {
    let id = program_id();
    assert_eq!(id.to_seed(), id.bytes.to_vec());
    assert_eq!(id.to_seed().len(), 32);
}

#[test]
fn addresses_compare_by_bytes() {
    let mut bytes = [5u8; 32];
    let a = Address::new(bytes);
    assert!(a == Address::new([5u8; 32]));
    bytes[31] = 6;
    assert!(a != Address::new(bytes));
    bytes[31] = 5;
    bytes[0] = 4;
    assert!(a != Address::new(bytes));
}

#[test]
fn derive_agrees_with_the_ledger_library() {
    let id = program_id();
    let mut tag = 0u8;
    while tag < 40 {
        let owner = owner_key(tag);
        let (expected, bump) =
            Pubkey::find_program_address(&[b"state", owner.bytes.as_ref()], &pubkey(&id));
        assert_eq!(derive_address(Role::State, &owner, &id), Some((Address::new(expected.to_bytes()), bump)));
        let (expected, bump) =
            Pubkey::find_program_address(&[b"auth", owner.bytes.as_ref()], &pubkey(&id));
        assert_eq!(derive_address(Role::Auth, &owner, &id), Some((Address::new(expected.to_bytes()), bump)));
        let (expected, bump) =
            Pubkey::find_program_address(&[b"vault", owner.bytes.as_ref()], &pubkey(&id));
        assert_eq!(derive_address(Role::Vault, &owner, &id), Some((Address::new(expected.to_bytes()), bump)));
        tag += 1;
    }
}

#[test]
fn derive_is_not_the_key_it_started_from() {
    let id = program_id();
    let owner = owner_key(1);
    let (state, _) = derive_address(Role::State, &owner, &id).unwrap();
    assert!(state != owner);
    assert!(state != id);
}

#[test]
fn derive_is_reproducible() {
    let id = program_id();
    let owner = owner_key(2);
    assert_eq!(derive_address(Role::State, &owner, &id), derive_address(Role::State, &owner, &id));
}

#[test]
fn roles_and_programs_derive_apart() {
    let id = program_id();
    let other = Address::new([200u8; 32]);
    let owner = owner_key(3);
    let state = derive_address(Role::State, &owner, &id).unwrap().0;
    let auth = derive_address(Role::Auth, &owner, &id).unwrap().0;
    let vault = derive_address(Role::Vault, &owner, &id).unwrap().0;
    assert!(state != auth && auth != vault && state != vault);
    assert!(derive_address(Role::State, &owner, &other).unwrap().0 != state);
    assert!(derive_address(Role::State, &owner_key(4), &id).unwrap().0 != state);
}

#[test]
fn some_search_skips_a_bump_seed() {
    let id = program_id();
    let mut lower = 0;
    let mut tag = 0u8;
    while tag < 40 {
        let (_, bump) = derive_address(Role::State, &owner_key(tag), &id).unwrap();
        assert!(bump >= 1);
        if bump < 255 {
            lower += 1;
        }
        tag += 1;
    }
    assert!(lower > 0);
}

#[test]
fn stored_bump_rederives_the_found_address() {
    let id = program_id();
    let mut tag = 0u8;
    while tag < 40 {
        let owner = owner_key(tag);
        let (address, bump) = derive_address(Role::Vault, &owner, &id).unwrap();
        assert_eq!(rederive_address(Role::Vault, &owner, bump, &id), Some(address));
        tag += 1;
    }
}

#[test]
fn rederive_agrees_with_the_ledger_library() {
    let id = program_id();
    let owner = owner_key(5);
    let mut bump = 0u8;
    loop {
        let expected = Pubkey::create_program_address(
            &[b"auth", owner.bytes.as_ref(), &[bump]],
            &pubkey(&id),
        )
        .ok()
        .map(|key| Address::new(key.to_bytes()));
        assert_eq!(rederive_address(Role::Auth, &owner, bump, &id), expected);
        if bump == 255 {
            break;
        }
        bump += 1;
    }
}

#[test]
fn another_bump_seed_gives_another_address() {
    let id = program_id();
    let owner = owner_key(6);
    let (address, bump) = derive_address(Role::State, &owner, &id).unwrap();
    let other = rederive_address(Role::State, &owner, bump.wrapping_sub(1), &id);
    assert!(other != Some(address));
    assert!(!confirms(&other, &address));
    assert!(confirms(&rederive_address(Role::State, &owner, bump, &id), &address));
}

#[test]
fn bump_seeds_on_the_curve_derive_nothing() {
    let id = program_id();
    let mut missing = 0;
    let mut bump = 0u8;
    loop {
        if rederive_address(Role::State, &owner_key(7), bump, &id).is_none() {
            missing += 1;
        }
        if bump == 255 {
            break;
        }
        bump += 1;
    }
    assert!(missing > 0 && missing < 256);
}

#[test]
fn confirms_needs_an_address() {
    let address = owner_key(8);
    assert!(!confirms(&None, &address));
    assert!(confirms(&Some(address), &address));
    assert!(!confirms(&Some(owner_key(9)), &address));
}

#[test]
fn address_of_drops_the_reason() {
    let address = owner_key(10);
    assert_eq!(address_of(Ok(address)), Some(address));
    assert_eq!(address_of(Err(SeedError::InvalidSeeds)), None);
    assert_eq!(address_of(Err(SeedError::MaxSeedLengthExceeded)), None);
    assert_eq!(address_of(Err(SeedError::IllegalOwner)), None);
}

#[test]
fn probe_reads_each_outcome() {
    assert_eq!(probe(Ok(owner_key(11))), Probe::Found(owner_key(11)));
    assert_eq!(probe(Err(SeedError::InvalidSeeds)), Probe::Retry);
    assert_eq!(probe(Err(SeedError::MaxSeedLengthExceeded)), Probe::GiveUp);
    assert_eq!(probe(Err(SeedError::IllegalOwner)), Probe::GiveUp);
}

#[test]
fn find_agrees_with_the_ledger_library_on_any_seeds() {
    let id = program_id();
    let cases: Vec<Vec<Vec<u8>>> = vec![
        vec![],
        vec![vec![]],
        vec![b"a".to_vec()],
        vec![b"abc".to_vec(), b"def".to_vec()],
        vec![vec![255u8; 32], vec![0u8; 32], vec![1]],
        vec![vec![1u8]; 15],
    ];
    for seeds in cases.iter() {
        let slices: Vec<&[u8]> = seeds.iter().map(|seed| seed.as_slice()).collect();
        let expected = Pubkey::try_find_program_address(&slices, &pubkey(&id))
            .map(|(key, bump)| (Address::new(key.to_bytes()), bump));
        assert!(expected.is_some());
        assert_eq!(find_address(seeds, &id), expected);
    }
}

#[test]
fn find_gives_up_on_too_many_seeds() {
    let id = program_id();
    let seeds: Vec<Vec<u8>> = vec![vec![1u8]; 16];
    let slices: Vec<&[u8]> = seeds.iter().map(|seed| seed.as_slice()).collect();
    assert_eq!(Pubkey::try_find_program_address(&slices, &pubkey(&id)), None);
    assert_eq!(find_address(&seeds, &id), None);
    assert_eq!(find_address(&vec![vec![1u8]; 17], &id), None);
}

#[test]
fn find_gives_up_on_a_seed_too_long() {
    let id = program_id();
    let seeds: Vec<Vec<u8>> = vec![b"state".to_vec(), vec![1u8; 33]];
    let slices: Vec<&[u8]> = seeds.iter().map(|seed| seed.as_slice()).collect();
    assert_eq!(Pubkey::try_find_program_address(&slices, &pubkey(&id)), None);
    assert_eq!(find_address(&seeds, &id), None);
}

#[test]
fn find_leaves_the_seeds_alone() {
    let id = program_id();
    let seeds: Vec<Vec<u8>> = vec![b"abc".to_vec(), b"def".to_vec()];
    let before = seeds.clone();
    let _ = find_address(&seeds, &id);
    assert_eq!(seeds, before);
}

#[test]
fn seeds_are_hashed_in_sequence() {
    let id = program_id();
    let joined = find_address(&vec![b"abcdef".to_vec()], &id);
    let split = find_address(&vec![b"abc".to_vec(), b"def".to_vec()], &id);
    assert_eq!(joined, split);
}

fn accounts_of(owner: u8) -> (VaultAccounts, (u8, u8, u8)) {
    let id = program_id();
    let owner = owner_key(owner);
    let (state, state_bump) = derive_address(Role::State, &owner, &id).unwrap();
    let (auth, auth_bump) = derive_address(Role::Auth, &state, &id).unwrap();
    let (vault, vault_bump) = derive_address(Role::Vault, &auth, &id).unwrap();
    let accounts = VaultAccounts {
        owner: OwnerAccount { key: owner, lamports: 0, is_signer: true },
        state: RecordAccount { key: state, record: None },
        auth,
        vault: HoldingAccount { key: vault, lamports: 0 },
    };
    (accounts, (state_bump, auth_bump, vault_bump))
}

#[test]
fn find_all_follows_the_chain_of_supplied_addresses() {
    let id = program_id();
    let (accounts, bumps) = accounts_of(50);
    let found = find_all(&id, &accounts);
    assert_eq!(
        found,
        Found {
            state: Some((accounts.state.key, bumps.0)),
            auth: Some((accounts.auth, bumps.1)),
            vault: Some((accounts.vault.key, bumps.2)),
        }
    );
    assert_eq!(found.matched(&accounts), Some(bumps));

    let (other, _) = accounts_of(51);
    let mut mixed = accounts;
    mixed.state.key = other.state.key;
    let found = find_all(&id, &mixed);
    assert_eq!(found.state, Some((accounts.state.key, bumps.0)));
    assert_eq!(found.auth.unwrap().0, other.auth);
    assert_eq!(found.vault, Some((accounts.vault.key, bumps.2)));
    assert_eq!(found.matched(&mixed), None);
}

#[test]
fn matched_needs_all_three_addresses() {
    let (accounts, _) = accounts_of(52);
    let all = Found {
        state: Some((accounts.state.key, 1)),
        auth: Some((accounts.auth, 2)),
        vault: Some((accounts.vault.key, 3)),
    };
    assert_eq!(all.matched(&accounts), Some((1, 2, 3)));
    assert_eq!(Found { state: None, ..all }.matched(&accounts), None);
    assert_eq!(Found { auth: None, ..all }.matched(&accounts), None);
    assert_eq!(Found { vault: None, ..all }.matched(&accounts), None);
    assert_eq!(Found { state: Some((accounts.auth, 1)), ..all }.matched(&accounts), None);
    assert_eq!(Found { auth: Some((accounts.state.key, 2)), ..all }.matched(&accounts), None);
    assert_eq!(Found { vault: Some((accounts.auth, 3)), ..all }.matched(&accounts), None);
}

#[test]
fn rederive_all_goes_by_the_stored_bump_seeds() {
    let id = program_id();
    let (mut accounts, bumps) = accounts_of(53);
    assert_eq!(rederive_all(&id, &accounts), Rederived { state: None, auth: None, vault: None });
    assert!(!rederive_all(&id, &accounts).verified(&accounts));
    let record = Vault {
        owner: accounts.owner.key,
        state_bump: bumps.0,
        auth_bump: bumps.1,
        vault_bump: bumps.2,
        deposit_amount: 0,
        deposit_time: 0,
        interest_rate: 0,
    };
    accounts.state.record = Some(record);
    let derived = rederive_all(&id, &accounts);
    assert_eq!(
        derived,
        Rederived {
            state: Some(accounts.state.key),
            auth: Some(accounts.auth),
            vault: Some(accounts.vault.key),
        }
    );
    assert!(derived.verified(&accounts));

    accounts.state.record = Some(Vault { vault_bump: bumps.2.wrapping_sub(1), ..record });
    let derived = rederive_all(&id, &accounts);
    assert_eq!(derived.state, Some(accounts.state.key));
    assert_eq!(derived.auth, Some(accounts.auth));
    assert!(derived.vault != Some(accounts.vault.key));
    assert!(!derived.verified(&accounts));
}

#[test]
fn verified_needs_all_three_addresses() {
    let (accounts, _) = accounts_of(54);
    let all = Rederived {
        state: Some(accounts.state.key),
        auth: Some(accounts.auth),
        vault: Some(accounts.vault.key),
    };
    assert!(all.verified(&accounts));
    assert!(!Rederived { state: None, ..all }.verified(&accounts));
    assert!(!Rederived { auth: None, ..all }.verified(&accounts));
    assert!(!Rederived { vault: None, ..all }.verified(&accounts));
    assert!(!Rederived { state: Some(accounts.auth), ..all }.verified(&accounts));
    assert!(!Rederived { auth: Some(accounts.vault.key), ..all }.verified(&accounts));
    assert!(!Rederived { vault: Some(accounts.state.key), ..all }.verified(&accounts));
}

#[test]
fn signer_seeds_sign_for_the_holding_account() {
    let id = program_id();
    let (accounts, bumps) = accounts_of(55);
    let seeds = signer_seeds_of(Role::Vault, &accounts.auth, bumps.2);
    let slices: Vec<&[u8]> = seeds.iter().map(|seed| seed.as_slice()).collect();
    let signer = Pubkey::create_program_address(&slices, &pubkey(&id)).unwrap();
    assert_eq!(signer.to_bytes(), accounts.vault.key.bytes);
}
