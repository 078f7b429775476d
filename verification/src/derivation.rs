//! The three derived addresses of a vault and the proof that reproduces them.
//!
//! The record's address is derived from the owner's key, the authority's
//! address from the record's address, and the holding account's address from
//! the authority's. Each uses a fixed tag as its first seed. The bump seeds
//! found when the vault is created are kept in the record; later invocations
//! re-derive each address with its stored bump seed and refuse any supplied
//! address that differs.

use vstd::prelude::*;
use crate::accounts::VaultAccounts;
use crate::address::{
    create_program_address, find_address, found_address, found_view, lemma_found_is_reproducible,
    program_address, seeds_view, with_bump, Address, SeedError,
};

verus! {

/// The part an address plays in a vault.
#[derive(Clone, Copy, Debug, PartialEq, Eq, Structural)]
pub enum Role {
    /// The account holding the owner's record.
    State,
    /// The authority that signs for the holding account.
    Auth,
    /// The holding account, which custodies the deposit.
    Vault,
}

impl Role {
    /// The fixed tag of the role: its name in ASCII.
    pub open spec fn tag(self) -> Seq<u8> {
        match self {
            // "state"
            Role::State => seq![115u8, 116u8, 97u8, 116u8, 101u8],
            // "auth"
            Role::Auth => seq![97u8, 117u8, 116u8, 104u8],
            // "vault"
            Role::Vault => seq![118u8, 97u8, 117u8, 108u8, 116u8],
        }
    }

    /// The tag as a seed.
    pub fn tag_seed(&self) -> (seed: Vec<u8>)
        ensures
            seed@ == self.tag(),
    {
        let mut seed: Vec<u8> = Vec::new();
        match self {
            Role::State => {
                seed.push(115u8);
                seed.push(116u8);
                seed.push(97u8);
                seed.push(116u8);
                seed.push(101u8);
            },
            Role::Auth => {
                seed.push(97u8);
                seed.push(117u8);
                seed.push(116u8);
                seed.push(104u8);
            },
            Role::Vault => {
                seed.push(118u8);
                seed.push(97u8);
                seed.push(117u8);
                seed.push(108u8);
                seed.push(116u8);
            },
        }
        assert(seed@ =~= self.tag());
        seed
    }
}

/// The seeds of a role: its tag, then the key that the address hangs on.
pub open spec fn role_seeds(role: Role, key: Seq<u8>) -> Seq<Seq<u8>> {
    seq![role.tag(), key]
}

/// The seeds of a role with its bump seed: the sequence that reproduces the
/// address, and that stands in for a signature of the holding account.
pub open spec fn signer_seeds(role: Role, key: Seq<u8>, bump: u8) -> Seq<Seq<u8>> {
    with_bump(role_seeds(role, key), bump)
}

/// The address that a stored bump seed re-derives for a role, if any.
pub open spec fn rederived(role: Role, key: Seq<u8>, bump: u8, program_id: Seq<u8>) -> Option<
    Seq<u8>,
> {
    match program_address(signer_seeds(role, key, bump), program_id) {
        Ok(address) => Some(address),
        Err(_) => None,
    }
}

/// An optional address as its bytes.
pub open spec fn address_view(address: Option<Address>) -> Option<Seq<u8>> {
    match address {
        Some(a) => Some(a@),
        None => None,
    }
}

/// Builds the seeds of a role.
pub fn seeds_of(role: Role, key: &Address) -> (seeds: Vec<Vec<u8>>)
    ensures
        seeds_view(&seeds) == role_seeds(role, key@),
{
    let mut seeds: Vec<Vec<u8>> = Vec::new();
    seeds.push(role.tag_seed());
    seeds.push(key.to_seed());
    assert(seeds_view(&seeds) =~= role_seeds(role, key@));
    seeds
}

/// Builds the seeds of a role with its bump seed.
pub fn signer_seeds_of(role: Role, key: &Address, bump: u8) -> (seeds: Vec<Vec<u8>>)
    ensures
        seeds_view(&seeds) == signer_seeds(role, key@, bump),
{
    let mut seeds: Vec<Vec<u8>> = Vec::new();
    seeds.push(role.tag_seed());
    seeds.push(key.to_seed());
    let mut last: Vec<u8> = Vec::new();
    last.push(bump);
    assert(last@ =~= seq![bump]);
    seeds.push(last);
    assert(seeds_view(&seeds) =~= signer_seeds(role, key@, bump));
    seeds
}

/// Finds the address of a role and the bump seed that makes it one.
pub fn derive_address(role: Role, key: &Address, program_id: &Address) -> (found: Option<(Address, u8)>)
    ensures
        found_view(found) == found_address(role_seeds(role, key@), program_id@),
{
    let seeds = seeds_of(role, key);
    find_address(&seeds, program_id)
}

/// Reads a derivation as the address it yields, if it yields one.
pub fn address_of(derived: Result<Address, SeedError>) -> (address: Option<Address>)
    ensures
        address == match derived {
            Ok(a) => Some(a),
            Err(_) => None::<Address>,
        },
{
    match derived {
        Ok(a) => Some(a),
        Err(_) => None,
    }
}

/// Re-derives the address of a role from a stored bump seed, without a search.
pub fn rederive_address(role: Role, key: &Address, bump: u8, program_id: &Address) -> (address: Option<
    Address,
>)
    ensures
        address_view(address) == rederived(role, key@, bump, program_id@),
{
    let seeds = signer_seeds_of(role, key, bump);
    address_of(create_program_address(&seeds, program_id))
}

/// Whether a re-derived address confirms the address that a caller supplied.
pub fn confirms(derived: &Option<Address>, supplied: &Address) -> (confirmed: bool)
    ensures
        confirmed == (address_view(*derived) == Some(supplied@)),
{
    match derived {
        Some(address) => *address == *supplied,
        None => false,
    }
}

/// The bump seed found for a role reproduces the address found with it.
pub proof fn lemma_found_role_is_reproducible(role: Role, key: Seq<u8>, program_id: Seq<u8>)
    ensures
        found_address(role_seeds(role, key), program_id) matches Some((address, bump))
            ==> rederived(role, key, bump, program_id) == Some(address),
{
    lemma_found_is_reproducible(role_seeds(role, key), program_id);
}

/// What the search found for each of the three addresses of a vault.
#[derive(Clone, Copy, Debug, PartialEq, Eq)]
pub struct Found {
    pub state: Option<(Address, u8)>,
    pub auth: Option<(Address, u8)>,
    pub vault: Option<(Address, u8)>,
}

/// What the stored bump seeds re-derive for each of the three addresses.
#[derive(Clone, Copy, Debug, PartialEq, Eq)]
pub struct Rederived {
    pub state: Option<Address>,
    pub auth: Option<Address>,
    pub vault: Option<Address>,
}

/// The bump seeds to store at creation: those found, provided that each
/// search found exactly the address supplied for its role.
pub open spec fn matched_bumps(
    accounts: VaultAccounts,
    state: Option<(Seq<u8>, u8)>,
    auth: Option<(Seq<u8>, u8)>,
    vault: Option<(Seq<u8>, u8)>,
) -> Option<(u8, u8, u8)> {
    match (state, auth, vault) {
        (Some((state_address, state_bump)), Some((auth_address, auth_bump)), Some(
            (vault_address, vault_bump),
        )) => if state_address == accounts.state.key@ && auth_address == accounts.auth@
            && vault_address == accounts.vault.key@ {
            Some((state_bump, auth_bump, vault_bump))
        } else {
            None
        },
        _ => None,
    }
}

/// The bump seeds that creation stores for these accounts, if the supplied
/// addresses are the derived ones: the record's address hangs on the owner's
/// key, the authority's on the record's address, the holding account's on
/// the authority's.
pub open spec fn found_bumps(program_id: Address, accounts: VaultAccounts) -> Option<(u8, u8, u8)> {
    matched_bumps(
        accounts,
        found_address(role_seeds(Role::State, accounts.owner.key@), program_id@),
        found_address(role_seeds(Role::Auth, accounts.state.key@), program_id@),
        found_address(role_seeds(Role::Vault, accounts.auth@), program_id@),
    )
}

/// Whether the re-derived addresses are exactly the supplied ones.
pub open spec fn confirmed(
    accounts: VaultAccounts,
    state: Option<Seq<u8>>,
    auth: Option<Seq<u8>>,
    vault: Option<Seq<u8>>,
) -> bool {
    state == Some(accounts.state.key@) && auth == Some(accounts.auth@) && vault == Some(
        accounts.vault.key@,
    )
}

/// Whether the record's derivation proof holds: there is a record, and its
/// three bump seeds re-derive the three supplied addresses.
pub open spec fn proof_holds(program_id: Address, accounts: VaultAccounts) -> bool {
    match accounts.state.record {
        Some(record) => confirmed(
            accounts,
            rederived(Role::State, accounts.owner.key@, record.state_bump, program_id@),
            rederived(Role::Auth, accounts.state.key@, record.auth_bump, program_id@),
            rederived(Role::Vault, accounts.auth@, record.vault_bump, program_id@),
        ),
        None => false,
    }
}

impl Found {
    /// The bump seeds to store, if every search found the supplied address.
    pub open spec fn bumps_for(self, accounts: VaultAccounts) -> Option<(u8, u8, u8)> {
        matched_bumps(
            accounts,
            found_view(self.state),
            found_view(self.auth),
            found_view(self.vault),
        )
    }

    /// Compares what was found with the supplied addresses and hands out the
    /// bump seeds to store.
    pub fn matched(&self, accounts: &VaultAccounts) -> (bumps: Option<(u8, u8, u8)>)
        ensures
            bumps == self.bumps_for(*accounts),
    {
        match (self.state, self.auth, self.vault) {
            (Some((state_address, state_bump)), Some((auth_address, auth_bump)), Some(
                (vault_address, vault_bump),
            )) => {
                if state_address == accounts.state.key && auth_address == accounts.auth
                    && vault_address == accounts.vault.key {
                    Some((state_bump, auth_bump, vault_bump))
                } else {
                    None
                }
            },
            _ => None,
        }
    }
}

impl Rederived {
    /// Whether each re-derived address is the supplied one.
    pub open spec fn confirms_all(self, accounts: VaultAccounts) -> bool {
        confirmed(
            accounts,
            address_view(self.state),
            address_view(self.auth),
            address_view(self.vault),
        )
    }

    /// Compares what was re-derived with the supplied addresses.
    pub fn verified(&self, accounts: &VaultAccounts) -> (holds: bool)
        ensures
            holds == self.confirms_all(*accounts),
    {
        confirms(&self.state, &accounts.state.key) && confirms(&self.auth, &accounts.auth)
            && confirms(&self.vault, &accounts.vault.key)
    }
}

/// Searches the three addresses of a vault for the accounts supplied.
pub fn find_all(program_id: &Address, accounts: &VaultAccounts) -> (found: Found)
    ensures
        found_view(found.state) == found_address(
            role_seeds(Role::State, accounts.owner.key@),
            program_id@,
        ),
        found_view(found.auth) == found_address(
            role_seeds(Role::Auth, accounts.state.key@),
            program_id@,
        ),
        found_view(found.vault) == found_address(
            role_seeds(Role::Vault, accounts.auth@),
            program_id@,
        ),
        found.bumps_for(*accounts) == found_bumps(*program_id, *accounts),
{
    Found {
        state: derive_address(Role::State, &accounts.owner.key, program_id),
        auth: derive_address(Role::Auth, &accounts.state.key, program_id),
        vault: derive_address(Role::Vault, &accounts.auth, program_id),
    }
}

/// Re-derives the three addresses of a vault from the bump seeds in its
/// record. Without a record there is nothing to derive from.
pub fn rederive_all(program_id: &Address, accounts: &VaultAccounts) -> (derived: Rederived)
    ensures
        accounts.state.record matches Some(record) ==> address_view(derived.state) == rederived(
            Role::State,
            accounts.owner.key@,
            record.state_bump,
            program_id@,
        ) && address_view(derived.auth) == rederived(
            Role::Auth,
            accounts.state.key@,
            record.auth_bump,
            program_id@,
        ) && address_view(derived.vault) == rederived(
            Role::Vault,
            accounts.auth@,
            record.vault_bump,
            program_id@,
        ),
        accounts.state.record is Some ==> derived.confirms_all(*accounts) == proof_holds(
            *program_id,
            *accounts,
        ),
        accounts.state.record is None ==> derived == (Rederived {
            state: None,
            auth: None,
            vault: None,
        }),
{
    match accounts.state.record {
        Some(record) => Rederived {
            state: rederive_address(Role::State, &accounts.owner.key, record.state_bump, program_id),
            auth: rederive_address(Role::Auth, &accounts.state.key, record.auth_bump, program_id),
            vault: rederive_address(Role::Vault, &accounts.auth, record.vault_bump, program_id),
        },
        None => Rederived { state: None, auth: None, vault: None },
    }
}

/// Bump seeds stored at creation make a proof that holds: each re-derives
/// the address it was found with.
pub proof fn lemma_found_bumps_prove(
    program_id: Address,
    accounts: VaultAccounts,
    created: VaultAccounts,
)
    requires
        found_bumps(program_id, accounts) matches Some(bumps) && created.state.record matches Some(
            record,
        ) && record.state_bump == bumps.0 && record.auth_bump == bumps.1 && record.vault_bump
            == bumps.2,
        created.owner.key == accounts.owner.key,
        created.state.key == accounts.state.key,
        created.auth == accounts.auth,
        created.vault.key == accounts.vault.key,
    ensures
        proof_holds(program_id, created),
{
    lemma_found_role_is_reproducible(Role::State, accounts.owner.key@, program_id@);
    lemma_found_role_is_reproducible(Role::Auth, accounts.state.key@, program_id@);
    lemma_found_role_is_reproducible(Role::Vault, accounts.auth@, program_id@);
}

} // verus!
