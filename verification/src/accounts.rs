//! The accounts that the ledger hands to one invocation.
//!
//! The ledger resolves and locks the accounts an invocation names, runs the
//! invocation alone on them, and commits all of its changes or none. An
//! invocation therefore sees each account as a plain value.

use vstd::prelude::*;
use crate::address::Address;
use crate::record::{Configuration, Vault};

verus! {

/// The identity and configuration of the vault program, given once when the
/// program is set up.
#[derive(Clone, Copy, Debug, PartialEq, Eq)]
pub struct VaultProgram {
    /// The program's own address, under which all addresses are derived.
    pub id: Address,
    /// Which vault design the program runs.
    pub configuration: Configuration,
}

/// The owner's own account, which a private key controls.
#[derive(Clone, Copy, Debug, PartialEq, Eq)]
pub struct OwnerAccount {
    pub key: Address,
    pub lamports: u64,
    /// Whether the owner signed the transaction.
    pub is_signer: bool,
}

/// The account at the record's address: empty until the vault is created.
#[derive(Clone, Copy, Debug, PartialEq, Eq)]
pub struct RecordAccount {
    pub key: Address,
    pub record: Option<Vault>,
}

/// The holding account, which custodies the deposit and has no private key.
#[derive(Clone, Copy, Debug, PartialEq, Eq)]
pub struct HoldingAccount {
    pub key: Address,
    pub lamports: u64,
}

/// The accounts of one owner's vault.
#[derive(Clone, Copy, Debug, PartialEq, Eq)]
pub struct VaultAccounts {
    pub owner: OwnerAccount,
    pub state: RecordAccount,
    /// The authority: an address only, never funded and never written.
    pub auth: Address,
    pub vault: HoldingAccount,
}

impl VaultAccounts {
    /// The custody invariant: the holding account covers the principal.
    pub open spec fn covered(self) -> bool {
        self.state.record matches Some(record) ==> self.vault.lamports >= record.deposit_amount
    }

    /// The record, if there is one, is well formed.
    pub open spec fn wf(self, configuration: Configuration) -> bool {
        self.state.record matches Some(record) ==> record.wf(configuration)
    }

    /// The lamports of the owner and of the holding account together.
    pub open spec fn total_lamports(self) -> int {
        self.owner.lamports + self.vault.lamports
    }
}

/// What `initialize` works on.
#[derive(Clone, Copy, Debug, PartialEq, Eq)]
pub struct InitializeContext {
    pub program: VaultProgram,
    pub accounts: VaultAccounts,
}

/// What `deposit` works on.
#[derive(Clone, Copy, Debug, PartialEq, Eq)]
pub struct DepositContext {
    pub program: VaultProgram,
    pub accounts: VaultAccounts,
    /// The ledger's clock, in seconds.
    pub unix_timestamp: i64,
}

/// What `withdraw` works on.
#[derive(Clone, Copy, Debug, PartialEq, Eq)]
pub struct WithdrawContext {
    pub program: VaultProgram,
    pub accounts: VaultAccounts,
    /// The ledger's clock, in seconds.
    pub unix_timestamp: i64,
}

} // verus!
