//! A custodial vault: an owner deposits lamports into a holding account that
//! only this program can release, and later withdraws them, optionally with
//! interest that grows with the time on deposit.
//!
//! The holding account has no private key. Its address, and the address of
//! the authority that signs for it, are derived from the owner's identity;
//! the record keeps the bump seeds that reproduce them.

pub mod error;
pub mod address;
pub mod derivation;
pub mod interest;
pub mod record;
pub mod layout;
pub mod accounts;
pub mod transfer;
pub mod operations;
pub mod laws;

pub use crate::accounts::{
    DepositContext, HoldingAccount, InitializeContext, OwnerAccount, RecordAccount, VaultAccounts,
    VaultProgram, WithdrawContext,
};
pub use crate::address::Address;
pub use crate::error::ErrorCode;
pub use crate::operations::{deposit, initialize, withdraw};
pub use crate::record::{Configuration, Phase, Vault};
