//! The ways an operation on the vault is refused.

use vstd::prelude::*;

verus! {

/// Why an invocation was refused. Every refusal is final for the invocation
/// and leaves all accounts as they were.
#[derive(Clone, Copy, Debug, PartialEq, Eq, Structural)]
pub enum ErrorCode {
    /// The holding account cannot cover the amount owed.
    InsufficientFunds,
    /// An amount left the 64-bit range.
    NumberOverflow,
    /// The owner did not authorize the invocation.
    MissingSignature,
    /// A supplied address is not the one derived for its role.
    AddressMismatch,
    /// The record belongs to another owner.
    OwnerMismatch,
    /// A record already exists for this owner.
    AlreadyInitialized,
    /// No record exists for this owner yet.
    Uninitialized,
    /// The owner's account cannot cover the deposit.
    InsufficientOwnerFunds,
}

impl ErrorCode {
    /// The text shown to a caller for each refusal.
    pub open spec fn message_text(self) -> Seq<char> {
        match self {
            ErrorCode::InsufficientFunds => "Insufficient funds in vault"@,
            ErrorCode::NumberOverflow => "Number overflow occurred"@,
            ErrorCode::MissingSignature => "Owner signature missing"@,
            ErrorCode::AddressMismatch => "Address does not match its derivation"@,
            ErrorCode::OwnerMismatch => "Vault belongs to another owner"@,
            ErrorCode::AlreadyInitialized => "Vault already initialized"@,
            ErrorCode::Uninitialized => "Vault not initialized"@,
            ErrorCode::InsufficientOwnerFunds => "Insufficient funds in owner account"@,
        }
    }

    /// Renders the refusal as its message.
    pub fn message(&self) -> (text: String)
        ensures
            text@ == self.message_text(),
    {
        match self {
            ErrorCode::InsufficientFunds => "Insufficient funds in vault".to_owned(),
            ErrorCode::NumberOverflow => "Number overflow occurred".to_owned(),
            ErrorCode::MissingSignature => "Owner signature missing".to_owned(),
            ErrorCode::AddressMismatch => "Address does not match its derivation".to_owned(),
            ErrorCode::OwnerMismatch => "Vault belongs to another owner".to_owned(),
            ErrorCode::AlreadyInitialized => "Vault already initialized".to_owned(),
            ErrorCode::Uninitialized => "Vault not initialized".to_owned(),
            ErrorCode::InsufficientOwnerFunds => "Insufficient funds in owner account".to_owned(),
        }
    }
}

} // verus!
