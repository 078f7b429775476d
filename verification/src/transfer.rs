//! Moving lamports between the owner's account and the holding account.
//!
//! Lamports enter the holding account on the owner's signature. They leave
//! it on no signature at all, since the holding account has no key: the
//! program presents the seed sequence of the holding account instead, and
//! the transfer is authorized only if that sequence derives the holding
//! account's address. A transfer moves the whole amount or nothing.

use vstd::prelude::*;
use crate::accounts::{HoldingAccount, OwnerAccount};
use crate::address::Address;
use crate::derivation::{address_view, confirms};
use crate::error::ErrorCode;

verus! {

/// A refusal as a result: `None` lets the operation proceed.
pub open spec fn outcome(refusal: Option<ErrorCode>) -> Result<(), ErrorCode> {
    match refusal {
        Some(error) => Err(error),
        None => Ok(()),
    }
}

/// Why a transfer into the holding account is refused, if it is.
pub open spec fn inbound_refusal(owner: OwnerAccount, holding: HoldingAccount, amount: u64)
    -> Option<ErrorCode> {
    if !owner.is_signer {
        Some(ErrorCode::MissingSignature)
    } else if owner.lamports < amount {
        Some(ErrorCode::InsufficientOwnerFunds)
    } else if holding.lamports + amount > u64::MAX {
        Some(ErrorCode::NumberOverflow)
    } else {
        None
    }
}

/// Why a transfer out of the holding account is refused, if it is.
/// `authority` is the address that the presented seed sequence derives.
pub open spec fn outbound_refusal(
    holding: HoldingAccount,
    owner: OwnerAccount,
    amount: u64,
    authority: Option<Seq<u8>>,
) -> Option<ErrorCode> {
    if authority != Some(holding.key@) {
        Some(ErrorCode::AddressMismatch)
    } else if holding.lamports < amount {
        Some(ErrorCode::InsufficientFunds)
    } else if owner.lamports + amount > u64::MAX {
        Some(ErrorCode::NumberOverflow)
    } else {
        None
    }
}

/// Moves `amount` lamports from the owner's account into the holding
/// account, on the owner's signature.
pub fn transfer_in(owner: &mut OwnerAccount, holding: &mut HoldingAccount, amount: u64) -> (result:
    Result<(), ErrorCode>)
    ensures
        result == outcome(inbound_refusal(*old(owner), *old(holding), amount)),
        result is Err ==> *final(owner) == *old(owner) && *final(holding) == *old(holding),
        result is Ok ==> final(owner).lamports == old(owner).lamports - amount,
        result is Ok ==> final(holding).lamports == old(holding).lamports + amount,
        final(owner).key == old(owner).key,
        final(owner).is_signer == old(owner).is_signer,
        final(holding).key == old(holding).key,
{
    if !owner.is_signer {
        return Err(ErrorCode::MissingSignature);
    }
    if owner.lamports < amount {
        return Err(ErrorCode::InsufficientOwnerFunds);
    }
    match holding.lamports.checked_add(amount) {
        None => Err(ErrorCode::NumberOverflow),
        Some(credited) => {
            owner.lamports = owner.lamports - amount;
            holding.lamports = credited;
            Ok(())
        },
    }
}

/// Moves `amount` lamports from the holding account to the owner's account.
/// No signature is asked for: `authority`, the address that the presented
/// seed sequence derives, must be the holding account's own address.
pub fn transfer_out(
    holding: &mut HoldingAccount,
    owner: &mut OwnerAccount,
    amount: u64,
    authority: &Option<Address>,
) -> (result: Result<(), ErrorCode>)
    ensures
        result == outcome(
            outbound_refusal(*old(holding), *old(owner), amount, address_view(*authority)),
        ),
        result is Err ==> *final(owner) == *old(owner) && *final(holding) == *old(holding),
        result is Ok ==> final(holding).lamports == old(holding).lamports - amount,
        result is Ok ==> final(owner).lamports == old(owner).lamports + amount,
        final(owner).key == old(owner).key,
        final(owner).is_signer == old(owner).is_signer,
        final(holding).key == old(holding).key,
{
    if !confirms(authority, &holding.key) {
        return Err(ErrorCode::AddressMismatch);
    }
    if holding.lamports < amount {
        return Err(ErrorCode::InsufficientFunds);
    }
    match owner.lamports.checked_add(amount) {
        None => Err(ErrorCode::NumberOverflow),
        Some(credited) => {
            holding.lamports = holding.lamports - amount;
            owner.lamports = credited;
            Ok(())
        },
    }
}

} // verus!
