//! The three operations on a vault: create it, deposit into it, withdraw
//! from it.
//!
//! A vault is empty after creation, holds a deposit after `deposit`, and
//! with interest is empty again after every withdrawal. An operation checks
//! everything before it changes anything: when it refuses, the accounts are
//! exactly as they were.

use vstd::prelude::*;
use crate::accounts::{
    DepositContext, HoldingAccount, InitializeContext, OwnerAccount, RecordAccount, VaultAccounts,
    WithdrawContext,
};
use crate::derivation::{
    find_all, found_bumps, lemma_found_bumps_prove, proof_holds, rederive_all, Found, Rederived,
};
use crate::error::ErrorCode;
use crate::interest::{accrued_interest, interest_due};
use crate::record::{Configuration, Vault};
use crate::transfer::{inbound_refusal, outcome, transfer_in, transfer_out};

verus! {

/// Why creation is refused, if it is. `bumps` are the bump seeds found for
/// the supplied addresses, absent if an address is not the derived one.
pub open spec fn initialize_refusal(accounts: VaultAccounts, bumps: Option<(u8, u8, u8)>) -> Option<
    ErrorCode,
> {
    if !accounts.owner.is_signer {
        Some(ErrorCode::MissingSignature)
    } else if bumps is None {
        Some(ErrorCode::AddressMismatch)
    } else if accounts.state.record is Some {
        Some(ErrorCode::AlreadyInitialized)
    } else {
        None
    }
}

/// The accounts after creation: a fresh record in the record account,
/// nothing else touched.
pub open spec fn initialized(
    configuration: Configuration,
    accounts: VaultAccounts,
    bumps: (u8, u8, u8),
    interest_rate: u64,
) -> VaultAccounts {
    VaultAccounts {
        state: RecordAccount {
            record: Some(Vault::created(configuration, accounts.owner.key, bumps, interest_rate)),
            ..accounts.state
        },
        ..accounts
    }
}

/// Why an operation on an existing vault is refused before it looks at any
/// amount. `verified` says whether the derivation proof holds.
pub open spec fn admission_refusal(accounts: VaultAccounts, verified: bool) -> Option<ErrorCode> {
    if !accounts.owner.is_signer {
        Some(ErrorCode::MissingSignature)
    } else if accounts.state.record is None {
        Some(ErrorCode::Uninitialized)
    } else if accounts.state.record->0.owner@ != accounts.owner.key@ {
        Some(ErrorCode::OwnerMismatch)
    } else if !verified {
        Some(ErrorCode::AddressMismatch)
    } else {
        None
    }
}

/// Why a deposit is refused, if it is.
pub open spec fn deposit_refusal(
    configuration: Configuration,
    accounts: VaultAccounts,
    amount: u64,
    verified: bool,
) -> Option<ErrorCode> {
    if admission_refusal(accounts, verified) is Some {
        admission_refusal(accounts, verified)
    } else if configuration == Configuration::PlainBalance
        && accounts.state.record->0.deposit_amount + amount > u64::MAX {
        Some(ErrorCode::NumberOverflow)
    } else {
        inbound_refusal(accounts.owner, accounts.vault, amount)
    }
}

/// The record after a deposit. With interest the deposit replaces the
/// principal and restarts the clock, whatever was on deposit before; a plain
/// balance grows by the amount.
pub open spec fn deposited_record(
    configuration: Configuration,
    record: Vault,
    amount: u64,
    now: i64,
) -> Vault {
    match configuration {
        Configuration::WithInterest => Vault {
            deposit_amount: amount,
            deposit_time: now,
            ..record
        },
        Configuration::PlainBalance => Vault {
            deposit_amount: (record.deposit_amount + amount) as u64,
            ..record
        },
    }
}

/// The accounts after a deposit that was not refused.
pub open spec fn deposited(
    configuration: Configuration,
    accounts: VaultAccounts,
    amount: u64,
    now: i64,
) -> VaultAccounts {
    VaultAccounts {
        owner: OwnerAccount { lamports: (accounts.owner.lamports - amount) as u64, ..accounts.owner },
        state: RecordAccount {
            record: Some(deposited_record(configuration, accounts.state.record->0, amount, now)),
            ..accounts.state
        },
        auth: accounts.auth,
        vault: HoldingAccount {
            lamports: (accounts.vault.lamports + amount) as u64,
            ..accounts.vault
        },
    }
}

/// What a withdrawal of `amount` pays out. With interest: the amount plus
/// the interest accrued on the principal since its deposit. Plain: the amount.
pub open spec fn amount_owed(configuration: Configuration, record: Vault, amount: u64, now: i64)
    -> int {
    match configuration {
        Configuration::WithInterest => amount + interest_due(
            record.deposit_amount,
            record.interest_rate,
            record.deposit_time,
            now,
        ),
        Configuration::PlainBalance => amount as int,
    }
}

/// Why a withdrawal is refused, if it is.
pub open spec fn withdraw_refusal(
    configuration: Configuration,
    accounts: VaultAccounts,
    amount: u64,
    now: i64,
    verified: bool,
) -> Option<ErrorCode> {
    let record = accounts.state.record->0;
    let owed = amount_owed(configuration, record, amount, now);
    if admission_refusal(accounts, verified) is Some {
        admission_refusal(accounts, verified)
    } else if owed > u64::MAX {
        Some(ErrorCode::NumberOverflow)
    } else if configuration == Configuration::PlainBalance && amount > record.deposit_amount {
        Some(ErrorCode::InsufficientFunds)
    } else if accounts.vault.lamports < owed {
        Some(ErrorCode::InsufficientFunds)
    } else if accounts.owner.lamports + owed > u64::MAX {
        Some(ErrorCode::NumberOverflow)
    } else {
        None
    }
}

/// The record after a withdrawal. With interest the vault is emptied and the
/// clock reset, whether or not the amount covered the principal; a plain
/// balance shrinks by the amount.
pub open spec fn withdrawn_record(configuration: Configuration, record: Vault, amount: u64)
    -> Vault {
    match configuration {
        Configuration::WithInterest => Vault { deposit_amount: 0, deposit_time: 0, ..record },
        Configuration::PlainBalance => Vault {
            deposit_amount: (record.deposit_amount - amount) as u64,
            ..record
        },
    }
}

/// The accounts after a withdrawal that was not refused.
pub open spec fn withdrawn(
    configuration: Configuration,
    accounts: VaultAccounts,
    amount: u64,
    now: i64,
) -> VaultAccounts {
    let record = accounts.state.record->0;
    let owed = amount_owed(configuration, record, amount, now);
    VaultAccounts {
        owner: OwnerAccount { lamports: (accounts.owner.lamports + owed) as u64, ..accounts.owner },
        state: RecordAccount {
            record: Some(withdrawn_record(configuration, record, amount)),
            ..accounts.state
        },
        auth: accounts.auth,
        vault: HoldingAccount {
            lamports: (accounts.vault.lamports - owed) as u64,
            ..accounts.vault
        },
    }
}

/// Creates the owner's vault, given what the search found for the three
/// addresses: stores a fresh record with the owner, the bump seeds found and
/// the rate. Moves no lamports. Refused if the owner did not sign, if a
/// supplied address is not the one found, or if the record already exists.
pub fn initialize_with(ctx: &mut InitializeContext, interest_rate: u64, found: &Found) -> (result:
    Result<(), ErrorCode>)
    ensures
        result == outcome(
            initialize_refusal(old(ctx).accounts, found.bumps_for(old(ctx).accounts)),
        ),
        result is Err ==> *final(ctx) == *old(ctx),
        result is Ok ==> final(ctx).accounts == initialized(
            old(ctx).program.configuration,
            old(ctx).accounts,
            found.bumps_for(old(ctx).accounts)->0,
            interest_rate,
        ),
        result is Ok ==> final(ctx).accounts.wf(old(ctx).program.configuration),
        result is Ok ==> final(ctx).accounts.covered(),
        final(ctx).program == old(ctx).program,
{
    if !ctx.accounts.owner.is_signer {
        return Err(ErrorCode::MissingSignature);
    }
    let bumps = match found.matched(&ctx.accounts) {
        Some(bumps) => bumps,
        None => {
            return Err(ErrorCode::AddressMismatch);
        },
    };
    if ctx.accounts.state.record.is_some() {
        return Err(ErrorCode::AlreadyInitialized);
    }
    ctx.accounts.state.record = Some(
        Vault::new(ctx.program.configuration, ctx.accounts.owner.key, bumps, interest_rate),
    );
    Ok(())
}

/// Creates the owner's vault: searches the three addresses from the owner's
/// key, checks the supplied addresses against them, and stores a fresh
/// record. The stored bump seeds are a proof that holds from then on.
pub fn initialize(ctx: &mut InitializeContext, interest_rate: u64) -> (result: Result<
    (),
    ErrorCode,
>)
    ensures
        result == outcome(
            initialize_refusal(old(ctx).accounts, found_bumps(old(ctx).program.id, old(ctx).accounts)),
        ),
        result is Err ==> *final(ctx) == *old(ctx),
        result is Ok ==> final(ctx).accounts == initialized(
            old(ctx).program.configuration,
            old(ctx).accounts,
            found_bumps(old(ctx).program.id, old(ctx).accounts)->0,
            interest_rate,
        ),
        result is Ok ==> proof_holds(final(ctx).program.id, final(ctx).accounts),
        result is Ok ==> final(ctx).accounts.wf(old(ctx).program.configuration),
        result is Ok ==> final(ctx).accounts.covered(),
        final(ctx).program == old(ctx).program,
{
    let found = find_all(&ctx.program.id, &ctx.accounts);
    let result = initialize_with(ctx, interest_rate, &found);
    proof {
        if result is Ok {
            lemma_found_bumps_prove(old(ctx).program.id, old(ctx).accounts, ctx.accounts);
        }
    }
    result
}

/// Authorizes an operation on an existing vault, given what the stored bump
/// seeds re-derive, and hands out the record.
pub fn authorize(accounts: &VaultAccounts, rederived: &Rederived) -> (result: Result<Vault, ErrorCode>)
    ensures
        match result {
            Ok(record) => admission_refusal(*accounts, rederived.confirms_all(*accounts)) is None
                && accounts.state.record == Some(record),
            Err(error) => admission_refusal(*accounts, rederived.confirms_all(*accounts)) == Some(
                error,
            ),
        },
{
    if !accounts.owner.is_signer {
        return Err(ErrorCode::MissingSignature);
    }
    let record = match accounts.state.record {
        Some(record) => record,
        None => {
            return Err(ErrorCode::Uninitialized);
        },
    };
    if !(record.owner == accounts.owner.key) {
        return Err(ErrorCode::OwnerMismatch);
    }
    if !rederived.verified(accounts) {
        return Err(ErrorCode::AddressMismatch);
    }
    Ok(record)
}

/// Deposits `amount` lamports, given what the stored bump seeds re-derive:
/// moves the amount from the owner to the holding account and records it.
pub fn deposit_with(ctx: &mut DepositContext, amount: u64, rederived: &Rederived) -> (result:
    Result<(), ErrorCode>)
    ensures
        result == outcome(
            deposit_refusal(
                old(ctx).program.configuration,
                old(ctx).accounts,
                amount,
                rederived.confirms_all(old(ctx).accounts),
            ),
        ),
        result is Err ==> *final(ctx) == *old(ctx),
        result is Ok ==> final(ctx).accounts == deposited(
            old(ctx).program.configuration,
            old(ctx).accounts,
            amount,
            old(ctx).unix_timestamp,
        ),
        final(ctx).program == old(ctx).program,
        final(ctx).unix_timestamp == old(ctx).unix_timestamp,
{
    let record = match authorize(&ctx.accounts, rederived) {
        Ok(record) => record,
        Err(error) => {
            return Err(error);
        },
    };
    let (principal, deposit_time) = match ctx.program.configuration {
        Configuration::WithInterest => (amount, ctx.unix_timestamp),
        Configuration::PlainBalance => match record.deposit_amount.checked_add(amount) {
            Some(sum) => (sum, record.deposit_time),
            None => {
                return Err(ErrorCode::NumberOverflow);
            },
        },
    };
    let mut owner = ctx.accounts.owner;
    let mut holding = ctx.accounts.vault;
    match transfer_in(&mut owner, &mut holding, amount) {
        Ok(()) => {},
        Err(error) => {
            return Err(error);
        },
    }
    ctx.accounts.owner = owner;
    ctx.accounts.vault = holding;
    ctx.accounts.state.record = Some(
        Vault {
            owner: record.owner,
            state_bump: record.state_bump,
            auth_bump: record.auth_bump,
            vault_bump: record.vault_bump,
            deposit_amount: principal,
            deposit_time,
            interest_rate: record.interest_rate,
        },
    );
    Ok(())
}

/// Deposits `amount` lamports into the owner's vault at the time the
/// context's clock shows. With interest the amount becomes the principal and
/// the clock's time its deposit time; a plain balance grows by the amount.
/// The holding account gains exactly the amount, the owner loses it.
pub fn deposit(ctx: &mut DepositContext, amount: u64) -> (result: Result<(), ErrorCode>)
    ensures
        result == outcome(
            deposit_refusal(
                old(ctx).program.configuration,
                old(ctx).accounts,
                amount,
                proof_holds(old(ctx).program.id, old(ctx).accounts),
            ),
        ),
        result is Err ==> *final(ctx) == *old(ctx),
        result is Ok ==> final(ctx).accounts == deposited(
            old(ctx).program.configuration,
            old(ctx).accounts,
            amount,
            old(ctx).unix_timestamp,
        ),
        final(ctx).program == old(ctx).program,
        final(ctx).unix_timestamp == old(ctx).unix_timestamp,
{
    let rederived = rederive_all(&ctx.program.id, &ctx.accounts);
    deposit_with(ctx, amount, &rederived)
}

/// Withdraws from the owner's vault, given what the stored bump seeds
/// re-derive, and returns the lamports paid out.
pub fn withdraw_with(ctx: &mut WithdrawContext, amount: u64, rederived: &Rederived) -> (result:
    Result<u64, ErrorCode>)
    ensures
        match result {
            Ok(paid) => withdraw_refusal(
                old(ctx).program.configuration,
                old(ctx).accounts,
                amount,
                old(ctx).unix_timestamp,
                rederived.confirms_all(old(ctx).accounts),
            ) is None && paid == amount_owed(
                old(ctx).program.configuration,
                old(ctx).accounts.state.record->0,
                amount,
                old(ctx).unix_timestamp,
            ) && final(ctx).accounts == withdrawn(
                old(ctx).program.configuration,
                old(ctx).accounts,
                amount,
                old(ctx).unix_timestamp,
            ),
            Err(error) => withdraw_refusal(
                old(ctx).program.configuration,
                old(ctx).accounts,
                amount,
                old(ctx).unix_timestamp,
                rederived.confirms_all(old(ctx).accounts),
            ) == Some(error) && *final(ctx) == *old(ctx),
        },
        final(ctx).program == old(ctx).program,
        final(ctx).unix_timestamp == old(ctx).unix_timestamp,
{
    let record = match authorize(&ctx.accounts, rederived) {
        Ok(record) => record,
        Err(error) => {
            return Err(error);
        },
    };
    let (owed, principal, deposit_time) = match ctx.program.configuration {
        Configuration::WithInterest => {
            let interest = accrued_interest(
                record.deposit_amount,
                record.interest_rate,
                record.deposit_time,
                ctx.unix_timestamp,
            );
            match amount.checked_add(interest) {
                Some(total) => (total, 0u64, 0i64),
                None => {
                    return Err(ErrorCode::NumberOverflow);
                },
            }
        },
        Configuration::PlainBalance => match record.deposit_amount.checked_sub(amount) {
            Some(rest) => (amount, rest, record.deposit_time),
            None => {
                return Err(ErrorCode::InsufficientFunds);
            },
        },
    };
    let mut owner = ctx.accounts.owner;
    let mut holding = ctx.accounts.vault;
    match transfer_out(&mut holding, &mut owner, owed, &rederived.vault) {
        Ok(()) => {},
        Err(error) => {
            return Err(error);
        },
    }
    ctx.accounts.owner = owner;
    ctx.accounts.vault = holding;
    ctx.accounts.state.record = Some(
        Vault {
            owner: record.owner,
            state_bump: record.state_bump,
            auth_bump: record.auth_bump,
            vault_bump: record.vault_bump,
            deposit_amount: principal,
            deposit_time,
            interest_rate: record.interest_rate,
        },
    );
    Ok(owed)
}

/// Withdraws from the owner's vault at the time the context's clock shows,
/// and returns the lamports paid out. With interest: pays `amount` plus the
/// interest accrued on the principal, refuses with `NumberOverflow` if that
/// sum leaves the 64-bit range and with `InsufficientFunds` if the holding
/// account cannot cover it, then empties the record. Plain: pays `amount`
/// and subtracts it from the balance, refusing with `InsufficientFunds` if
/// the balance or the holding account is smaller. The holding account pays
/// on the derivation proof in place of a signature.
pub fn withdraw(ctx: &mut WithdrawContext, amount: u64) -> (result: Result<u64, ErrorCode>)
    ensures
        match result {
            Ok(paid) => withdraw_refusal(
                old(ctx).program.configuration,
                old(ctx).accounts,
                amount,
                old(ctx).unix_timestamp,
                proof_holds(old(ctx).program.id, old(ctx).accounts),
            ) is None && paid == amount_owed(
                old(ctx).program.configuration,
                old(ctx).accounts.state.record->0,
                amount,
                old(ctx).unix_timestamp,
            ) && final(ctx).accounts == withdrawn(
                old(ctx).program.configuration,
                old(ctx).accounts,
                amount,
                old(ctx).unix_timestamp,
            ),
            Err(error) => withdraw_refusal(
                old(ctx).program.configuration,
                old(ctx).accounts,
                amount,
                old(ctx).unix_timestamp,
                proof_holds(old(ctx).program.id, old(ctx).accounts),
            ) == Some(error) && *final(ctx) == *old(ctx),
        },
        final(ctx).program == old(ctx).program,
        final(ctx).unix_timestamp == old(ctx).unix_timestamp,
{
    let rederived = rederive_all(&ctx.program.id, &ctx.accounts);
    withdraw_with(ctx, amount, &rederived)
}

} // verus!
