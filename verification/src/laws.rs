//! What holds of the vault across its operations.
//!
//! Each law is stated over the same functions that the contracts of
//! `initialize`, `deposit` and `withdraw` are stated over, so it holds of
//! every run of those operations.

use vstd::prelude::*;
use crate::accounts::{VaultAccounts, VaultProgram};
use crate::derivation::{found_bumps, lemma_found_bumps_prove, proof_holds};
use crate::error::ErrorCode;
use crate::interest::{interest_due, lemma_no_principal_no_interest, lemma_no_time_no_interest};
use crate::operations::{
    admission_refusal, amount_owed, deposit_refusal, deposited, initialize_refusal, initialized,
    withdraw_refusal, withdrawn,
};
use crate::record::{phase_of, Configuration, Phase};

verus! {

/// A vault is created empty: nothing on deposit, the clock at rest, the
/// owner recorded, and no lamports moved.
pub proof fn lemma_created_vault_is_empty(
    configuration: Configuration,
    accounts: VaultAccounts,
    bumps: (u8, u8, u8),
    interest_rate: u64,
)
    ensures
        ({
            let created = initialized(configuration, accounts, bumps, interest_rate);
            &&& created.state.record is Some
            &&& created.state.record->0.deposit_amount == 0
            &&& created.state.record->0.deposit_time == 0
            &&& created.state.record->0.owner == accounts.owner.key
            &&& created.owner == accounts.owner
            &&& created.vault == accounts.vault
            &&& created.wf(configuration)
            &&& created.covered()
        }),
{
}

/// The life of a vault: creation takes it from uninitialized to empty; a
/// deposit with interest leaves it deposited, or empty if the amount was
/// nothing; a withdrawal with interest leaves it empty; a plain balance is
/// deposited exactly while the balance is not zero. Deposits and withdrawals
/// need a record and keep it.
pub proof fn lemma_phases(
    configuration: Configuration,
    accounts: VaultAccounts,
    bumps: Option<(u8, u8, u8)>,
    interest_rate: u64,
    amount: u64,
    now: i64,
    verified: bool,
)
    ensures
        initialize_refusal(accounts, bumps) is None ==> phase_of(accounts.state.record)
            == Phase::Uninitialized && phase_of(
            initialized(configuration, accounts, bumps->0, interest_rate).state.record,
        ) == Phase::Empty,
        deposit_refusal(configuration, accounts, amount, verified) is None ==> phase_of(
            accounts.state.record,
        ) != Phase::Uninitialized && phase_of(
            deposited(configuration, accounts, amount, now).state.record,
        ) != Phase::Uninitialized,
        deposit_refusal(Configuration::WithInterest, accounts, amount, verified) is None
            ==> phase_of(
            deposited(Configuration::WithInterest, accounts, amount, now).state.record,
        ) == if amount == 0 {
            Phase::Empty
        } else {
            Phase::Deposited
        },
        withdraw_refusal(configuration, accounts, amount, now, verified) is None ==> phase_of(
            accounts.state.record,
        ) != Phase::Uninitialized && phase_of(
            withdrawn(configuration, accounts, amount, now).state.record,
        ) != Phase::Uninitialized,
        phase_of(withdrawn(Configuration::WithInterest, accounts, amount, now).state.record)
            == Phase::Empty,
{
}

/// A vault is created once: on the accounts that a creation left behind,
/// creation is refused, whatever the rate and whatever the search finds.
pub proof fn lemma_initialize_once(
    configuration: Configuration,
    accounts: VaultAccounts,
    bumps: (u8, u8, u8),
    interest_rate: u64,
    again: Option<(u8, u8, u8)>,
)
    ensures
        initialize_refusal(initialized(configuration, accounts, bumps, interest_rate), again)
            is Some,
        accounts.owner.is_signer && again is Some ==> initialize_refusal(
            initialized(configuration, accounts, bumps, interest_rate),
            again,
        ) == Some(ErrorCode::AlreadyInitialized),
{
}

/// The three addresses of a vault follow from the owner's key alone: two
/// sets of accounts for one owner that both pass the search name the same
/// record, authority and holding account, with the same bump seeds.
pub proof fn lemma_addresses_follow_from_owner(
    program: VaultProgram,
    first: VaultAccounts,
    second: VaultAccounts,
)
    requires
        first.owner.key@ == second.owner.key@,
        found_bumps(program.id, first) is Some,
        found_bumps(program.id, second) is Some,
    ensures
        first.state.key == second.state.key,
        first.auth == second.auth,
        first.vault.key == second.vault.key,
        found_bumps(program.id, first) == found_bumps(program.id, second),
{
    assert(first.state.key@ == second.state.key@);
    assert(first.auth@ == second.auth@);
    assert(first.vault.key@ == second.vault.key@);
    assert(first.state.key.bytes =~= second.state.key.bytes);
    assert(first.auth.bytes =~= second.auth.bytes);
    assert(first.vault.key.bytes =~= second.vault.key.bytes);
}

/// There is one record per owner: once a vault has been created for an
/// owner, creation is refused for that owner whatever accounts are named,
/// as long as the ledger shows the record where it was stored.
pub proof fn lemma_one_record_per_owner(
    program: VaultProgram,
    accounts: VaultAccounts,
    again: VaultAccounts,
)
    requires
        initialize_refusal(accounts, found_bumps(program.id, accounts)) is None,
        again.owner.key@ == accounts.owner.key@,
        again.state.key@ == accounts.state.key@ ==> again.state.record is Some,
    ensures
        initialize_refusal(again, found_bumps(program.id, again)) is Some,
{
    if found_bumps(program.id, again) is Some {
        lemma_addresses_follow_from_owner(program, accounts, again);
    }
}

/// The proof stored at creation is reproducible: the bump seeds found for
/// the supplied addresses re-derive exactly those addresses afterwards.
pub proof fn lemma_creation_proof_holds(
    program: VaultProgram,
    accounts: VaultAccounts,
    interest_rate: u64,
)
    requires
        found_bumps(program.id, accounts) is Some,
    ensures
        proof_holds(
            program.id,
            initialized(
                program.configuration,
                accounts,
                found_bumps(program.id, accounts)->0,
                interest_rate,
            ),
        ),
{
    let bumps = found_bumps(program.id, accounts)->0;
    let created = initialized(program.configuration, accounts, bumps, interest_rate);
    lemma_found_bumps_prove(program.id, accounts, created);
}

/// Deposits and withdrawals leave the derivation proof as it was: they
/// change neither an address nor a bump seed.
pub proof fn lemma_proof_survives(
    program: VaultProgram,
    accounts: VaultAccounts,
    amount: u64,
    now: i64,
)
    requires
        accounts.state.record is Some,
    ensures
        proof_holds(program.id, deposited(program.configuration, accounts, amount, now))
            == proof_holds(program.id, accounts),
        proof_holds(program.id, withdrawn(program.configuration, accounts, amount, now))
            == proof_holds(program.id, accounts),
{
}

/// A deposit moves exactly the amount: the holding account gains it, the
/// owner loses it. With interest the amount becomes the principal and the
/// clock's time its deposit time; a plain balance grows by the amount.
pub proof fn lemma_deposit_moves_amount(
    configuration: Configuration,
    accounts: VaultAccounts,
    amount: u64,
    now: i64,
    verified: bool,
)
    requires
        deposit_refusal(configuration, accounts, amount, verified) is None,
    ensures
        ({
            let before = accounts.state.record->0;
            let after = deposited(configuration, accounts, amount, now);
            &&& after.vault.lamports == accounts.vault.lamports + amount
            &&& after.owner.lamports == accounts.owner.lamports - amount
            &&& configuration == Configuration::WithInterest ==> after.state.record->0.deposit_amount
                == amount && after.state.record->0.deposit_time == now
            &&& configuration == Configuration::PlainBalance ==> after.state.record->0.deposit_amount
                == before.deposit_amount + amount
        }),
{
}

/// A withdrawal whose amount and interest together leave the 64-bit range is
/// refused with `NumberOverflow`.
pub proof fn lemma_overflow_is_refused(accounts: VaultAccounts, amount: u64, now: i64)
    requires
        admission_refusal(accounts, true) is None,
        amount + interest_due(
            accounts.state.record->0.deposit_amount,
            accounts.state.record->0.interest_rate,
            accounts.state.record->0.deposit_time,
            now,
        ) > u64::MAX,
    ensures
        withdraw_refusal(Configuration::WithInterest, accounts, amount, now, true) == Some(
            ErrorCode::NumberOverflow,
        ),
{
}

/// A withdrawal that the holding account cannot cover is refused with
/// `InsufficientFunds`.
pub proof fn lemma_shortfall_is_refused(
    configuration: Configuration,
    accounts: VaultAccounts,
    amount: u64,
    now: i64,
)
    requires
        admission_refusal(accounts, true) is None,
        amount_owed(configuration, accounts.state.record->0, amount, now) <= u64::MAX,
        accounts.vault.lamports < amount_owed(
            configuration,
            accounts.state.record->0,
            amount,
            now,
        ),
    ensures
        withdraw_refusal(configuration, accounts, amount, now, true) == Some(
            ErrorCode::InsufficientFunds,
        ),
{
}

/// A withdrawal with interest leaves the vault empty and the clock at rest,
/// whether or not the amount covered the principal.
pub proof fn lemma_withdrawal_resets(accounts: VaultAccounts, amount: u64, now: i64)
    ensures
        ({
            let after = withdrawn(Configuration::WithInterest, accounts, amount, now);
            &&& after.state.record->0.deposit_amount == 0
            &&& after.state.record->0.deposit_time == 0
            &&& after.wf(Configuration::WithInterest)
            &&& after.covered()
        }),
{
}

/// An empty vault pays no interest: a withdrawal from it pays exactly the
/// amount asked for, out of whatever the holding account still holds. So a
/// second withdrawal after a first is not refused for being a second one.
pub proof fn lemma_empty_vault_pays_amount_only(
    accounts: VaultAccounts,
    first: u64,
    then: i64,
    second: u64,
    later: i64,
)
    ensures
        amount_owed(
            Configuration::WithInterest,
            withdrawn(Configuration::WithInterest, accounts, first, then).state.record->0,
            second,
            later,
        ) == second,
{
    let record = withdrawn(Configuration::WithInterest, accounts, first, then).state.record->0;
    lemma_no_principal_no_interest(record.interest_rate, record.deposit_time, later);
}

/// Round trip: a deposit followed by a withdrawal of the same amount, before
/// the clock has advanced, is not refused and pays back exactly the amount.
/// Both balances are what they were before the deposit.
pub proof fn lemma_round_trip(
    program: VaultProgram,
    accounts: VaultAccounts,
    amount: u64,
    now: i64,
    later: i64,
)
    requires
        deposit_refusal(
            program.configuration,
            accounts,
            amount,
            proof_holds(program.id, accounts),
        ) is None,
        later <= now,
    ensures
        ({
            let held = deposited(program.configuration, accounts, amount, now);
            let back = withdrawn(program.configuration, held, amount, later);
            &&& withdraw_refusal(
                program.configuration,
                held,
                amount,
                later,
                proof_holds(program.id, held),
            ) is None
            &&& amount_owed(program.configuration, held.state.record->0, amount, later) == amount
            &&& back.owner == accounts.owner
            &&& back.vault == accounts.vault
            &&& program.configuration == Configuration::PlainBalance ==> back == accounts
        }),
{
    let held = deposited(program.configuration, accounts, amount, now);
    let record = held.state.record->0;
    lemma_proof_survives(program, accounts, amount, now);
    if program.configuration == Configuration::WithInterest {
        lemma_no_time_no_interest(amount, record.interest_rate, now, later);
    }
}

/// The custody invariant survives every operation that is not refused: if
/// the holding account covered the principal before, it does after.
pub proof fn lemma_custody_survives(
    configuration: Configuration,
    accounts: VaultAccounts,
    amount: u64,
    now: i64,
    verified: bool,
)
    requires
        accounts.covered(),
    ensures
        deposit_refusal(configuration, accounts, amount, verified) is None ==> deposited(
            configuration,
            accounts,
            amount,
            now,
        ).covered(),
        withdraw_refusal(configuration, accounts, amount, now, verified) is None ==> withdrawn(
            configuration,
            accounts,
            amount,
            now,
        ).covered(),
{
}

/// With interest a deposit restores custody whatever came before: the
/// holding account gains the amount that becomes the whole principal.
pub proof fn lemma_deposit_is_covered(
    accounts: VaultAccounts,
    amount: u64,
    now: i64,
    verified: bool,
)
    requires
        deposit_refusal(Configuration::WithInterest, accounts, amount, verified) is None,
    ensures
        deposited(Configuration::WithInterest, accounts, amount, now).covered(),
{
}

/// A well-formed record stays well formed. A deposit of nothing with
/// interest is the one exception: it starts the clock on an empty vault.
pub proof fn lemma_record_stays_well_formed(
    configuration: Configuration,
    accounts: VaultAccounts,
    amount: u64,
    now: i64,
    verified: bool,
)
    requires
        accounts.wf(configuration),
    ensures
        deposit_refusal(configuration, accounts, amount, verified) is None && (amount > 0
            || configuration == Configuration::PlainBalance) ==> deposited(
            configuration,
            accounts,
            amount,
            now,
        ).wf(configuration),
        withdraw_refusal(configuration, accounts, amount, now, verified) is None ==> withdrawn(
            configuration,
            accounts,
            amount,
            now,
        ).wf(configuration),
{
}

/// No operation makes or loses lamports: what the owner and the holding
/// account hold together is the same before and after.
pub proof fn lemma_lamports_are_conserved(
    configuration: Configuration,
    accounts: VaultAccounts,
    amount: u64,
    now: i64,
    verified: bool,
)
    ensures
        deposit_refusal(configuration, accounts, amount, verified) is None ==> deposited(
            configuration,
            accounts,
            amount,
            now,
        ).total_lamports() == accounts.total_lamports(),
        withdraw_refusal(configuration, accounts, amount, now, verified) is None ==> withdrawn(
            configuration,
            accounts,
            amount,
            now,
        ).total_lamports() == accounts.total_lamports(),
{
}

} // verus!
