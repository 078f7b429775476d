//! The record kept for one owner's vault.

use vstd::prelude::*;
use crate::address::Address;

verus! {

/// Which of the two vault designs a program runs. It is fixed when the
/// program is set up and decides the shape of the record and how a
/// withdrawal is computed.
#[derive(Clone, Copy, Debug, PartialEq, Eq, Structural)]
pub enum Configuration {
    /// A deposit replaces the principal and starts the clock; a withdrawal
    /// pays interest and empties the record.
    WithInterest,
    /// Deposits add up and withdrawals subtract; no interest, no clock.
    PlainBalance,
}

/// The state of one owner's vault. There is one record per owner; it is
/// created once and never deleted.
#[derive(Clone, Copy, Debug, PartialEq, Eq)]
pub struct Vault {
    /// The owner, set at creation and never changed.
    pub owner: Address,
    /// The bump seed of the record's own address.
    pub state_bump: u8,
    /// The bump seed of the authority's address.
    pub auth_bump: u8,
    /// The bump seed of the holding account's address.
    pub vault_bump: u8,
    /// The principal: the lamports tracked as on deposit.
    pub deposit_amount: u64,
    /// When the principal was deposited; 0 while nothing is on deposit.
    pub deposit_time: i64,
    /// The yearly rate in basis points, fixed at creation.
    pub interest_rate: u64,
}

/// Where a vault stands in its life. It starts uninitialized, is empty once
/// created, and moves between empty and deposited from then on; it never
/// becomes uninitialized again.
#[derive(Clone, Copy, Debug, PartialEq, Eq, Structural)]
pub enum Phase {
    /// No record exists yet.
    Uninitialized,
    /// The record exists and nothing is on deposit.
    Empty,
    /// A principal is on deposit.
    Deposited,
}

/// The phase that the content of a record account stands for.
pub open spec fn phase_of(record: Option<Vault>) -> Phase {
    match record {
        None => Phase::Uninitialized,
        Some(vault) => if vault.deposit_amount == 0 {
            Phase::Empty
        } else {
            Phase::Deposited
        },
    }
}

/// Tells the phase of a vault from the content of its record account.
pub fn phase(record: &Option<Vault>) -> (phase: Phase)
    ensures
        phase == phase_of(*record),
{
    match record {
        None => Phase::Uninitialized,
        Some(vault) => if vault.deposit_amount == 0 {
            Phase::Empty
        } else {
            Phase::Deposited
        },
    }
}

/// Length of the prefix that marks an account as a vault record.
pub const DISCRIMINATOR_LEN: usize = 8;

/// Length of an address in a record.
pub const ADDRESS_LEN: usize = 32;

/// Length of a 64-bit field in a record.
pub const WORD_LEN: usize = 8;

/// Length of the three bump seeds in a record.
pub const BUMPS_LEN: usize = 3;

impl Vault {
    /// What every record satisfies under its configuration: with interest, an
    /// empty vault has no deposit time; a plain balance has neither a deposit
    /// time nor a rate.
    pub open spec fn wf(self, configuration: Configuration) -> bool {
        match configuration {
            Configuration::WithInterest => self.deposit_amount == 0 ==> self.deposit_time == 0,
            Configuration::PlainBalance => self.deposit_time == 0 && self.interest_rate == 0,
        }
    }

    /// The record of a vault that has just been created: nothing on deposit,
    /// the clock at rest. A plain balance keeps no rate.
    pub open spec fn created(
        configuration: Configuration,
        owner: Address,
        bumps: (u8, u8, u8),
        interest_rate: u64,
    ) -> Vault {
        Vault {
            owner,
            state_bump: bumps.0,
            auth_bump: bumps.1,
            vault_bump: bumps.2,
            deposit_amount: 0,
            deposit_time: 0,
            interest_rate: match configuration {
                Configuration::WithInterest => interest_rate,
                Configuration::PlainBalance => 0,
            },
        }
    }

    /// Creates the record of a new vault.
    pub fn new(
        configuration: Configuration,
        owner: Address,
        bumps: (u8, u8, u8),
        interest_rate: u64,
    ) -> (record: Vault)
        ensures
            record == Vault::created(configuration, owner, bumps, interest_rate),
            record.wf(configuration),
    {
        let kept_rate = match configuration {
            Configuration::WithInterest => interest_rate,
            Configuration::PlainBalance => 0,
        };
        Vault {
            owner,
            state_bump: bumps.0,
            auth_bump: bumps.1,
            vault_bump: bumps.2,
            deposit_amount: 0,
            deposit_time: 0,
            interest_rate: kept_rate,
        }
    }

    /// The bytes a stored record takes: the sum of its fields as laid out
    /// under the configuration.
    pub open spec fn stored_len(configuration: Configuration) -> nat {
        match configuration {
            // prefix, owner, three bump seeds, principal, deposit time, rate
            Configuration::WithInterest => (DISCRIMINATOR_LEN + ADDRESS_LEN + BUMPS_LEN + WORD_LEN
                + WORD_LEN + WORD_LEN) as nat,
            // prefix, owner, balance, three bump seeds
            Configuration::PlainBalance => (DISCRIMINATOR_LEN + ADDRESS_LEN + WORD_LEN
                + BUMPS_LEN) as nat,
        }
    }

    /// The bytes to reserve for a stored record.
    pub fn space(configuration: Configuration) -> (size: usize)
        ensures
            size == Vault::stored_len(configuration),
            configuration == Configuration::WithInterest ==> size == 67,
            configuration == Configuration::PlainBalance ==> size == 51,
    {
        match configuration {
            Configuration::WithInterest => DISCRIMINATOR_LEN + ADDRESS_LEN + BUMPS_LEN + WORD_LEN
                + WORD_LEN + WORD_LEN,
            Configuration::PlainBalance => DISCRIMINATOR_LEN + ADDRESS_LEN + WORD_LEN + BUMPS_LEN,
        }
    }
}

} // verus!
