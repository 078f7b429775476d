use vault_program::error::ErrorCode;
use vault_program::record::{phase, Configuration, Phase, Vault};
use vault_program::Address;

fn sample() -> Vault {
    let mut owner = [0u8; 32];
    let mut i = 0;
    while i < 32 {
        owner[i] = (i + 1) as u8;
        i += 1;
    }
    Vault {
        owner: Address::new(owner),
        state_bump: 255,
        auth_bump: 254,
        vault_bump: 251,
        deposit_amount: 0x0102_0304_0506_0708,
        deposit_time: 1_700_000_000,
        interest_rate: 500,
    }
}

const PREFIX: [u8; 8] = [211, 8, 232, 43, 2, 152, 117, 119];

#[test]
fn space_is_the_sum_of_the_fields() {
    assert_eq!(Vault::space(Configuration::WithInterest), 8 + 32 + 1 + 1 + 1 + 8 + 8 + 8);
    assert_eq!(Vault::space(Configuration::WithInterest), 67);
    assert_eq!(Vault::space(Configuration::PlainBalance), 8 + 32 + 8 + 1 + 1 + 1);
    assert_eq!(Vault::space(Configuration::PlainBalance), 51);
}

#[test]
fn new_record_is_empty() {
    let owner = Address::new([7u8; 32]);
    assert_eq!(
        Vault::new(Configuration::WithInterest, owner, (9, 8, 7), 500),
        Vault {
            owner,
            state_bump: 9,
            auth_bump: 8,
            vault_bump: 7,
            deposit_amount: 0,
            deposit_time: 0,
            interest_rate: 500,
        }
    );
    assert_eq!(Vault::new(Configuration::PlainBalance, owner, (9, 8, 7), 500).interest_rate, 0);
}

#[test]
fn stored_form_with_interest() {
    let record = sample();
    let mut expected: Vec<u8> = PREFIX.to_vec();
    expected.extend_from_slice(&record.owner.bytes);
    expected.extend_from_slice(&[255, 254, 251]);
    expected.extend_from_slice(&[8, 7, 6, 5, 4, 3, 2, 1]);
    expected.extend_from_slice(&1_700_000_000i64.to_le_bytes());
    expected.extend_from_slice(&500u64.to_le_bytes());
    assert_eq!(record.encode(Configuration::WithInterest), expected);
    assert_eq!(expected.len(), 67);
    assert_eq!(&expected[51..59], &[0x00, 0xf1, 0x53, 0x65, 0, 0, 0, 0]);
    assert_eq!(&expected[59..67], &[0xf4, 0x01, 0, 0, 0, 0, 0, 0]);
}

#[test]
fn stored_form_of_a_plain_balance() {
    let record = sample();
    let mut expected: Vec<u8> = PREFIX.to_vec();
    expected.extend_from_slice(&record.owner.bytes);
    expected.extend_from_slice(&[8, 7, 6, 5, 4, 3, 2, 1]);
    expected.extend_from_slice(&[255, 254, 251]);
    assert_eq!(record.encode(Configuration::PlainBalance), expected);
    assert_eq!(expected.len(), 51);
}

#[test]
fn stored_form_round_trips() {
    let mut record = sample();
    let times = [0, 1, -1, i64::MAX, i64::MIN, 1_700_000_000, -1_700_000_000, 255, 256, -256];
    let amounts = [0, 1, 255, 256, 65_535, 65_536, u64::MAX, u64::MAX - 1, 1 << 63, 0xff00_ff00];
    for time in times.iter() {
        for amount in amounts.iter() {
            record.deposit_time = *time;
            record.deposit_amount = *amount;
            record.interest_rate = amount.wrapping_mul(31);
            let bytes = record.encode(Configuration::WithInterest);
            assert_eq!(bytes.len(), 67);
            assert_eq!(&bytes[43..51], &amount.to_le_bytes());
            assert_eq!(&bytes[51..59], &time.to_le_bytes());
            assert_eq!(Vault::decode(&bytes, Configuration::WithInterest), Some(record));
        }
    }
}

#[test]
fn plain_balance_round_trips_without_time_and_rate() {
    let mut record = sample();
    let bytes = record.encode(Configuration::PlainBalance);
    record.deposit_time = 0;
    record.interest_rate = 0;
    assert_eq!(Vault::decode(&bytes, Configuration::PlainBalance), Some(record));
    assert_eq!(record.encode(Configuration::PlainBalance), bytes);
}

#[test]
fn decode_ignores_bytes_beyond_the_record() {
    let record = sample();
    let mut bytes = record.encode(Configuration::WithInterest);
    bytes.extend_from_slice(&[9, 9, 9]);
    assert_eq!(Vault::decode(&bytes, Configuration::WithInterest), Some(record));
}

#[test]
fn decode_refuses_short_bytes() {
    let record = sample();
    let mut bytes = record.encode(Configuration::WithInterest);
    bytes.pop();
    assert_eq!(bytes.len(), 66);
    assert_eq!(Vault::decode(&bytes, Configuration::WithInterest), None);
    assert_eq!(Vault::decode(&Vec::new(), Configuration::WithInterest), None);
    assert_eq!(Vault::decode(&PREFIX.to_vec(), Configuration::PlainBalance), None);
    let mut bytes = record.encode(Configuration::PlainBalance);
    bytes.pop();
    assert_eq!(Vault::decode(&bytes, Configuration::PlainBalance), None);
}

#[test]
fn decode_refuses_another_prefix() {
    let record = sample();
    let good = record.encode(Configuration::WithInterest);
    let mut i = 0;
    while i < 8 {
        let mut bytes = good.clone();
        bytes[i] ^= 1;
        assert_eq!(Vault::decode(&bytes, Configuration::WithInterest), None);
        i += 1;
    }
    assert_eq!(Vault::decode(&vec![0u8; 67], Configuration::WithInterest), None);
}

#[test]
fn decode_reads_every_field_from_its_place() {
    let mut bytes: Vec<u8> = PREFIX.to_vec();
    let mut i = 0u8;
    while bytes.len() < 67 {
        bytes.push(i);
        i += 1;
    }
    let read = Vault::decode(&bytes, Configuration::WithInterest).unwrap();
    let mut owner = [0u8; 32];
    let mut k = 0;
    while k < 32 {
        owner[k] = k as u8;
        k += 1;
    }
    assert_eq!(read.owner, Address::new(owner));
    assert_eq!((read.state_bump, read.auth_bump, read.vault_bump), (32, 33, 34));
    assert_eq!(read.deposit_amount, u64::from_le_bytes([35, 36, 37, 38, 39, 40, 41, 42]));
    assert_eq!(read.deposit_time, i64::from_le_bytes([43, 44, 45, 46, 47, 48, 49, 50]));
    assert_eq!(read.interest_rate, u64::from_le_bytes([51, 52, 53, 54, 55, 56, 57, 58]));
    let read = Vault::decode(&bytes, Configuration::PlainBalance).unwrap();
    assert_eq!(read.owner, Address::new(owner));
    assert_eq!(read.deposit_amount, u64::from_le_bytes([32, 33, 34, 35, 36, 37, 38, 39]));
    assert_eq!((read.state_bump, read.auth_bump, read.vault_bump), (40, 41, 42));
    assert_eq!((read.deposit_time, read.interest_rate), (0, 0));
}

#[test]
fn decode_reads_a_negative_time() {
    let mut record = sample();
    record.deposit_time = -2;
    let bytes = record.encode(Configuration::WithInterest);
    assert_eq!(&bytes[51..59], &[0xfe, 0xff, 0xff, 0xff, 0xff, 0xff, 0xff, 0xff]);
    assert_eq!(Vault::decode(&bytes, Configuration::WithInterest).unwrap().deposit_time, -2);
}

#[test]
fn every_refusal_has_its_message() {
    assert_eq!(ErrorCode::InsufficientFunds.message(), "Insufficient funds in vault");
    assert_eq!(ErrorCode::NumberOverflow.message(), "Number overflow occurred");
    assert_eq!(ErrorCode::MissingSignature.message(), "Owner signature missing");
    assert_eq!(ErrorCode::AddressMismatch.message(), "Address does not match its derivation");
    assert_eq!(ErrorCode::OwnerMismatch.message(), "Vault belongs to another owner");
    assert_eq!(ErrorCode::AlreadyInitialized.message(), "Vault already initialized");
    assert_eq!(ErrorCode::Uninitialized.message(), "Vault not initialized");
    assert_eq!(ErrorCode::InsufficientOwnerFunds.message(), "Insufficient funds in owner account");
}

#[test]
fn phases_follow_the_record() {
    let mut record = sample();
    assert_eq!(phase(&None), Phase::Uninitialized);
    assert_eq!(phase(&Some(record)), Phase::Deposited);
    record.deposit_amount = 1;
    assert_eq!(phase(&Some(record)), Phase::Deposited);
    record.deposit_amount = 0;
    assert_eq!(phase(&Some(record)), Phase::Empty);
    record.deposit_time = 0;
    assert_eq!(phase(&Some(record)), Phase::Empty);
}
