//! The stored form of a record: the bytes kept in the record account.
//!
//! A stored record starts with a fixed prefix of eight bytes that marks the
//! account as a vault record. The fields follow without padding, integers
//! with their least significant byte first, the deposit time in two's
//! complement. With interest: owner, the three bump seeds, principal,
//! deposit time, rate. Plain balance: owner, balance, the three bump seeds.

use vstd::prelude::*;
use crate::address::Address;
use crate::record::{Configuration, Vault};

verus! {

/// The prefix of every stored record: the first eight bytes of the SHA-256
/// hash of `account:Vault`.
pub open spec fn discriminator() -> Seq<u8> {
    seq![211u8, 8u8, 232u8, 43u8, 2u8, 152u8, 117u8, 119u8]
}

/// The eight bytes of a 64-bit value, least significant first.
pub open spec fn word_bytes(value: u64) -> Seq<u8> {
    seq![
        (value % 0x100) as u8,
        (value / 0x100 % 0x100) as u8,
        (value / 0x1_0000 % 0x100) as u8,
        (value / 0x100_0000 % 0x100) as u8,
        (value / 0x1_0000_0000 % 0x100) as u8,
        (value / 0x100_0000_0000 % 0x100) as u8,
        (value / 0x1_0000_0000_0000 % 0x100) as u8,
        (value / 0x100_0000_0000_0000 % 0x100) as u8,
    ]
}

/// The value that eight bytes stand for, least significant first.
pub open spec fn word_value(bytes: Seq<u8>) -> int {
    bytes[0] + 0x100 * bytes[1] + 0x1_0000 * bytes[2] + 0x100_0000 * bytes[3] + 0x1_0000_0000
        * bytes[4] + 0x100_0000_0000 * bytes[5] + 0x1_0000_0000_0000 * bytes[6]
        + 0x100_0000_0000_0000 * bytes[7]
}

/// A time as the 64-bit word that stores it: two's complement.
pub open spec fn time_word(time: i64) -> u64 {
    if time >= 0 {
        time as u64
    } else {
        (time + 0x1_0000_0000_0000_0000) as u64
    }
}

/// The time that a 64-bit word stores.
pub open spec fn word_time(word: u64) -> i64 {
    if word <= i64::MAX {
        word as i64
    } else {
        (word - 0x1_0000_0000_0000_0000) as i64
    }
}

/// The three bump seeds as they are stored.
pub open spec fn bump_bytes(record: Vault) -> Seq<u8> {
    seq![record.state_bump, record.auth_bump, record.vault_bump]
}

/// Whether bytes hold a stored record: long enough, and marked as one.
/// Bytes beyond the record's length are ignored.
pub open spec fn framed(bytes: Seq<u8>, configuration: Configuration) -> bool {
    bytes.len() >= Vault::stored_len(configuration) && bytes.subrange(0, 8) == discriminator()
}

/// Dividing by 256 step by step reaches the same quotients as dividing by
/// the powers of 256 at once.
proof fn lemma_quotients(value: int) -> (q: Seq<int>)
    requires
        0 <= value,
    ensures
        q.len() == 9,
        q[0] == value,
        forall|k: int| 0 <= k < 8 ==> q[k] == 0x100 * #[trigger] q[k + 1] + q[k] % 0x100,
        forall|k: int| 0 <= k < 9 ==> 0 <= #[trigger] q[k],
        q[1] == value / 0x100,
        q[2] == value / 0x1_0000,
        q[3] == value / 0x100_0000,
        q[4] == value / 0x1_0000_0000,
        q[5] == value / 0x100_0000_0000,
        q[6] == value / 0x1_0000_0000_0000,
        q[7] == value / 0x100_0000_0000_0000,
        q[8] == value / 0x1_0000_0000_0000_0000,
{
    let q1 = value / 0x100;
    let q2 = q1 / 0x100;
    let q3 = q2 / 0x100;
    let q4 = q3 / 0x100;
    let q5 = q4 / 0x100;
    let q6 = q5 / 0x100;
    let q7 = q6 / 0x100;
    let q8 = q7 / 0x100;
    assert(q2 == value / 0x1_0000);
    assert(q3 == value / 0x100_0000);
    assert(q4 == value / 0x1_0000_0000);
    assert(q5 == value / 0x100_0000_0000);
    assert(q6 == value / 0x1_0000_0000_0000);
    assert(q7 == value / 0x100_0000_0000_0000);
    assert(q8 == value / 0x1_0000_0000_0000_0000);
    seq![value, q1, q2, q3, q4, q5, q6, q7, q8]
}

/// Eight bytes and their value determine each other.
pub proof fn lemma_word_round_trip(value: u64, bytes: Seq<u8>)
    ensures
        word_bytes(value).len() == 8,
        word_value(word_bytes(value)) == value,
        bytes.len() == 8 ==> 0 <= word_value(bytes) <= u64::MAX && word_bytes(
            word_value(bytes) as u64,
        ) == bytes,
{
    let q = lemma_quotients(value as int);
    assert(q[8] == 0);
    assert(q[7] == 0x100 * q[8] + q[7] % 0x100);
    assert(q[6] == 0x100 * q[7] + q[6] % 0x100);
    assert(q[5] == 0x100 * q[6] + q[5] % 0x100);
    assert(q[4] == 0x100 * q[5] + q[4] % 0x100);
    assert(q[3] == 0x100 * q[4] + q[3] % 0x100);
    assert(q[2] == 0x100 * q[3] + q[2] % 0x100);
    assert(q[1] == 0x100 * q[2] + q[1] % 0x100);
    assert(q[0] == 0x100 * q[1] + q[0] % 0x100);
    assert(word_value(word_bytes(value)) == value);
    if bytes.len() == 8 {
        let v = word_value(bytes);
        let t7: int = bytes[7] as int;
        let t6: int = bytes[6] + 0x100 * t7;
        let t5: int = bytes[5] + 0x100 * t6;
        let t4: int = bytes[4] + 0x100 * t5;
        let t3: int = bytes[3] + 0x100 * t4;
        let t2: int = bytes[2] + 0x100 * t3;
        let t1: int = bytes[1] + 0x100 * t2;
        let t0: int = bytes[0] + 0x100 * t1;
        assert(t0 == v);
        assert(0 <= v <= u64::MAX);
        let r = lemma_quotients(v);
        assert(r[1] == t1);
        assert(r[2] == t1 / 0x100 && r[2] == t2);
        assert(r[3] == t2 / 0x100 && r[3] == t3);
        assert(r[4] == t3 / 0x100 && r[4] == t4);
        assert(r[5] == t4 / 0x100 && r[5] == t5);
        assert(r[6] == t5 / 0x100 && r[6] == t6);
        assert(r[7] == t6 / 0x100 && r[7] == t7);
        assert(word_bytes(v as u64) =~= bytes);
    }
}

/// A time and its stored word determine each other.
pub proof fn lemma_time_round_trip(time: i64, word: u64)
    ensures
        word_time(time_word(time)) == time,
        time_word(word_time(word)) == word,
{
}

impl Vault {
    /// The stored form of the record under a configuration.
    pub open spec fn layout(self, configuration: Configuration) -> Seq<u8> {
        match configuration {
            Configuration::WithInterest => discriminator() + self.owner@ + bump_bytes(self)
                + word_bytes(self.deposit_amount) + word_bytes(time_word(self.deposit_time))
                + word_bytes(self.interest_rate),
            Configuration::PlainBalance => discriminator() + self.owner@ + word_bytes(
                self.deposit_amount,
            ) + bump_bytes(self),
        }
    }

    /// Whether the fields that the stored form leaves out are at rest: a
    /// plain balance stores neither a deposit time nor a rate.
    pub open spec fn unstored_at_rest(self, configuration: Configuration) -> bool {
        configuration == Configuration::PlainBalance ==> self.deposit_time == 0
            && self.interest_rate == 0
    }

    /// Writes the record in its stored form.
    pub fn encode(&self, configuration: Configuration) -> (bytes: Vec<u8>)
        ensures
            bytes@ == self.layout(configuration),
            bytes@.len() == Vault::stored_len(configuration),
    {
        let mut bytes: Vec<u8> = Vec::new();
        write_discriminator(&mut bytes);
        write_address(&mut bytes, &self.owner);
        match configuration {
            Configuration::WithInterest => {
                write_bumps(&mut bytes, self);
                write_word(&mut bytes, self.deposit_amount);
                write_word(&mut bytes, word_of_time(self.deposit_time));
                write_word(&mut bytes, self.interest_rate);
            },
            Configuration::PlainBalance => {
                write_word(&mut bytes, self.deposit_amount);
                write_bumps(&mut bytes, self);
            },
        }
        bytes
    }

    /// Reads a record from its stored form. Succeeds exactly on bytes that
    /// are long enough and carry the prefix; the record read is the one whose
    /// stored form these bytes begin with. The bytes decide what is read: with
    /// interest it may be a record that no operation would have left behind.
    pub fn decode(bytes: &Vec<u8>, configuration: Configuration) -> (record: Option<Vault>)
        ensures
            record is Some <==> framed(bytes@, configuration),
            record matches Some(read) ==> read.layout(configuration) == bytes@.subrange(
                0,
                Vault::stored_len(configuration) as int,
            ) && read.unstored_at_rest(configuration),
    {
        if bytes.len() < Vault::space(configuration) || !has_discriminator(bytes) {
            return None;
        }
        let owner = read_address(bytes, 8);
        let read = match configuration {
            Configuration::WithInterest => Vault {
                owner,
                state_bump: bytes[40],
                auth_bump: bytes[41],
                vault_bump: bytes[42],
                deposit_amount: read_word(bytes, 43),
                deposit_time: time_of_word(read_word(bytes, 51)),
                interest_rate: read_word(bytes, 59),
            },
            Configuration::PlainBalance => Vault {
                owner,
                state_bump: bytes[48],
                auth_bump: bytes[49],
                vault_bump: bytes[50],
                deposit_amount: read_word(bytes, 40),
                deposit_time: 0,
                interest_rate: 0,
            },
        };
        proof {
            let stored = bytes@.subrange(0, Vault::stored_len(configuration) as int);
            lemma_time_round_trip(0, word_value(bytes@.subrange(51, 59)) as u64);
            match configuration {
                Configuration::WithInterest => {
                    lemma_word_round_trip(0, bytes@.subrange(43, 51));
                    lemma_word_round_trip(0, bytes@.subrange(51, 59));
                    lemma_word_round_trip(0, bytes@.subrange(59, 67));
                },
                Configuration::PlainBalance => {
                    lemma_word_round_trip(0, bytes@.subrange(40, 48));
                },
            }
            assert(read.layout(configuration) =~= stored);
        }
        Some(read)
    }
}

/// The stored form loses nothing: two records with the same stored form,
/// both at rest in what it leaves out, are the same record.
pub proof fn lemma_layout_is_injective(first: Vault, second: Vault, configuration: Configuration)
    requires
        first.layout(configuration) == second.layout(configuration),
        first.unstored_at_rest(configuration),
        second.unstored_at_rest(configuration),
    ensures
        first == second,
{
    let a = first.layout(configuration);
    let b = second.layout(configuration);
    assert(first.owner@ =~= a.subrange(8, 40));
    assert(second.owner@ =~= b.subrange(8, 40));
    assert(first.owner.bytes =~= second.owner.bytes);
    match configuration {
        Configuration::WithInterest => {
            assert(bump_bytes(first) =~= a.subrange(40, 43));
            assert(bump_bytes(second) =~= b.subrange(40, 43));
            assert(bump_bytes(first)[0] == first.state_bump);
            assert(bump_bytes(first)[1] == first.auth_bump);
            assert(bump_bytes(first)[2] == first.vault_bump);
            assert(word_bytes(first.deposit_amount) =~= a.subrange(43, 51));
            assert(word_bytes(second.deposit_amount) =~= b.subrange(43, 51));
            assert(word_bytes(time_word(first.deposit_time)) =~= a.subrange(51, 59));
            assert(word_bytes(time_word(second.deposit_time)) =~= b.subrange(51, 59));
            assert(word_bytes(first.interest_rate) =~= a.subrange(59, 67));
            assert(word_bytes(second.interest_rate) =~= b.subrange(59, 67));
            lemma_word_round_trip(first.deposit_amount, seq![]);
            lemma_word_round_trip(second.deposit_amount, seq![]);
            lemma_word_round_trip(time_word(first.deposit_time), seq![]);
            lemma_word_round_trip(time_word(second.deposit_time), seq![]);
            lemma_word_round_trip(first.interest_rate, seq![]);
            lemma_word_round_trip(second.interest_rate, seq![]);
            lemma_time_round_trip(first.deposit_time, 0);
            lemma_time_round_trip(second.deposit_time, 0);
        },
        Configuration::PlainBalance => {
            assert(word_bytes(first.deposit_amount) =~= a.subrange(40, 48));
            assert(word_bytes(second.deposit_amount) =~= b.subrange(40, 48));
            assert(bump_bytes(first) =~= a.subrange(48, 51));
            assert(bump_bytes(second) =~= b.subrange(48, 51));
            assert(bump_bytes(first)[0] == first.state_bump);
            assert(bump_bytes(first)[1] == first.auth_bump);
            assert(bump_bytes(first)[2] == first.vault_bump);
            lemma_word_round_trip(first.deposit_amount, seq![]);
            lemma_word_round_trip(second.deposit_amount, seq![]);
        },
    }
}

/// The word that stores a time.
fn word_of_time(time: i64) -> (word: u64)
    ensures
        word == time_word(time),
{
    if time >= 0 {
        time as u64
    } else {
        (time as i128 + 0x1_0000_0000_0000_0000i128) as u64
    }
}

/// The time that a word stores.
fn time_of_word(word: u64) -> (time: i64)
    ensures
        time == word_time(word),
{
    if word <= i64::MAX as u64 {
        word as i64
    } else {
        (word as i128 - 0x1_0000_0000_0000_0000i128) as i64
    }
}

/// Appends the prefix.
fn write_discriminator(out: &mut Vec<u8>)
    ensures
        final(out)@ == old(out)@ + discriminator(),
{
    out.push(211u8);
    out.push(8u8);
    out.push(232u8);
    out.push(43u8);
    out.push(2u8);
    out.push(152u8);
    out.push(117u8);
    out.push(119u8);
    assert(out@ =~= old(out)@ + discriminator());
}

/// Whether the bytes start with the prefix.
fn has_discriminator(bytes: &Vec<u8>) -> (marked: bool)
    requires
        bytes.len() >= 8,
    ensures
        marked == (bytes@.subrange(0, 8) == discriminator()),
{
    let marked = bytes[0] == 211u8 && bytes[1] == 8u8 && bytes[2] == 232u8 && bytes[3] == 43u8
        && bytes[4] == 2u8 && bytes[5] == 152u8 && bytes[6] == 117u8 && bytes[7] == 119u8;
    proof {
        let prefix = bytes@.subrange(0, 8);
        if marked {
            assert(prefix =~= discriminator());
        } else {
            assert(prefix[0] == bytes[0] && prefix[1] == bytes[1] && prefix[2] == bytes[2]
                && prefix[3] == bytes[3] && prefix[4] == bytes[4] && prefix[5] == bytes[5]
                && prefix[6] == bytes[6] && prefix[7] == bytes[7]);
        }
    }
    marked
}

/// Appends an address.
fn write_address(out: &mut Vec<u8>, address: &Address)
    ensures
        final(out)@ == old(out)@ + address@,
{
    let mut i: usize = 0;
    while i < 32
        invariant
            i <= 32,
            out@ == old(out)@ + address@.subrange(0, i as int),
        decreases 32 - i,
    {
        out.push(address.bytes[i]);
        i += 1;
        assert(out@ =~= old(out)@ + address@.subrange(0, i as int));
    }
    assert(address@.subrange(0, 32) =~= address@);
}

/// Reads the address that starts at `at`.
fn read_address(bytes: &Vec<u8>, at: usize) -> (address: Address)
    requires
        at + 32 <= bytes.len(),
    ensures
        address@ == bytes@.subrange(at as int, at + 32),
{
    let mut read: [u8; 32] = [0u8; 32];
    let mut i: usize = 0;
    while i < 32
        invariant
            i <= 32,
            at + 32 <= bytes.len(),
            forall|j: int| 0 <= j < i ==> read[j] == bytes[at + j],
        decreases 32 - i,
    {
        read[i] = bytes[at + i];
        i += 1;
    }
    let address = Address { bytes: read };
    assert(address@ =~= bytes@.subrange(at as int, at + 32));
    address
}

/// Appends the three bump seeds.
fn write_bumps(out: &mut Vec<u8>, record: &Vault)
    ensures
        final(out)@ == old(out)@ + bump_bytes(*record),
{
    out.push(record.state_bump);
    out.push(record.auth_bump);
    out.push(record.vault_bump);
    assert(out@ =~= old(out)@ + bump_bytes(*record));
}

/// Appends a 64-bit value, least significant byte first.
fn write_word(out: &mut Vec<u8>, value: u64)
    ensures
        final(out)@ == old(out)@ + word_bytes(value),
{
    out.push((value % 0x100) as u8);
    out.push((value / 0x100 % 0x100) as u8);
    out.push((value / 0x1_0000 % 0x100) as u8);
    out.push((value / 0x100_0000 % 0x100) as u8);
    out.push((value / 0x1_0000_0000 % 0x100) as u8);
    out.push((value / 0x100_0000_0000 % 0x100) as u8);
    out.push((value / 0x1_0000_0000_0000 % 0x100) as u8);
    out.push((value / 0x100_0000_0000_0000 % 0x100) as u8);
    assert(out@ =~= old(out)@ + word_bytes(value));
}

/// Reads the 64-bit value whose eight bytes start at `at`.
fn read_word(bytes: &Vec<u8>, at: usize) -> (value: u64)
    requires
        at + 8 <= bytes.len(),
    ensures
        value == word_value(bytes@.subrange(at as int, at + 8)),
{
    let value = bytes[at] as u64 + 0x100 * (bytes[at + 1] as u64) + 0x1_0000 * (bytes[at
        + 2] as u64) + 0x100_0000 * (bytes[at + 3] as u64) + 0x1_0000_0000 * (bytes[at + 4] as u64)
        + 0x100_0000_0000 * (bytes[at + 5] as u64) + 0x1_0000_0000_0000 * (bytes[at + 6] as u64)
        + 0x100_0000_0000_0000 * (bytes[at + 7] as u64);
    value
}

} // verus!
