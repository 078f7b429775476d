use vault_program::transfer::{transfer_in, transfer_out};
use vault_program::{Address, ErrorCode, HoldingAccount, OwnerAccount};

fn owner(lamports: u64) -> OwnerAccount {
    OwnerAccount { key: Address::new([1u8; 32]), lamports, is_signer: true }
}

fn holding(lamports: u64) -> HoldingAccount {
    HoldingAccount { key: Address::new([2u8; 32]), lamports }
}

#[test]
fn transfer_in_moves_the_amount() {
    let mut from = owner(1_000);
    let mut to = holding(50);
    assert_eq!(transfer_in(&mut from, &mut to, 400), Ok(()));
    assert_eq!(from, owner(600));
    assert_eq!(to, holding(450));
}

#[test]
fn transfer_in_of_nothing_and_of_everything() {
    let mut from = owner(1_000);
    let mut to = holding(50);
    assert_eq!(transfer_in(&mut from, &mut to, 0), Ok(()));
    assert_eq!((from, to), (owner(1_000), holding(50)));
    assert_eq!(transfer_in(&mut from, &mut to, 1_000), Ok(()));
    assert_eq!((from, to), (owner(0), holding(1_050)));
}

#[test]
fn transfer_in_needs_a_signature() {
    let mut from = owner(1_000);
    from.is_signer = false;
    let before = from;
    let mut to = holding(50);
    assert_eq!(transfer_in(&mut from, &mut to, 400), Err(ErrorCode::MissingSignature));
    assert_eq!((from, to), (before, holding(50)));
    assert_eq!(transfer_in(&mut from, &mut to, 2_000), Err(ErrorCode::MissingSignature));
}

#[test]
fn transfer_in_needs_the_funds() {
    let mut from = owner(399);
    let mut to = holding(50);
    assert_eq!(transfer_in(&mut from, &mut to, 400), Err(ErrorCode::InsufficientOwnerFunds));
    assert_eq!((from, to), (owner(399), holding(50)));
}

#[test]
fn transfer_in_stays_in_range() {
    let mut from = owner(10);
    let mut to = holding(u64::MAX - 3);
    assert_eq!(transfer_in(&mut from, &mut to, 4), Err(ErrorCode::NumberOverflow));
    assert_eq!((from, to), (owner(10), holding(u64::MAX - 3)));
    assert_eq!(transfer_in(&mut from, &mut to, 3), Ok(()));
    assert_eq!((from, to), (owner(7), holding(u64::MAX)));
}

#[test]
fn transfer_out_moves_the_amount_on_the_derived_address() {
    let mut from = holding(1_000);
    let mut to = owner(50);
    to.is_signer = false;
    let expected = OwnerAccount { lamports: 450, ..to };
    assert_eq!(transfer_out(&mut from, &mut to, 400, &Some(holding(0).key)), Ok(()));
    assert_eq!(from, holding(600));
    assert_eq!(to, expected);
}

#[test]
fn transfer_out_needs_the_derived_address() {
    let mut from = holding(1_000);
    let mut to = owner(50);
    assert_eq!(transfer_out(&mut from, &mut to, 400, &None), Err(ErrorCode::AddressMismatch));
    assert_eq!((from, to), (holding(1_000), owner(50)));
    assert_eq!(
        transfer_out(&mut from, &mut to, 400, &Some(owner(0).key)),
        Err(ErrorCode::AddressMismatch)
    );
    assert_eq!((from, to), (holding(1_000), owner(50)));
    assert_eq!(transfer_out(&mut from, &mut to, 5_000, &None), Err(ErrorCode::AddressMismatch));
}

#[test]
fn transfer_out_needs_the_funds() {
    let mut from = holding(399);
    let mut to = owner(50);
    let proof = Some(from.key);
    assert_eq!(transfer_out(&mut from, &mut to, 400, &proof), Err(ErrorCode::InsufficientFunds));
    assert_eq!((from, to), (holding(399), owner(50)));
    assert_eq!(transfer_out(&mut from, &mut to, 399, &proof), Ok(()));
    assert_eq!((from, to), (holding(0), owner(449)));
}

#[test]
fn transfer_out_stays_in_range() {
    let mut from = holding(10);
    let mut to = owner(u64::MAX - 3);
    let proof = Some(from.key);
    assert_eq!(transfer_out(&mut from, &mut to, 4, &proof), Err(ErrorCode::NumberOverflow));
    assert_eq!((from, to), (holding(10), owner(u64::MAX - 3)));
    assert_eq!(transfer_out(&mut from, &mut to, 11, &proof), Err(ErrorCode::InsufficientFunds));
}
