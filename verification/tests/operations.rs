//! The five operations, exercised through the public interface against
//! one common deployment: a mint deposit of 20, an existential deposit
//! of 1, and accounts 1..=8 endowed with 10, 20, 30, 40, 50, 60, and
//! 200 (account 8).

use kitties::Config;
use kitties::Error;
use kitties::Pallet;

const SEED: [u8; 32] = [0u8; 32];

fn new_test_pallet() -> Pallet {
    let mut p = Pallet::new(Config { mint_deposit: 20 }, 1);
    p.set_free_balance(1, 10);
    p.set_free_balance(2, 20);
    p.set_free_balance(3, 30);
    p.set_free_balance(4, 40);
    p.set_free_balance(5, 50);
    p.set_free_balance(6, 60);
    p.set_free_balance(8, 200);
    p
}

#[test]
fn create_a_kitty_works_when_have_enough_balance() {
    let mut p = new_test_pallet();
    // account 2 holds 20, which covers the deposit
    assert!(p.create_kitty(2, &SEED, 0).is_ok());
}

#[test]
fn create_a_kitty_fails_when_balance_not_enough() {
    let mut p = new_test_pallet();
    assert_eq!(p.create_kitty(1, &SEED, 0), Err(Error::NotEnoughBalance));
}

#[test]
fn breed_a_kitty_works_when_balance_enough() {
    let mut p = new_test_pallet();
    assert!(p.create_kitty(8, &SEED, 0).is_ok());
    assert!(p.create_kitty(8, &SEED, 1).is_ok());

    assert!(p.breed(8, 1, 2, &SEED, 2).is_ok());
}

#[test]
fn breed_a_kitty_fails_when_balance_not_enough() {
    let mut p = new_test_pallet();
    // account 4 can afford two mints, but not a third one for the child
    assert!(p.create_kitty(4, &SEED, 0).is_ok());
    assert!(p.create_kitty(4, &SEED, 1).is_ok());

    assert_eq!(p.breed(4, 1, 2, &SEED, 2), Err(Error::NotEnoughBalance));
}

#[test]
fn breed_a_kitty_fails_when_parent_invalid() {
    let mut p = new_test_pallet();
    assert!(p.create_kitty(4, &SEED, 0).is_ok());
    assert!(p.create_kitty(4, &SEED, 1).is_ok());

    assert_eq!(p.breed(4, 1, 22, &SEED, 2), Err(Error::InvalidKittyIndex));
}

#[test]
fn breed_a_kitty_fails_when_parents_are_same() {
    let mut p = new_test_pallet();
    assert!(p.create_kitty(4, &SEED, 0).is_ok());
    assert_eq!(p.breed(4, 1, 1, &SEED, 1), Err(Error::SameParentIndex));
}

#[test]
fn transfer_a_kitty_works() {
    let mut p = new_test_pallet();
    assert!(p.create_kitty(3, &SEED, 0).is_ok());
    assert!(p.transfer(3, 1, 1).is_ok());
    assert_eq!(p.owner(1), Some(1));
}

#[test]
fn transfer_a_kitty_fails_when_not_owner() {
    let mut p = new_test_pallet();
    assert!(p.create_kitty(3, &SEED, 0).is_ok());
    assert_eq!(p.transfer(2, 1, 1), Err(Error::NotOwner));
}

#[test]
fn sell_a_kitty_works() {
    let mut p = new_test_pallet();
    assert!(p.create_kitty(3, &SEED, 0).is_ok());
    assert!(p.sell_kitty(3, 1, Some(20)).is_ok());
}

#[test]
fn sell_a_kitty_fails_when_not_owner() {
    let mut p = new_test_pallet();
    assert!(p.create_kitty(3, &SEED, 0).is_ok());
    assert_eq!(p.sell_kitty(1, 1, Some(20)), Err(Error::NotOwner));
}

#[test]
fn sell_a_kitty_fails_when_kitty_index_invalid() {
    let mut p = new_test_pallet();
    assert!(p.create_kitty(3, &SEED, 0).is_ok());
    assert_eq!(p.sell_kitty(3, 121, Some(20)), Err(Error::InvalidKittyIndex));
}

#[test]
fn buy_a_kitty_works() {
    let mut p = new_test_pallet();
    assert!(p.create_kitty(3, &SEED, 0).is_ok());
    assert!(p.sell_kitty(3, 1, Some(9)).is_ok());
    assert!(p.buy_kitty(1, 1).is_ok());
    assert_eq!(p.owner(1), Some(1));
}

#[test]
fn buy_a_kitty_fails_when_buyer_is_kitty_owner() {
    let mut p = new_test_pallet();
    assert!(p.create_kitty(3, &SEED, 0).is_ok());
    assert!(p.sell_kitty(3, 1, Some(9)).is_ok());
    assert_eq!(p.buy_kitty(3, 1), Err(Error::BuyerIsKittyOwner));
}

#[test]
fn buy_a_kitty_fails_when_not_enough_balance() {
    let mut p = new_test_pallet();
    assert!(p.create_kitty(3, &SEED, 0).is_ok());
    assert!(p.sell_kitty(3, 1, Some(19)).is_ok());
    assert_eq!(p.buy_kitty(1, 1), Err(Error::NotEnoughBalance));
}

#[test]
fn buy_a_kitty_fails_when_not_for_sell() {
    let mut p = new_test_pallet();
    assert!(p.create_kitty(3, &SEED, 0).is_ok());
    assert_eq!(p.buy_kitty(1, 1), Err(Error::KittyNotForSale));
}

#[test]
fn buy_a_kitty_fails_when_kitty_not_exist() {
    let mut p = new_test_pallet();
    assert_eq!(p.buy_kitty(1, 1), Err(Error::InvalidKittyIndex));
}
