use european_option::{Asset, EuropeanCallOption, OptionError, OptionInfo, Party, Plan, DataKey};
use std::collections::HashMap;

const SELLER: u64 = 1;
const BUYER: u64 = 2;
const CONTRACT: u64 = 3;

struct Ledger {
    balances: HashMap<(Asset, u64), i128>,
}

impl Ledger {
    fn new() -> Self {
        let mut balances = HashMap::new();
        balances.insert((Asset::Escrow, SELLER), 1000);
        balances.insert((Asset::Escrow, BUYER), 100);
        balances.insert((Asset::Underlying, BUYER), 10000);
        Ledger { balances }
    }

    fn balance(&self, asset: Asset, who: u64) -> i128 {
        *self.balances.get(&(asset, who)).unwrap_or(&0)
    }

    fn apply(&mut self, plan: &Plan) {
        for t in &plan.transfers {
            let from = addr(t.from);
            let to = addr(t.to);
            assert!(self.balance(t.asset, from) >= t.amount);
            *self.balances.entry((t.asset, from)).or_insert(0) -= t.amount;
            *self.balances.entry((t.asset, to)).or_insert(0) += t.amount;
        }
    }
}

fn addr(p: Party) -> u64 {
    match p {
        Party::Seller => SELLER,
        Party::Buyer => BUYER,
        Party::Contract => CONTRACT,
    }
}

fn terms(strike_price: u32, premium: u32, escrow_amount: u32, expiration_date: u64) -> OptionInfo<u64> {
    OptionInfo {
        seller: SELLER,
        escrow_token: 10,
        underlying_token: 11,
        escrow_amount,
        strike_price,
        expiration_date,
        premium,
    }
}

fn purchased(ledger: &mut Ledger) -> EuropeanCallOption<u64> {
    let mut s = EuropeanCallOption::new();
    let p = s.init_option(terms(10, 10, 100, 0), 12345).unwrap();
    assert_eq!(p.auth, Party::Seller);
    ledger.apply(&p);
    assert_eq!(ledger.balance(Asset::Escrow, SELLER), 900);
    let p = s.buy_option(BUYER).unwrap();
    assert_eq!(p.auth, Party::Buyer);
    ledger.apply(&p);
    s
}

#[test]
fn exercise_in_the_money_pays_seller_deposit() {
    let mut ledger = Ledger::new();
    let mut s = purchased(&mut ledger);
    assert_eq!(ledger.balance(Asset::Escrow, SELLER), 910);
    assert_eq!(ledger.balance(Asset::Underlying, BUYER), 9000);
    assert_eq!(ledger.balance(Asset::Escrow, BUYER), 90);
    assert_eq!(ledger.balance(Asset::Escrow, CONTRACT), 100);
    assert_eq!(ledger.balance(Asset::Underlying, CONTRACT), 1000);
    let p = s.exercise_option(12, 12345).unwrap();
    assert_eq!(p.auth, Party::Seller);
    ledger.apply(&p);
    assert_eq!(ledger.balance(Asset::Underlying, BUYER), 9000);
    assert_eq!(ledger.balance(Asset::Underlying, SELLER), 1000);
    assert_eq!(ledger.balance(Asset::Escrow, BUYER), 190);
    assert_eq!(ledger.balance(Asset::Escrow, SELLER), 910);
    assert_eq!(ledger.balance(Asset::Escrow, CONTRACT), 0);
    assert_eq!(ledger.balance(Asset::Underlying, CONTRACT), 0);
    assert!(!s.has(DataKey::OptionInfo));
    assert!(!s.has(DataKey::Buyer));
    assert!(s.has(DataKey::InitTime));
}

#[test]
fn exercise_out_of_the_money_pays_buyer_deposit() {
    let mut ledger = Ledger::new();
    let mut s = purchased(&mut ledger);
    let p = s.exercise_option(9, 12345).unwrap();
    assert_eq!(p.auth, Party::Buyer);
    ledger.apply(&p);
    assert_eq!(ledger.balance(Asset::Underlying, BUYER), 10000);
    assert_eq!(ledger.balance(Asset::Escrow, SELLER), 1010);
    assert_eq!(ledger.balance(Asset::Escrow, BUYER), 90);
    assert_eq!(ledger.balance(Asset::Escrow, CONTRACT), 0);
    assert_eq!(ledger.balance(Asset::Underlying, CONTRACT), 0);
}

#[test]
fn withdraw_returns_escrow() {
    let mut ledger = Ledger::new();
    let mut s = EuropeanCallOption::new();
    ledger.apply(&s.init_option(terms(10, 10, 100, 0), 5).unwrap());
    assert_eq!(ledger.balance(Asset::Escrow, CONTRACT), 100);
    let p = s.withdraw().unwrap();
    assert_eq!(p.auth, Party::Seller);
    ledger.apply(&p);
    assert_eq!(ledger.balance(Asset::Escrow, SELLER), 1000);
    assert_eq!(ledger.balance(Asset::Escrow, CONTRACT), 0);
    assert!(!s.has(DataKey::OptionInfo));
}

#[test]
fn reinitialize_after_exercise() {
    let mut ledger = Ledger::new();
    let mut s = purchased(&mut ledger);
    ledger.apply(&s.exercise_option(12, 0).unwrap());
    assert!(s.init_option(terms(10, 10, 100, 0), 1).is_ok());
}

#[test]
fn second_purchase_is_refused() {
    let mut ledger = Ledger::new();
    let mut s = purchased(&mut ledger);
    assert_eq!(s.buy_option(BUYER).unwrap_err(), OptionError::AlreadyPurchased);
}

#[test]
fn withdraw_after_purchase_is_refused() {
    let mut ledger = Ledger::new();
    let mut s = purchased(&mut ledger);
    assert_eq!(s.withdraw().unwrap_err(), OptionError::BuyerEntered);
}

#[test]
fn overflowing_deposit_is_refused() {
    let mut s = EuropeanCallOption::new();
    s.init_option(terms(u32::MAX, 0, u32::MAX, 0), 0).unwrap();
    assert_eq!(s.buy_option(BUYER).unwrap_err(), OptionError::Overflow);
    assert!(!s.has(DataKey::Buyer));
}

#[test]
fn refusals() {
    let mut s: EuropeanCallOption<u64> = EuropeanCallOption::new();
    assert_eq!(s.buy_option(BUYER).unwrap_err(), OptionError::NotInitialized);
    assert_eq!(s.withdraw().unwrap_err(), OptionError::NotInitialized);
    assert_eq!(s.exercise_option(1, 0).unwrap_err(), OptionError::NotInitialized);
    assert_eq!(s.init_option(terms(0, 1, 1, 0), 0).unwrap_err(), OptionError::ZeroValue);
    assert_eq!(s.init_option(terms(1, 1, 0, 0), 0).unwrap_err(), OptionError::ZeroValue);
    s.init_option(terms(10, 1, 5, 100), 0).unwrap();
    assert_eq!(s.init_option(terms(10, 1, 5, 100), 0).unwrap_err(), OptionError::AlreadyInitialized);
    assert_eq!(s.exercise_option(12, 99).unwrap_err(), OptionError::TimeNotReached);
    assert_eq!(s.exercise_option(12, 100).unwrap_err(), OptionError::NotPurchased);
    let p = s.buy_option(BUYER).unwrap();
    assert_eq!(p.transfers[1].amount, 50);
    assert_eq!(p.transfers[0].amount, 1);
}
