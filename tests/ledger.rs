use std::collections::HashMap;

use ecom::{
    get_native_asset_address, require_auth, DataKey, EcomContract, Error, Transfer, NATIVE_ASSET,
};

const ME: &str = "CONTRACT";
const ADMIN: &str = "ADMIN";
const BUYER: &str = "BUYER";

fn s(x: &str) -> String {
    x.to_string()
}

fn signed(who: &[&str]) -> Vec<String> {
    who.iter().map(|w| w.to_string()).collect()
}

/// A toy asset ledger standing in for the host's token service.
struct Balances {
    map: HashMap<String, i128>,
}

impl Balances {
    fn balance(&self, who: &str) -> i128 {
        *self.map.get(who).unwrap_or(&0)
    }

    fn apply(&mut self, t: &Transfer) -> bool {
        assert_eq!(t.asset, NATIVE_ASSET);
        if t.amount < 0 || self.balance(&t.from) < t.amount {
            return false;
        }
        *self.map.entry(t.from.clone()).or_insert(0) -= t.amount;
        *self.map.entry(t.to.clone()).or_insert(0) += t.amount;
        true
    }
}

fn ready() -> EcomContract {
    let mut c = EcomContract::new(s(ME));
    assert_eq!(c.initialize(s(ADMIN), &signed(&[ADMIN])), Ok(true));
    c
}

fn purchase(c: &mut EcomContract, bank: &mut Balances, id: i32, buyer: &str) -> Result<bool, Error> {
    let sig = signed(&[buyer]);
    let charge = c.sell_product(id, &s(buyer), &sig)?;
    let settled = bank.apply(&charge);
    c.record_sale(id, s(buyer), &sig, settled)
}

#[test]
fn end_to_end_widget() {
    let mut c = ready();
    let mut bank = Balances { map: HashMap::new() };
    bank.map.insert(s(BUYER), 250);
    assert_eq!(c.add_product(1, s("Widget"), 100, 5, &signed(&[ADMIN])), Ok(true));

    assert_eq!(purchase(&mut c, &mut bank, 1, BUYER), Ok(true));
    assert_eq!(bank.balance(BUYER), 150);
    assert_eq!(bank.balance(ME), 100);

    let p = c.get_product(1).unwrap();
    assert_eq!(p.sales.len(), 1);
    assert_eq!(p.sales[0].id, 1);
    assert_eq!(p.sales[0].person, BUYER);
    assert_eq!(p.sales[0].price, 100);
    assert_eq!(p.sales[0].product, "Widget");
    assert_eq!(p.quantity, 5);
    assert_eq!(c.was_paid(1, &s(BUYER), 1), Ok(true));

    let q = c.get_totalsales();
    assert_eq!(q.holder, ME);
    assert_eq!(q.asset, NATIVE_ASSET);
    let escrow = bank.balance(&q.holder);
    let payout = c.cash_out(&s(ADMIN), &s("DEST"), &signed(&[ADMIN]), escrow).unwrap();
    assert_eq!(payout.from, ME);
    assert_eq!(payout.to, "DEST");
    assert_eq!(payout.amount, 100);
    assert!(bank.apply(&payout));
    assert_eq!(bank.balance("DEST"), 100);
    assert_eq!(bank.balance(ME), 0);
}

#[test]
fn register_twice_keeps_first() {
    let mut c = ready();
    let sig = signed(&[ADMIN]);
    assert_eq!(c.add_product(7, s("Lamp"), 30, 2, &sig), Ok(true));
    assert_eq!(c.add_product(7, s("Other"), 99, 9, &sig), Err(Error::ProductExists));
    let p = c.get_product(7).unwrap();
    assert_eq!(p.id, 7);
    assert_eq!(p.name, "Lamp");
    assert_eq!(p.price, 30);
    assert_eq!(p.quantity, 2);
    assert!(p.sales.is_empty());
}

#[test]
fn purchase_missing_product() {
    let mut c = ready();
    let mut bank = Balances { map: HashMap::new() };
    bank.map.insert(s(BUYER), 50);
    assert_eq!(c.sell_product(3, &s(BUYER), &signed(&[BUYER])).err(), Some(Error::NotFound));
    assert_eq!(c.record_sale(3, s(BUYER), &signed(&[BUYER]), true), Err(Error::NotFound));
    assert_eq!(purchase(&mut c, &mut bank, 3, BUYER), Err(Error::NotFound));
    assert_eq!(bank.balance(BUYER), 50);
    assert_eq!(bank.balance(ME), 0);
    assert!(!c.has(DataKey::Product(3)));
}

#[test]
fn purchase_appends_one_sale_at_price() {
    let mut c = ready();
    let mut bank = Balances { map: HashMap::new() };
    bank.map.insert(s("B1"), 1000);
    bank.map.insert(s("B2"), 1000);
    c.add_product(2, s("Mug"), 12, 1, &signed(&[ADMIN])).unwrap();
    assert_eq!(purchase(&mut c, &mut bank, 2, "B1"), Ok(true));
    assert_eq!(purchase(&mut c, &mut bank, 2, "B2"), Ok(true));
    let p = c.get_product(2).unwrap();
    assert_eq!(p.sales.len(), 2);
    assert_eq!(p.sales[0].person, "B1");
    assert_eq!(p.sales[1].person, "B2");
    assert_eq!(p.sales[1].price, 12);
    // the inventory counter is advisory and never decremented
    assert_eq!(p.quantity, 1);
    assert_eq!(bank.balance(ME), 24);
}

#[test]
fn failed_charge_records_nothing() {
    let mut c = ready();
    let mut bank = Balances { map: HashMap::new() };
    bank.map.insert(s(BUYER), 10);
    c.add_product(1, s("Widget"), 100, 5, &signed(&[ADMIN])).unwrap();
    assert_eq!(purchase(&mut c, &mut bank, 1, BUYER), Err(Error::TransferFailed));
    assert_eq!(bank.balance(BUYER), 10);
    assert!(c.get_product(1).unwrap().sales.is_empty());
    assert_eq!(c.was_paid(1, &s(BUYER), 1), Ok(false));
}

#[test]
fn purchase_needs_buyer_signature() {
    let mut c = ready();
    c.add_product(1, s("Widget"), 100, 5, &signed(&[ADMIN])).unwrap();
    assert_eq!(c.sell_product(1, &s(BUYER), &signed(&["SOMEONE"])).err(), Some(Error::Unauthorized));
    assert_eq!(c.record_sale(1, s(BUYER), &signed(&[]), true), Err(Error::Unauthorized));
    assert!(c.get_product(1).unwrap().sales.is_empty());
}

#[test]
fn charge_is_price_from_buyer_to_escrow() {
    let mut c = ready();
    c.add_product(4, s("Pen"), 3, 1, &signed(&[ADMIN])).unwrap();
    let t = c.sell_product(4, &s(BUYER), &signed(&[BUYER])).unwrap();
    assert_eq!(t.asset, NATIVE_ASSET);
    assert_eq!(t.from, BUYER);
    assert_eq!(t.to, ME);
    assert_eq!(t.amount, 3);
    // deciding the charge changes nothing
    assert!(c.get_product(4).unwrap().sales.is_empty());
}

#[test]
fn was_paid_matches_id_and_buyer() {
    let mut c = ready();
    let mut bank = Balances { map: HashMap::new() };
    bank.map.insert(s("B1"), 100);
    c.add_product(5, s("Cup"), 1, 1, &signed(&[ADMIN])).unwrap();
    c.add_product(6, s("Pot"), 1, 1, &signed(&[ADMIN])).unwrap();
    assert_eq!(c.was_paid(5, &s("B1"), 5), Ok(false));
    purchase(&mut c, &mut bank, 5, "B1").unwrap();
    assert_eq!(c.was_paid(5, &s("B1"), 5), Ok(true));
    assert_eq!(c.was_paid(5, &s("B2"), 5), Ok(false));
    assert_eq!(c.was_paid(5, &s("B1"), 6), Ok(false));
    assert_eq!(c.was_paid(6, &s("B1"), 6), Ok(false));
    assert_eq!(c.was_paid(9, &s("B1"), 9), Err(Error::NotFound));
    purchase(&mut c, &mut bank, 6, "B1").unwrap();
    assert_eq!(c.was_paid(5, &s("B1"), 5), Ok(true));
}

#[test]
fn initialize_twice_fails() {
    let mut c = ready();
    assert_eq!(c.initialize(s("OTHER"), &signed(&["OTHER"])), Err(Error::AlreadyInitialized));
    assert_eq!(c.initialize(s(ADMIN), &signed(&[ADMIN])), Err(Error::AlreadyInitialized));
    // the admin is still the first one
    assert_eq!(c.add_product(1, s("A"), 1, 1, &signed(&["OTHER"])), Err(Error::Unauthorized));
    assert_eq!(c.add_product(1, s("A"), 1, 1, &signed(&[ADMIN])), Ok(true));
}

#[test]
fn initialize_needs_signature() {
    let mut c = EcomContract::new(s(ME));
    assert_eq!(c.initialize(s(ADMIN), &signed(&[BUYER])), Err(Error::Unauthorized));
    assert!(!c.has(DataKey::Admin));
    assert_eq!(c.initialize(s(ADMIN), &signed(&[BUYER, ADMIN])), Ok(true));
    assert!(c.has(DataKey::Admin));
}

#[test]
fn add_product_before_initialize() {
    let mut c = EcomContract::new(s(ME));
    assert_eq!(c.add_product(1, s("A"), 1, 1, &signed(&[ADMIN])), Err(Error::NotInitialized));
    assert!(!c.has(DataKey::Product(1)));
}

#[test]
fn withdraw_by_non_admin_fails() {
    let c = ready();
    let mut bank = Balances { map: HashMap::new() };
    bank.map.insert(s(ME), 40);
    let r = c.cash_out(&s(BUYER), &s(BUYER), &signed(&[BUYER]), 40);
    assert_eq!(r.err(), Some(Error::Unauthorized));
    assert_eq!(bank.balance(ME), 40);
    let r = c.cash_out(&s(ADMIN), &s(BUYER), &signed(&[BUYER]), 40);
    assert_eq!(r.err(), Some(Error::Unauthorized));
}

#[test]
fn withdraw_before_initialize() {
    let c = EcomContract::new(s(ME));
    let r = c.cash_out(&s(ADMIN), &s(ADMIN), &signed(&[ADMIN]), 0);
    assert_eq!(r.err(), Some(Error::NotInitialized));
}

#[test]
fn get_missing_product() {
    let c = ready();
    assert_eq!(c.get_product(11).err(), Some(Error::NotFound));
}

#[test]
fn gate_checks_membership() {
    assert_eq!(require_auth(&signed(&["X", "Y"]), &s("Y")), Ok(()));
    assert_eq!(require_auth(&signed(&["X", "Y"]), &s("Z")), Err(Error::Unauthorized));
    assert_eq!(require_auth(&signed(&[]), &s("Z")), Err(Error::Unauthorized));
}

#[test]
fn native_asset_address() {
    assert_eq!(get_native_asset_address(), "CDLZFC3SYJYDZT7K67VZ75HPJVIEUVNIXF47ZG2FB2RMQQVU2HHGCYSC");
    let c = EcomContract::new(s(ME));
    assert_eq!(c.get_totalsales().asset, NATIVE_ASSET);
}

#[test]
fn restore_rebuilds_state() {
    let mut c = EcomContract::restore(s(ME), Some(s(ADMIN)));
    assert!(c.has(DataKey::Admin));
    let p = ecom::Products {
        id: 8,
        name: s("Bowl"),
        price: 9,
        quantity: 1,
        sales: vec![ecom::Sales { id: 8, product: s("Bowl"), person: s(BUYER), price: 9 }],
    };
    c.restore_product(p);
    assert_eq!(c.was_paid(8, &s(BUYER), 8), Ok(true));
    assert_eq!(c.add_product(8, s("X"), 1, 1, &signed(&[ADMIN])), Err(Error::ProductExists));
    assert_eq!(c.initialize(s(ADMIN), &signed(&[ADMIN])), Err(Error::AlreadyInitialized));
    let copy = c.get_product(8).unwrap();
    assert_eq!(copy.sales[0].person, BUYER);
    assert_eq!(copy.name, "Bowl");
}
