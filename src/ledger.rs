use std::collections::HashMap;

use vstd::prelude::*;
use vstd::std_specs::hash::group_hash_axioms;

use crate::auth::{proves, require_auth};
use crate::error::Error;
use crate::settlement::{
    get_native_asset_address, transfer_to_another_address, user_pay_to_contract, BalanceQuery,
    Transfer, NATIVE_ASSET,
};

verus! {

broadcast use group_hash_axioms;

/// The keys of the contract's store: the admin slot and one slot per product.
#[derive(Clone, Copy, Debug, PartialEq, Eq, Structural)]
pub enum DataKey {
    Product(i32),
    Admin,
}

/// One recorded sale. `id` is the product's id; `product` its name at the
/// time of sale; `price` what the buyer was charged.
#[derive(Debug)]
pub struct Sales {
    pub id: i32,
    pub product: String,
    pub person: String,
    pub price: i128,
}

/// A product of the catalog with its sales, oldest first.
#[derive(Debug)]
pub struct Products {
    pub id: i32,
    pub name: String,
    pub price: i128,
    pub quantity: i32,
    pub sales: Vec<Sales>,
}

/// What a product is, with its sale history as a sequence.
pub struct ProductView {
    pub id: i32,
    pub name: String,
    pub price: i128,
    pub quantity: i32,
    pub sales: Seq<Sales>,
}

impl View for Products {
    type V = ProductView;

    open spec fn view(&self) -> ProductView {
        ProductView {
            id: self.id,
            name: self.name,
            price: self.price,
            quantity: self.quantity,
            sales: self.sales@,
        }
    }
}

impl Sales {
    /// A copy of this sale.
    pub fn duplicate(&self) -> (r: Sales)
        ensures
            r == *self,
    {
        Sales {
            id: self.id,
            product: self.product.clone(),
            person: self.person.clone(),
            price: self.price,
        }
    }
}

impl Products {
    /// A snapshot of this product, its whole sale history included.
    pub fn duplicate(&self) -> (r: Products)
        ensures
            r@ == self@,
    {
        let mut sales: Vec<Sales> = Vec::new();
        let mut i: usize = 0;
        while i < self.sales.len()
            invariant
                0 <= i <= self.sales.len(),
                sales@ == self.sales@.subrange(0, i as int),
            decreases self.sales.len() - i,
        {
            sales.push(self.sales[i].duplicate());
            i += 1;
            assert(sales@ =~= self.sales@.subrange(0, i as int));
        }
        assert(sales@ =~= self.sales@);
        Products {
            id: self.id,
            name: self.name.clone(),
            price: self.price,
            quantity: self.quantity,
            sales,
        }
    }
}

/// The state of the ledger: the contract's own account (its escrow), the
/// settlement asset, the admin record once set, and the catalog by id.
pub struct LedgerView {
    pub me: String,
    pub asset: String,
    pub admin: Option<String>,
    pub catalog: Map<i32, ProductView>,
}

/// The contract's state, as kept in its store.
pub struct EcomContract {
    me: String,
    asset: String,
    admin: Option<String>,
    products: HashMap<i32, Products>,
}

impl View for EcomContract {
    type V = LedgerView;

    closed spec fn view(&self) -> LedgerView {
        LedgerView {
            me: self.me,
            asset: self.asset,
            admin: self.admin,
            catalog: Map::new(
                |k: i32| self.products@.contains_key(k),
                |k: i32| self.products@[k]@,
            ),
        }
    }
}

/// Each product is stored under its own id.
pub open spec fn catalog_wf(c: Map<i32, ProductView>) -> bool {
    forall|k: i32| #[trigger] c.contains_key(k) ==> c[k].id == k
}

/// Whether the store holds an entry under `key`.
pub open spec fn key_present(s: LedgerView, key: DataKey) -> bool {
    match key {
        DataKey::Admin => s.admin is Some,
        DataKey::Product(id) => s.catalog.contains_key(id),
    }
}

/// `initialize`: the claimed admin must prove control, and the admin record
/// is set once.
pub open spec fn initialize_step(s: LedgerView, signers: Seq<String>, admin: String) -> (
    Result<bool, Error>,
    LedgerView,
) {
    if !proves(signers, admin) {
        (Err(Error::Unauthorized), s)
    } else if s.admin is Some {
        (Err(Error::AlreadyInitialized), s)
    } else {
        (Ok(true), LedgerView { admin: Some(admin), ..s })
    }
}

/// `add_product`: the stored admin must prove control; ids are unique; a new
/// product starts with no sales.
pub open spec fn add_product_step(
    s: LedgerView,
    signers: Seq<String>,
    id: i32,
    name: String,
    price: i128,
    quantity: i32,
) -> (Result<bool, Error>, LedgerView) {
    match s.admin {
        None => (Err(Error::NotInitialized), s),
        Some(a) => if !proves(signers, a) {
            (Err(Error::Unauthorized), s)
        } else if s.catalog.contains_key(id) {
            (Err(Error::ProductExists), s)
        } else {
            (
                Ok(true),
                LedgerView {
                    catalog: s.catalog.insert(
                        id,
                        ProductView { id, name, price, quantity, sales: Seq::empty() },
                    ),
                    ..s
                },
            )
        },
    }
}

/// `get_product`: the product stored under `id`.
pub open spec fn product_query(s: LedgerView, id: i32) -> Result<ProductView, Error> {
    if s.catalog.contains_key(id) {
        Ok(s.catalog[id])
    } else {
        Err(Error::NotFound)
    }
}

/// The charge that a purchase of `id` by `person` asks of the asset ledger:
/// the product's current price, from the buyer into the escrow.
pub open spec fn purchase_charge(s: LedgerView, signers: Seq<String>, id: i32, person: String) -> Result<
    Transfer,
    Error,
> {
    if !proves(signers, person) {
        Err(Error::Unauthorized)
    } else if !s.catalog.contains_key(id) {
        Err(Error::NotFound)
    } else {
        Ok(Transfer { asset: s.asset, from: person, to: s.me, amount: s.catalog[id].price })
    }
}

/// The sale that a purchase of product `p` by `person` records.
pub open spec fn sale_of(p: ProductView, person: String) -> Sales {
    Sales { id: p.id, product: p.name, person, price: p.price }
}

/// `purchase`, once the asset ledger has answered the charge: the sale is
/// appended only when the charge was settled.
pub open spec fn purchase_step(
    s: LedgerView,
    signers: Seq<String>,
    id: i32,
    person: String,
    settled: bool,
) -> (Result<bool, Error>, LedgerView) {
    match purchase_charge(s, signers, id, person) {
        Err(e) => (Err(e), s),
        Ok(_) => if !settled {
            (Err(Error::TransferFailed), s)
        } else {
            let p = s.catalog[id];
            (
                Ok(true),
                LedgerView {
                    catalog: s.catalog.insert(
                        id,
                        ProductView { sales: p.sales.push(sale_of(p, person)), ..p },
                    ),
                    ..s
                },
            )
        },
    }
}

/// Some sale of `sales` has id `sale_id` and buyer `user`.
pub open spec fn has_sale(sales: Seq<Sales>, user: String, sale_id: i32) -> bool {
    exists|i: int| 0 <= i < sales.len() && (#[trigger] sales[i]).id == sale_id && sales[i].person@ == user@
}

/// `was_paid`: whether the product's history holds a sale with that id and buyer.
pub open spec fn paid_query(s: LedgerView, product_id: i32, user: String, sale_id: i32) -> Result<
    bool,
    Error,
> {
    if s.catalog.contains_key(product_id) {
        Ok(has_sale(s.catalog[product_id].sales, user, sale_id))
    } else {
        Err(Error::NotFound)
    }
}

/// `cash_out`: the claimed admin must prove control and be the stored admin;
/// then the whole escrow balance goes to `to`.
pub open spec fn payout(s: LedgerView, signers: Seq<String>, admin: String, to: String, escrow: i128) -> Result<
    Transfer,
    Error,
> {
    if !proves(signers, admin) {
        Err(Error::Unauthorized)
    } else {
        match s.admin {
            None => Err(Error::NotInitialized),
            Some(a) => if a@ != admin@ {
                Err(Error::Unauthorized)
            } else {
                Ok(Transfer { asset: s.asset, from: s.me, to, amount: escrow })
            },
        }
    }
}

impl EcomContract {
    /// Well-formedness: each product is stored under its own id.
    pub open spec fn wf(&self) -> bool {
        catalog_wf(self@.catalog)
    }

    /// A contract whose own account is `me`, not yet initialized, with an
    /// empty catalog.
    pub fn new(me: String) -> (r: EcomContract)
        ensures
            r.wf(),
            r@.me == me,
            r@.asset@ == NATIVE_ASSET@,
            r@.admin is None,
            r@.catalog == Map::<i32, ProductView>::empty(),
    {
        let r = EcomContract {
            me,
            asset: get_native_asset_address(),
            admin: None,
            products: HashMap::new(),
        };
        assert(r@.catalog =~= Map::<i32, ProductView>::empty());
        r
    }

    /// A contract rebuilt from its store: its own account and the admin
    /// record as read back, with the products still to be put in.
    pub fn restore(me: String, admin: Option<String>) -> (r: EcomContract)
        ensures
            r.wf(),
            r@.me == me,
            r@.asset@ == NATIVE_ASSET@,
            r@.admin == admin,
            r@.catalog == Map::<i32, ProductView>::empty(),
    {
        let mut r = EcomContract::new(me);
        r.admin = admin;
        assert(r@.catalog =~= Map::<i32, ProductView>::empty());
        r
    }

    /// Puts a product read back from the store under its own id.
    pub fn restore_product(&mut self, p: Products)
        requires
            old(self).wf(),
        ensures
            final(self).wf(),
            final(self)@ == (LedgerView {
                catalog: old(self)@.catalog.insert(p.id, p@),
                ..old(self)@
            }),
    {
        let ghost pv = p@;
        let id = p.id;
        self.products.insert(id, p);
        assert(self@.catalog =~= old(self)@.catalog.insert(id, pv));
    }

    /// Whether the store holds an entry under `key`.
    pub fn has(&self, key: DataKey) -> (r: bool)
        ensures
            r == key_present(self@, key),
    {
        match key {
            DataKey::Admin => self.admin.is_some(),
            DataKey::Product(id) => self.products.contains_key(&id),
        }
    }

    /// Sets the admin record, once.
    pub fn initialize(&mut self, admin: String, signers: &Vec<String>) -> (r: Result<bool, Error>)
        requires
            old(self).wf(),
        ensures
            final(self).wf(),
            (r, final(self)@) == initialize_step(old(self)@, signers@, admin),
    {
        if require_auth(signers, &admin).is_err() {
            return Err(Error::Unauthorized);
        }
        if self.admin.is_some() {
            return Err(Error::AlreadyInitialized);
        }
        self.admin = Some(admin);
        assert(self@.catalog =~= old(self)@.catalog);
        Ok(true)
    }
    /// Registers a product under a fresh id, with no sales yet. Only the
    /// stored admin may do so.
    pub fn add_product(
        &mut self,
        id: i32,
        name: String,
        price: i128,
        quantity: i32,
        signers: &Vec<String>,
    ) -> (r: Result<bool, Error>)
        requires
            old(self).wf(),
        ensures
            final(self).wf(),
            (r, final(self)@) == add_product_step(old(self)@, signers@, id, name, price, quantity),
    {
        match &self.admin {
            None => {
                return Err(Error::NotInitialized);
            },
            Some(admin) => {
                if require_auth(signers, admin).is_err() {
                    return Err(Error::Unauthorized);
                }
            },
        }
        if self.products.contains_key(&id) {
            return Err(Error::ProductExists);
        }
        let product = Products { id, name, price, quantity, sales: Vec::new() };
        proof {
            let ghost pv = ProductView { id, name, price, quantity, sales: Seq::empty() };
            assert(product@ == pv);
        }
        self.products.insert(id, product);
        proof {
            let ghost pv = ProductView { id, name, price, quantity, sales: Seq::empty() };
            assert(self@.catalog =~= old(self)@.catalog.insert(id, pv));
        }
        Ok(true)
    }

    /// A snapshot of the product stored under `id`.
    pub fn get_product(&self, id: i32) -> (r: Result<Products, Error>)
        ensures
            match r {
                Ok(p) => product_query(self@, id) == Ok::<ProductView, Error>(p@),
                Err(e) => product_query(self@, id) == Err::<ProductView, Error>(e),
            },
    {
        match self.products.get(&id) {
            None => Err(Error::NotFound),
            Some(p) => Ok(p.duplicate()),
        }
    }

    /// Opens a purchase: checks the buyer and the product, and returns the
    /// charge that the asset ledger must settle before the sale is recorded.
    /// The ledger itself is not touched.
    pub fn sell_product(&self, id: i32, person: &String, signers: &Vec<String>) -> (r: Result<
        Transfer,
        Error,
    >)
        ensures
            r == purchase_charge(self@, signers@, id, *person),
    {
        if require_auth(signers, person).is_err() {
            return Err(Error::Unauthorized);
        }
        match self.products.get(&id) {
            None => Err(Error::NotFound),
            Some(p) => Ok(user_pay_to_contract(&self.asset, &self.me, person, p.price)),
        }
    }

    /// Closes a purchase: `settled` tells whether the charge of
    /// `sell_product` went through. Only then is the sale appended; on any
    /// failure the ledger is left as it was.
    pub fn record_sale(&mut self, id: i32, person: String, signers: &Vec<String>, settled: bool) -> (r:
        Result<bool, Error>)
        requires
            old(self).wf(),
        ensures
            final(self).wf(),
            (r, final(self)@) == purchase_step(old(self)@, signers@, id, person, settled),
    {
        if require_auth(signers, &person).is_err() {
            return Err(Error::Unauthorized);
        }
        if !self.products.contains_key(&id) {
            return Err(Error::NotFound);
        }
        if !settled {
            return Err(Error::TransferFailed);
        }
        let ghost before = self@;
        match self.products.remove(&id) {
            None => Err(Error::NotFound),
            Some(p) => {
                let mut p = p;
                let sale = Sales { id, product: p.name.clone(), person, price: p.price };
                p.sales.push(sale);
                self.products.insert(id, p);
                proof {
                    let ghost old_p = before.catalog[id];
                    assert(self@.catalog =~= before.catalog.insert(
                        id,
                        ProductView { sales: old_p.sales.push(sale_of(old_p, person)), ..old_p },
                    ));
                }
                Ok(true)
            },
        }
    }

    /// Whether the history of product `product_id` holds a sale with id
    /// `sale_id` bought by `user`.
    pub fn was_paid(&self, product_id: i32, user: &String, sale_id: i32) -> (r: Result<bool, Error>)
        ensures
            r == paid_query(self@, product_id, *user, sale_id),
    {
        match self.products.get(&product_id) {
            None => Err(Error::NotFound),
            Some(p) => {
                assert(self@.catalog[product_id].sales == p.sales@);
                let mut i: usize = 0;
                while i < p.sales.len()
                    invariant
                        0 <= i <= p.sales.len(),
                        self@.catalog.contains_key(product_id),
                        self@.catalog[product_id].sales == p.sales@,
                        forall|j: int|
                            0 <= j < i ==> !((#[trigger] p.sales@[j]).id == sale_id
                                && p.sales@[j].person@ == user@),
                    decreases p.sales.len() - i,
                {
                    if p.sales[i].id == sale_id && p.sales[i].person == *user {
                        assert(p.sales@[i as int].person@ == user@);
                        assert(has_sale(p.sales@, *user, sale_id));
                        return Ok(true);
                    }
                    i += 1;
                }
                Ok(false)
            },
        }
    }

    /// The query that reads the escrow: the contract's own balance in the
    /// settlement asset.
    pub fn get_totalsales(&self) -> (r: BalanceQuery)
        ensures
            r == (BalanceQuery { asset: self@.asset, holder: self@.me }),
    {
        BalanceQuery { asset: self.asset.clone(), holder: self.me.clone() }
    }

    /// Withdrawal of the whole escrow: `escrow` is the balance that the
    /// asset ledger reported; the payout moves all of it to `to`. Only the
    /// stored admin may ask for it.
    pub fn cash_out(&self, admin: &String, to: &String, signers: &Vec<String>, escrow: i128) -> (r:
        Result<Transfer, Error>)
        ensures
            r == payout(self@, signers@, *admin, *to, escrow),
    {
        if require_auth(signers, admin).is_err() {
            return Err(Error::Unauthorized);
        }
        match &self.admin {
            None => Err(Error::NotInitialized),
            Some(a) => {
                if *a != *admin {
                    Err(Error::Unauthorized)
                } else {
                    Ok(transfer_to_another_address(&self.asset, &self.me, to, escrow))
                }
            },
        }
    }
}

} // verus!
