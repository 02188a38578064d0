use vstd::prelude::*;

use crate::auth::proves;
use crate::error::Error;
use crate::ledger::{
    add_product_step, catalog_wf, has_sale, initialize_step, paid_query, payout, purchase_charge,
    purchase_step, sale_of, LedgerView, ProductView,
};

verus! {

/// Registering the same id a second time fails with `ProductExists` and
/// leaves the first registration as it was.
pub proof fn lemma_register_twice(
    s: LedgerView,
    signers: Seq<String>,
    id: i32,
    name: String,
    price: i128,
    quantity: i32,
    name2: String,
    price2: i128,
    quantity2: i32,
)
    requires
        add_product_step(s, signers, id, name, price, quantity).0 == Ok::<bool, Error>(true),
    ensures
        ({
            let s1 = add_product_step(s, signers, id, name, price, quantity).1;
            &&& add_product_step(s1, signers, id, name2, price2, quantity2) == (
            Err::<bool, Error>(Error::ProductExists),
            s1,
            )
            &&& s1.catalog[id] == (ProductView { id, name, price, quantity, sales: Seq::empty() })
        }),
{
}

/// A purchase of an id that is not in the catalog, by a buyer who proved
/// control, fails with `NotFound`: no charge is asked of the asset ledger
/// and the ledger is unchanged, whatever the settlement outcome.
pub proof fn lemma_purchase_missing(
    s: LedgerView,
    signers: Seq<String>,
    id: i32,
    person: String,
    settled: bool,
)
    requires
        proves(signers, person),
        !s.catalog.contains_key(id),
    ensures
        purchase_charge(s, signers, id, person) == Err::<crate::settlement::Transfer, Error>(
            Error::NotFound,
        ),
        purchase_step(s, signers, id, person, settled) == (Err::<bool, Error>(Error::NotFound), s),
{
}

/// A successful purchase appends exactly one sale, charged at the product's
/// price at call time, keeps the earlier sales and the product's other data,
/// and charges that same price.
pub proof fn lemma_purchase_appends(s: LedgerView, signers: Seq<String>, id: i32, person: String)
    requires
        purchase_step(s, signers, id, person, true).0 is Ok,
    ensures
        ({
            let s1 = purchase_step(s, signers, id, person, true).1;
            let before = s.catalog[id].sales;
            let after = s1.catalog[id].sales;
            &&& s.catalog.contains_key(id)
            &&& s1.catalog.contains_key(id)
            &&& after.len() == before.len() + 1
            &&& after.subrange(0, before.len() as int) == before
            &&& after.last().price == s.catalog[id].price
            &&& after.last().person == person
            &&& purchase_charge(s, signers, id, person) matches Ok(t) && t.amount
                == s.catalog[id].price
            &&& s1.catalog.dom() == s.catalog.dom()
            &&& forall|k: i32| k != id && s.catalog.contains_key(k) ==> s1.catalog[k] == s.catalog[k]
        }),
{
    let s1 = purchase_step(s, signers, id, person, true).1;
    let before = s.catalog[id].sales;
    assert(s1.catalog[id].sales.subrange(0, before.len() as int) =~= before);
    assert(s1.catalog.dom() =~= s.catalog.dom());
}

/// `was_paid` is true of a sale right after it was recorded, and stays true
/// whatever purchases come after: its answer depends on what the history
/// holds, not on the order in which it was filled.
pub proof fn lemma_paid_after_purchase(
    s: LedgerView,
    signers: Seq<String>,
    id: i32,
    person: String,
)
    requires
        purchase_step(s, signers, id, person, true).0 is Ok,
        catalog_wf(s.catalog),
    ensures
        paid_query(purchase_step(s, signers, id, person, true).1, id, person, id) == Ok::<
            bool,
            Error,
        >(true),
{
    let s1 = purchase_step(s, signers, id, person, true).1;
    let after = s1.catalog[id].sales;
    assert(after[after.len() - 1] == sale_of(s.catalog[id], person));
    assert(has_sale(after, person, id));
}

/// Once `was_paid` holds, any later purchase attempt, settled or not, leaves
/// it holding.
pub proof fn lemma_paid_persists(
    s: LedgerView,
    product_id: i32,
    user: String,
    sale_id: i32,
    signers: Seq<String>,
    id: i32,
    person: String,
    settled: bool,
)
    requires
        paid_query(s, product_id, user, sale_id) == Ok::<bool, Error>(true),
    ensures
        paid_query(purchase_step(s, signers, id, person, settled).1, product_id, user, sale_id)
            == Ok::<bool, Error>(true),
{
    let s1 = purchase_step(s, signers, id, person, settled).1;
    let old_sales = s.catalog[product_id].sales;
    let i = choose|i: int|
        0 <= i < old_sales.len() && (#[trigger] old_sales[i]).id == sale_id && old_sales[i].person@
            == user@;
    let new_sales = s1.catalog[product_id].sales;
    assert(new_sales[i] == old_sales[i]);
    assert(has_sale(new_sales, user, sale_id));
}

/// A second `initialize` by a caller who proved control of the identity it
/// names fails with `AlreadyInitialized` and leaves the admin record as it is.
pub proof fn lemma_initialize_twice(
    s: LedgerView,
    signers: Seq<String>,
    admin: String,
    signers2: Seq<String>,
    admin2: String,
)
    requires
        initialize_step(s, signers, admin).0 == Ok::<bool, Error>(true),
        proves(signers2, admin2),
    ensures
        ({
            let s1 = initialize_step(s, signers, admin).1;
            &&& s1.admin == Some(admin)
            &&& initialize_step(s1, signers2, admin2) == (
            Err::<bool, Error>(Error::AlreadyInitialized),
            s1,
            )
        }),
{
}

/// Once an admin is set, a withdrawal asked by any other identity fails with
/// `Unauthorized`: no payout is issued, so the escrow keeps its balance.
pub proof fn lemma_withdraw_non_admin(
    s: LedgerView,
    signers: Seq<String>,
    admin: String,
    to: String,
    escrow: i128,
)
    requires
        s.admin is Some,
        s.admin->Some_0@ != admin@,
    ensures
        payout(s, signers, admin, to, escrow) == Err::<crate::settlement::Transfer, Error>(
            Error::Unauthorized,
        ),
{
}

} // verus!
