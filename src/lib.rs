//! A marketplace ledger: a catalog of products, the sales recorded against
//! them, and the payments that move between buyers, the contract's escrow
//! and its administrator.
//!
//! The host environment (identity verification, storage, the asset ledger)
//! stays outside: each operation takes what the host proved as plain values
//! and hands back the transfer that the host must carry out.

mod auth;
mod error;
mod laws;
mod ledger;
mod settlement;

pub use auth::{proves, require_auth};
pub use error::Error;
pub use laws::{
    lemma_initialize_twice, lemma_paid_after_purchase, lemma_paid_persists, lemma_purchase_appends,
    lemma_purchase_missing, lemma_register_twice, lemma_withdraw_non_admin,
};
pub use ledger::{
    add_product_step, catalog_wf, has_sale, initialize_step, key_present, paid_query, payout,
    product_query, purchase_charge, purchase_step, sale_of, DataKey, EcomContract, LedgerView,
    ProductView, Products, Sales,
};
pub use settlement::{get_native_asset_address, BalanceQuery, Transfer, NATIVE_ASSET};
