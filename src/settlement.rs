use vstd::prelude::*;

verus! {

/// The account of the asset in which every payment is settled.
pub const NATIVE_ASSET: &'static str = "CDLZFC3SYJYDZT7K67VZ75HPJVIEUVNIXF47ZG2FB2RMQQVU2HHGCYSC";

/// A movement of `amount` units of `asset` from `from` to `to`, to be carried
/// out by the asset ledger.
#[derive(Debug)]
pub struct Transfer {
    pub asset: String,
    pub from: String,
    pub to: String,
    pub amount: i128,
}

/// A request to the asset ledger for the balance that `holder` has in `asset`.
#[derive(Debug)]
pub struct BalanceQuery {
    pub asset: String,
    pub holder: String,
}

/// The settlement asset's account, as an owned string.
pub fn get_native_asset_address() -> (r: String)
    ensures
        r@ == NATIVE_ASSET@,
{
    NATIVE_ASSET.to_owned()
}

/// The charge of a purchase: `price` from the buyer into the escrow `me`.
pub fn user_pay_to_contract(asset: &String, me: &String, user: &String, price: i128) -> (r: Transfer)
    ensures
        r == (Transfer { asset: *asset, from: *user, to: *me, amount: price }),
{
    Transfer { asset: asset.clone(), from: user.clone(), to: me.clone(), amount: price }
}

/// A payout: `amount` from the escrow `me` to `to`.
pub fn transfer_to_another_address(asset: &String, me: &String, to: &String, amount: i128) -> (r: Transfer)
    ensures
        r == (Transfer { asset: *asset, from: *me, to: *to, amount }),
{
    Transfer { asset: asset.clone(), from: me.clone(), to: to.clone(), amount }
}

} // verus!
