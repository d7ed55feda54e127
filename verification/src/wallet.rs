//! Wallet records and the shapes in which they are asked for and answered.

use vstd::prelude::*;
use crate::identity::{
    draw_id, drawn_at_random, is_clock_reading, is_random_v4, read_clock, read_from_clock, Timestamp,
};
use crate::money::Money;

verus! {

/// A wallet as the store keeps it.  `version` counts the balance updates that
/// the store has applied; an update names the version it read and is refused
/// when another update came first.
#[derive(Clone, Debug)]
pub struct Wallet {
    pub id: u128,
    pub user_id: String,
    pub balance: Money,
    pub version: i64,
    pub created_at: Timestamp,
    pub updated_at: Timestamp,
}

impl Wallet {
    /// A new, empty wallet of `user_id`: a fresh random (version 4)
    /// identifier, a balance of zero, version 0, and the current time as
    /// creation and update time.
    pub fn new(user_id: String) -> (r: Wallet)
        ensures
            r.user_id == user_id,
            is_random_v4(r.id),
            is_clock_reading(r.created_at),
            is_clock_reading(r.updated_at),
            drawn_at_random(r.id),
            read_from_clock(r.created_at),
            read_from_clock(r.updated_at),
            r.balance.mantissa() == 0,
            r.balance.scale() == 0,
            r.version == 0,
    {
        let id = draw_id();
        let created_at = read_clock();
        let updated_at = read_clock();
        Wallet { id, user_id, balance: Money::zero(), version: 0, created_at, updated_at }
    }
}

/// The body of a request that creates a wallet.
#[derive(Clone, Debug)]
pub struct CreateWalletRequest {
    pub user_id: String,
}

/// What a client is shown of a wallet.
#[derive(Clone, Debug)]
pub struct WalletResponse {
    pub id: u128,
    pub user_id: String,
    pub balance: Money,
    pub version: i64,
}

impl WalletResponse {
    /// The response that shows `wallet`: its identifier, owner, balance and version.
    pub open spec fn of(wallet: Wallet) -> WalletResponse {
        WalletResponse {
            id: wallet.id,
            user_id: wallet.user_id,
            balance: wallet.balance,
            version: wallet.version,
        }
    }
}

impl From<Wallet> for WalletResponse {
    fn from(wallet: Wallet) -> (r: WalletResponse)
        ensures
            r.id == wallet.id,
            r.user_id == wallet.user_id,
            r.balance == wallet.balance,
            r.version == wallet.version,
    {
        WalletResponse {
            id: wallet.id,
            user_id: wallet.user_id,
            balance: wallet.balance,
            version: wallet.version,
        }
    }
}

impl vstd::std_specs::convert::FromSpecImpl<Wallet> for WalletResponse {
    open spec fn obeys_from_spec() -> bool {
        true
    }

    open spec fn from_spec(v: Wallet) -> WalletResponse {
        WalletResponse::of(v)
    }
}

/// A response shows the wallet it is made from as it is: the same
/// identifier, owner, balance (mantissa and scale) and version.
pub proof fn law_response_shows_the_wallet(wallet: Wallet)
    ensures
        WalletResponse::of(wallet).id == wallet.id,
        WalletResponse::of(wallet).user_id == wallet.user_id,
        WalletResponse::of(wallet).balance == wallet.balance,
        WalletResponse::of(wallet).balance.parts() == wallet.balance.parts(),
        WalletResponse::of(wallet).version == wallet.version,
{
}

} // verus!
