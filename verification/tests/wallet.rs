use wallet_service::identity::Timestamp;
use wallet_service::money::Money;
use wallet_service::wallet::{CreateWalletRequest, Wallet, WalletResponse};

#[test]
fn new_wallet_is_empty_at_version_zero() {
    let request = CreateWalletRequest { user_id: "user-abc".to_string() };
    let w = Wallet::new(request.user_id.clone());
    assert_eq!(w.user_id, "user-abc");
    assert_eq!(w.balance.mantissa(), 0);
    assert_eq!(w.balance.scale(), 0);
    assert_eq!(w.version, 0);
    assert!(w.created_at.seconds > 0);
    // UUID version 4
    assert_eq!((w.id >> 76) & 0xf, 4);
    // RFC 4122 variant
    assert_eq!((w.id >> 62) & 0x3, 2);
}

#[test]
fn new_wallets_get_distinct_ids() {
    let a = Wallet::new("u".to_string());
    let b = Wallet::new("u".to_string());
    assert_ne!(a.id, b.id);
}

#[test]
fn response_shows_identity_owner_balance_and_version() {
    let w = Wallet {
        id: 42,
        user_id: "user-abc".to_string(),
        balance: Money::new(12550, 2).unwrap(),
        version: 7,
        created_at: Timestamp { seconds: 10, nanos: 0 },
        updated_at: Timestamp { seconds: 20, nanos: 0 },
    };
    let r = WalletResponse::from(w);
    assert_eq!(r.id, 42);
    assert_eq!(r.user_id, "user-abc");
    assert_eq!((r.balance.mantissa(), r.balance.scale()), (12550, 2));
    assert_eq!(r.version, 7);
}
