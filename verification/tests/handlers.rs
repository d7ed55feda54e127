use wallet_service::errors::{contains_text, ApiError, StoreError, StoreErrorKind};
use wallet_service::events::WalletEvent;
use wallet_service::handlers::{
    check_amount, check_transfer, fund_plan, transfer_completed_event, transfer_done, wallet_created,
    wallet_created_event, wallet_found, wallet_funded, wallet_funded_event, wallets_listed, FundPlan,
    FundWalletRequest, TransferRequest,
};
use wallet_service::identity::Timestamp;
use wallet_service::money::{Money, MAX_MANTISSA};
use wallet_service::transfer::TransferOutcome;
use wallet_service::wallet::Wallet;

fn m(mantissa: i128, scale: u32) -> Money {
    Money::new(mantissa, scale).unwrap()
}

fn wallet(id: u128, balance: Money, version: i64) -> Wallet {
    Wallet {
        id,
        user_id: format!("user-{id}"),
        balance,
        version,
        created_at: Timestamp { seconds: 1, nanos: 0 },
        updated_at: Timestamp { seconds: 2, nanos: 0 },
    }
}

fn err(kind: StoreErrorKind, message: &str) -> StoreError {
    StoreError { kind, message: message.to_string() }
}

fn bad_request(e: &ApiError) -> &str {
    match e {
        ApiError::BadRequest(s) => s,
        other => panic!("expected 400, got {other:?}"),
    }
}

#[test]
fn non_positive_amounts_are_refused() {
    assert!(check_amount(&m(1, 2)).is_ok());
    for amount in [m(0, 0), m(0, 2), m(-500, 2)] {
        let e = check_amount(&amount).unwrap_err();
        assert_eq!(bad_request(&e), "Amount must be greater than zero");
        let request = FundWalletRequest { amount };
        assert!(check_amount(&request.amount).is_err());
    }
}

#[test]
fn transfer_checks_amount_then_destination() {
    let ok = TransferRequest { to_wallet_id: 2, amount: m(1, 0) };
    assert!(check_transfer(1, &ok).is_ok());
    let same = TransferRequest { to_wallet_id: 1, amount: m(1, 0) };
    assert_eq!(bad_request(&check_transfer(1, &same).unwrap_err()), "Cannot transfer to the same wallet");
    let both = TransferRequest { to_wallet_id: 1, amount: m(0, 0) };
    assert_eq!(bad_request(&check_transfer(1, &both).unwrap_err()), "Amount must be greater than zero");
}

#[test]
fn lookup_answers() {
    let r = wallet_found(Ok(wallet(5, m(100, 0), 2))).unwrap();
    assert_eq!((r.id, r.version, r.balance.mantissa()), (5, 2, 100));
    let e = wallet_found(Err(err(StoreErrorKind::RowNotFound, "no rows"))).unwrap_err();
    assert!(matches!(e, ApiError::NotFound(ref s) if s == "Wallet not found"));
    let e = wallet_found(Err(err(StoreErrorKind::Other, "pool timed out"))).unwrap_err();
    assert!(matches!(e, ApiError::Internal(ref s) if s == "pool timed out"));
}

#[test]
fn listing_keeps_the_store_order() {
    let rs = wallets_listed(Ok(vec![wallet(3, m(1, 0), 0), wallet(1, m(2, 0), 1)])).unwrap();
    let ids: Vec<u128> = rs.iter().map(|r| r.id).collect();
    assert_eq!(ids, vec![3, 1]);
    assert_eq!(rs[1].user_id, "user-1");
    assert!(wallets_listed(Ok(vec![])).unwrap().is_empty());
    let e = wallets_listed(Err(err(StoreErrorKind::RowNotFound, "no rows"))).unwrap_err();
    assert!(matches!(e, ApiError::Internal(ref s) if s == "no rows"));
}

#[test]
fn creation_answers_with_event_and_response() {
    let (event, response) = wallet_created(Ok(wallet(9, Money::zero(), 0))).unwrap();
    assert_eq!(response.id, 9);
    match &event {
        WalletEvent::WalletCreated { transaction_id, timestamp, .. } => {
            assert_eq!((transaction_id >> 76) & 0xf, 4);
            assert!(timestamp.seconds > 0 && timestamp.nanos < 1_000_000_000);
        }
        other => panic!("unexpected {other:?}"),
    }
    match event {
        WalletEvent::WalletCreated { wallet_id, user_id, initial_balance, .. } => {
            assert_eq!(wallet_id, 9);
            assert_eq!(user_id, "user-9");
            assert_eq!(initial_balance.mantissa(), 0);
        }
        other => panic!("unexpected {other:?}"),
    }
    let e = wallet_created(Err(err(StoreErrorKind::Other, "duplicate key"))).unwrap_err();
    assert!(matches!(e, ApiError::Internal(ref s) if s == "duplicate key"));
    let at = Timestamp { seconds: 77, nanos: 1 };
    let ev = wallet_created_event(&wallet(9, Money::zero(), 0), 123, at);
    assert!(matches!(ev, WalletEvent::WalletCreated { transaction_id: 123, timestamp, .. } if timestamp == at));
}

#[test]
fn funding_writes_balance_plus_amount_at_the_version_read() {
    match fund_plan(&m(2500, 2), Ok(wallet(4, m(10000, 2), 6))) {
        FundPlan::Update(u) => {
            assert_eq!((u.id, u.expected_version), (4, 6));
            assert_eq!((u.new_balance.mantissa(), u.new_balance.scale()), (12500, 2));
        }
        other => panic!("unexpected {other:?}"),
    }
    // an empty wallet gets exactly the amount
    match fund_plan(&m(10000, 2), Ok(wallet(4, Money::zero(), 0))) {
        FundPlan::Update(u) => assert_eq!((u.new_balance.mantissa(), u.new_balance.scale()), (10000, 2)),
        other => panic!("unexpected {other:?}"),
    }
    assert!(matches!(fund_plan(&m(1, 0), Ok(wallet(4, m(MAX_MANTISSA, 0), 0))), FundPlan::Overflowed));
    assert!(matches!(
        fund_plan(&m(1, 0), Err(err(StoreErrorKind::RowNotFound, "x"))),
        FundPlan::Refused(ApiError::NotFound(ref s)) if s == "Wallet not found"
    ));
}

#[test]
fn funding_answers() {
    let (event, response) = wallet_funded(m(2500, 2), Ok(wallet(4, m(12500, 2), 7))).unwrap();
    assert_eq!(response.version, 7);
    match event {
        WalletEvent::WalletFunded { wallet_id, amount, new_balance, .. } => {
            assert_eq!(wallet_id, 4);
            assert_eq!(amount.mantissa(), 2500);
            assert_eq!(new_balance.mantissa(), 12500);
        }
        other => panic!("unexpected {other:?}"),
    }
    let e = wallet_funded(m(1, 0), Err(err(StoreErrorKind::RowNotFound, "no rows"))).unwrap_err();
    assert!(matches!(e, ApiError::Conflict(ref s) if s == "Concurrent modification detected, please retry"));
    let e = wallet_funded(m(1, 0), Err(err(StoreErrorKind::Other, "broken pipe"))).unwrap_err();
    assert!(matches!(e, ApiError::Internal(ref s) if s == "broken pipe"));
    let ev = wallet_funded_event(&wallet(4, m(3, 0), 1), m(2, 0), 5, Timestamp { seconds: 0, nanos: 0 });
    assert!(matches!(ev, WalletEvent::WalletFunded { transaction_id: 5, .. }));
}

#[test]
fn transfer_answers() {
    let (event, response) =
        transfer_done(m(25, 0), Ok((wallet(1, m(75, 0), 1), wallet(2, m(30, 0), 5)))).unwrap();
    // the answer shows the destination wallet
    assert_eq!((response.id, response.version), (2, 5));
    match event {
        WalletEvent::TransferCompleted {
            from_wallet_id,
            to_wallet_id,
            from_user_id,
            to_user_id,
            amount,
            from_transaction_id,
            to_transaction_id,
            ..
        } => {
            assert_eq!((from_transaction_id >> 76) & 0xf, 4);
            assert_eq!((to_transaction_id >> 62) & 0x3, 2);
            assert_ne!(from_transaction_id, to_transaction_id);
            assert_eq!((from_wallet_id, to_wallet_id), (1, 2));
            assert_eq!((from_user_id.as_str(), to_user_id.as_str()), ("user-1", "user-2"));
            assert_eq!(amount.mantissa(), 25);
        }
        other => panic!("unexpected {other:?}"),
    }
    let e = transfer_done(m(1, 0), Err(err(StoreErrorKind::RowNotFound, "no rows"))).unwrap_err();
    assert!(matches!(e, ApiError::NotFound(ref s) if s == "Wallet not found"));
    let reason = TransferOutcome::insufficient_balance_reason();
    let e = transfer_done(
        m(1, 0),
        Err(err(StoreErrorKind::Protocol(reason), "encountered unexpected or invalid data: Insufficient balance")),
    )
    .unwrap_err();
    assert_eq!(bad_request(&e), "Insufficient balance");
    let e = transfer_done(m(1, 0), Err(err(StoreErrorKind::Protocol("bad frame".to_string()), "protocol: bad frame")))
        .unwrap_err();
    assert!(matches!(e, ApiError::Internal(ref s) if s == "protocol: bad frame"));
    let e = transfer_done(m(1, 0), Err(err(StoreErrorKind::Other, "io"))).unwrap_err();
    assert!(matches!(e, ApiError::Internal(ref s) if s == "io"));
    let ev = transfer_completed_event(&wallet(1, m(0, 0), 0), &wallet(2, m(0, 0), 0), m(1, 0), 7, 8, Timestamp { seconds: 3, nanos: 0 });
    assert!(matches!(ev, WalletEvent::TransferCompleted { from_transaction_id: 7, to_transaction_id: 8, .. }));
}

#[test]
fn substring_search() {
    assert!(contains_text("Insufficient balance", "Insufficient balance"));
    assert!(contains_text("error: Insufficient balance!", "Insufficient balance"));
    assert!(contains_text("abc", ""));
    assert!(!contains_text("Insufficient", "Insufficient balance"));
    assert!(!contains_text("insufficient balance", "Insufficient balance"));
    assert!(contains_text("äöü", "öü"));
}
