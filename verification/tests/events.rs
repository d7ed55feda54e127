use wallet_service::events::{Event, EventType, WalletEvent};
use wallet_service::identity::Timestamp;
use wallet_service::money::Money;

const ID_A: u128 = 0x67e5_5044_10b1_426f_9247_bb68_0e5f_e0c8;
const ID_B: u128 = 0x0000_0000_0000_0000_0000_0000_0000_00ff;

fn at(seconds: i64) -> Timestamp {
    Timestamp { seconds, nanos: 5 }
}

fn amount() -> Money {
    Money::new(2500, 2).unwrap()
}

fn all_events() -> Vec<WalletEvent> {
    vec![
        WalletEvent::WalletCreated {
            wallet_id: ID_A,
            user_id: "user-abc".to_string(),
            transaction_id: 1,
            initial_balance: Money::zero(),
            timestamp: at(1),
        },
        WalletEvent::WalletFunded {
            wallet_id: ID_A,
            user_id: "user-abc".to_string(),
            transaction_id: 2,
            amount: amount(),
            new_balance: amount(),
            timestamp: at(2),
        },
        WalletEvent::TransferCompleted {
            from_wallet_id: ID_A,
            to_wallet_id: ID_B,
            from_user_id: "user-abc".to_string(),
            to_user_id: "user-def".to_string(),
            amount: amount(),
            from_transaction_id: 3,
            to_transaction_id: 4,
            timestamp: at(3),
        },
        WalletEvent::TransferFailed {
            from_wallet_id: ID_A,
            to_wallet_id: ID_B,
            from_user_id: "user-abc".to_string(),
            amount: amount(),
            reason: "Insufficient balance".to_string(),
            timestamp: at(4),
        },
    ]
}

#[test]
fn event_type_matches_the_variant() {
    let kinds: Vec<EventType> = all_events().iter().map(|e| e.event_type()).collect();
    assert_eq!(
        kinds,
        vec![
            EventType::WalletCreated,
            EventType::WalletFunded,
            EventType::TransferCompleted,
            EventType::TransferFailed
        ]
    );
}

#[test]
fn timestamp_is_the_events_own() {
    let times: Vec<i64> = all_events().iter().map(|e| e.timestamp().seconds).collect();
    assert_eq!(times, vec![1, 2, 3, 4]);
    assert_eq!(all_events()[0].timestamp(), at(1));
}

#[test]
fn trait_methods_agree_with_inherent_ones() {
    for e in all_events() {
        assert_eq!(Event::event_type(&e), e.event_type());
        assert_eq!(Event::timestamp(&e), e.timestamp());
    }
}

#[test]
fn wallet_key_is_the_hyphenated_primary_wallet() {
    for e in all_events() {
        assert_eq!(e.wallet_key(), "67e55044-10b1-426f-9247-bb680e5fe0c8");
    }
}

#[test]
fn wallet_key_pads_with_zeros() {
    let e = WalletEvent::WalletCreated {
        wallet_id: ID_B,
        user_id: "u".to_string(),
        transaction_id: 0,
        initial_balance: Money::zero(),
        timestamp: at(0),
    };
    assert_eq!(e.wallet_key(), "00000000-0000-0000-0000-0000000000ff");
}

#[test]
fn different_wallets_get_different_keys() {
    let a = WalletEvent::WalletCreated {
        wallet_id: ID_A,
        user_id: "u".to_string(),
        transaction_id: 0,
        initial_balance: Money::zero(),
        timestamp: at(0),
    };
    let b = WalletEvent::WalletCreated {
        wallet_id: ID_A ^ 1,
        user_id: "u".to_string(),
        transaction_id: 0,
        initial_balance: Money::zero(),
        timestamp: at(0),
    };
    assert_ne!(a.wallet_key(), b.wallet_key());
}
