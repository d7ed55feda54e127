use wallet_service::identity::Timestamp;
use wallet_service::money::{Money, MAX_MANTISSA};
use wallet_service::transfer::{Overflow, Reply, TransferAction, TransferOutcome, TransferRun};
use wallet_service::wallet::Wallet;

const FROM: u128 = 20;
const TO: u128 = 10;

fn m(mantissa: i128, scale: u32) -> Money {
    Money::new(mantissa, scale).unwrap()
}

fn wallet(id: u128, balance: Money, version: i64) -> Wallet {
    Wallet {
        id,
        user_id: format!("user-{id}"),
        balance,
        version,
        created_at: Timestamp { seconds: 1, nanos: 0 },
        updated_at: Timestamp { seconds: 1, nanos: 0 },
    }
}

/// Runs the protocol up to the point where both rows were read.
fn read_both(amount: Money, from: Wallet, to: Wallet) -> (TransferRun, TransferAction) {
    let (run, action) = TransferRun::start(FROM, TO, amount);
    assert!(matches!(action, TransferAction::Begin));
    let (run, action) = run.advance(Reply::Done);
    assert!(matches!(action, TransferAction::Lock { first: TO, second: FROM }));
    let (run, action) = run.advance(Reply::Done);
    assert!(matches!(action, TransferAction::Fetch { id: FROM }));
    let (run, action) = run.advance(Reply::Row(from));
    assert!(matches!(action, TransferAction::Fetch { id: TO }));
    run.advance(Reply::Row(to))
}

#[test]
fn completed_transfer_debits_credits_and_commits() {
    let (run, action) = read_both(m(2500, 2), wallet(FROM, m(10000, 2), 3), wallet(TO, m(500, 2), 8));
    let TransferAction::UpdateBalance { id, new_balance, expected_version } = action else {
        panic!("expected the debit");
    };
    assert_eq!((id, expected_version), (FROM, 3));
    assert_eq!((new_balance.mantissa(), new_balance.scale()), (7500, 2));
    let (run, action) = run.advance(Reply::Row(wallet(FROM, new_balance, 4)));
    let TransferAction::UpdateBalance { id, new_balance, expected_version } = action else {
        panic!("expected the credit");
    };
    assert_eq!((id, expected_version), (TO, 8));
    assert_eq!((new_balance.mantissa(), new_balance.scale()), (3000, 2));
    // 75.00 + 30.00 == 100.00 + 5.00
    assert_eq!(7500 + new_balance.mantissa(), 10000 + 500);
    let (run, action) = run.advance(Reply::Row(wallet(TO, new_balance, 9)));
    assert!(matches!(action, TransferAction::Commit));
    let (_, action) = run.advance(Reply::Done);
    let TransferAction::Finish(TransferOutcome::Completed { from, to }) = action else {
        panic!("expected completion");
    };
    assert_eq!((from.id, from.version, from.balance.mantissa()), (FROM, 4, 7500));
    assert_eq!((to.id, to.version, to.balance.mantissa()), (TO, 9, 3000));
}

#[test]
fn opposite_transfers_lock_in_the_same_order() {
    let (run, _) = TransferRun::start(FROM, TO, m(1, 0));
    let (_, a) = run.advance(Reply::Done);
    let (run, _) = TransferRun::start(TO, FROM, m(1, 0));
    let (_, b) = run.advance(Reply::Done);
    assert!(matches!(a, TransferAction::Lock { first: 10, second: 20 }));
    assert!(matches!(b, TransferAction::Lock { first: 10, second: 20 }));
}

#[test]
fn insufficient_balance_is_refused_before_any_update() {
    let (_, action) = read_both(m(10001, 2), wallet(FROM, m(10000, 2), 0), wallet(TO, m(0, 0), 0));
    assert!(matches!(action, TransferAction::Finish(TransferOutcome::InsufficientBalance)));
    assert_eq!(TransferOutcome::insufficient_balance_reason(), "Insufficient balance");
}

#[test]
fn exact_balance_can_be_transferred() {
    let (_, action) = read_both(m(100, 0), wallet(FROM, m(10000, 2), 0), wallet(TO, m(0, 0), 0));
    let TransferAction::UpdateBalance { new_balance, .. } = action else {
        panic!("expected the debit");
    };
    assert_eq!(new_balance.mantissa(), 0);
}

#[test]
fn a_failed_statement_ends_the_run_without_commit() {
    for failing_step in 0..7 {
        let (mut run, mut action) = TransferRun::start(FROM, TO, m(1, 0));
        let mut step = 0;
        loop {
            if let TransferAction::Finish(outcome) = action {
                assert!(matches!(outcome, TransferOutcome::StoreFailed));
                assert_eq!(step, failing_step + 1);
                break;
            }
            let reply = if step == failing_step {
                Reply::Failed
            } else {
                match action {
                    TransferAction::Fetch { id } | TransferAction::UpdateBalance { id, .. } => {
                        Reply::Row(wallet(id, m(5, 0), 0))
                    }
                    _ => Reply::Done,
                }
            };
            let (next, a) = run.advance(reply);
            run = next;
            action = a;
            step += 1;
        }
    }
}

#[test]
fn overflowing_balances_stop_the_run() {
    let (_, action) = read_both(m(-1, 0), wallet(FROM, m(MAX_MANTISSA, 0), 0), wallet(TO, m(0, 0), 0));
    assert!(matches!(action, TransferAction::Finish(TransferOutcome::Overflow(Overflow::Subtraction))));
    let (run, action) = read_both(m(1, 0), wallet(FROM, m(5, 0), 0), wallet(TO, m(MAX_MANTISSA, 0), 0));
    assert!(matches!(action, TransferAction::UpdateBalance { .. }));
    let (_, action) = run.advance(Reply::Row(wallet(FROM, m(4, 0), 1)));
    assert!(matches!(action, TransferAction::Finish(TransferOutcome::Overflow(Overflow::Addition))));
}

#[test]
fn transfer_between_scales_is_exact() {
    // 100 - 25.50 = 74.50 and 5.5 + 25.50 = 31.00: 74.50 + 31.00 == 100 + 5.5
    let (run, action) = read_both(m(2550, 2), wallet(FROM, m(100, 0), 1), wallet(TO, m(55, 1), 2));
    let TransferAction::UpdateBalance { new_balance: debited, .. } = action else {
        panic!("expected the debit");
    };
    assert_eq!((debited.mantissa(), debited.scale()), (7450, 2));
    let (_, action) = run.advance(Reply::Row(wallet(FROM, debited, 2)));
    let TransferAction::UpdateBalance { new_balance: credited, .. } = action else {
        panic!("expected the credit");
    };
    assert_eq!((credited.mantissa(), credited.scale()), (3100, 2));
    assert_eq!(debited.mantissa() + credited.mantissa(), 100 * 100 + 55 * 10);
}

#[test]
fn a_committed_debit_leaves_no_negative_balance() {
    let (_, action) = read_both(m(10000, 2), wallet(FROM, m(100, 0), 0), wallet(TO, m(0, 0), 0));
    let TransferAction::UpdateBalance { new_balance, .. } = action else {
        panic!("expected the debit");
    };
    assert_eq!(new_balance.mantissa(), 0);
    assert!(!new_balance.less_than(&Money::zero()));
}
