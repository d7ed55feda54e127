//! The transfer of an amount between two wallets, as the wallet store runs it
//! inside one database transaction.
//!
//! The store's own code performs each statement and reports how it went; the
//! decisions between the statements are taken here.  A [`TransferRun`] is
//! started with the two wallets and the amount and answers each [`Reply`]
//! with the next [`TransferAction`]:
//!
//! 1. begin a transaction;
//! 2. lock both rows, the smaller identifier first, so that two transfers in
//!    opposite directions cannot deadlock;
//! 3. read the source row, then the destination row;
//! 4. refuse the transfer if the source balance is below the amount;
//! 5. write the debited source balance, then the credited destination
//!    balance, each guarded by the version that was read;
//! 6. commit, and hand back the two rows that the updates returned.
//!
//! Any failed statement ends the run at once, without a commit, so the
//! transaction is rolled back and neither wallet changes.

use vstd::prelude::*;
use crate::money::{
    difference_is_exact, difference_result, lemma_difference_exact, lemma_lt_is_scaled_order,
    lemma_scaled_sign, lemma_sum_exact, money_lt, scaled, sum_is_exact, sum_result, Money,
};
use crate::wallet::Wallet;

verus! {

/// How a statement of the run went.
#[derive(Debug)]
pub enum Reply {
    /// The statement succeeded and returned no row that the run reads.
    Done,
    /// The statement succeeded and returned this row.
    Row(Wallet),
    /// The statement failed.
    Failed,
}

/// Which arithmetic overflowed (where `Decimal`'s operator would panic).
#[derive(Clone, Copy, Debug, PartialEq, Eq, Structural)]
pub enum Overflow {
    /// The debit of the source wallet ("Subtraction overflowed").
    Subtraction,
    /// The credit of the destination wallet ("Addition overflowed").
    Addition,
}

/// How a run ends.
#[derive(Debug)]
pub enum TransferOutcome {
    /// Committed; the rows that the two updates returned.
    Completed { from: Wallet, to: Wallet },
    /// The last statement failed; its error is the run's error.
    StoreFailed,
    /// The source balance is below the amount.
    InsufficientBalance,
    /// A new balance does not fit in a decimal.
    Overflow(Overflow),
}

impl TransferOutcome {
    /// The reason with which the store refuses a transfer from a wallet whose
    /// balance is below the amount.
    pub fn insufficient_balance_reason() -> (r: String)
        ensures
            r@ == "Insufficient balance"@,
    {
        String::from_str("Insufficient balance")
    }
}

/// What the store does next.
#[derive(Debug)]
pub enum TransferAction {
    /// Begin a transaction.
    Begin,
    /// Lock the rows of both wallets, `first` before `second`.
    Lock { first: u128, second: u128 },
    /// Read the row of wallet `id`.
    Fetch { id: u128 },
    /// Set the balance of wallet `id` to `new_balance` and advance its
    /// version, provided its version is still `expected_version`; return the
    /// updated row.
    UpdateBalance { id: u128, new_balance: Money, expected_version: i64 },
    /// Commit the transaction.
    Commit,
    /// Stop; where the outcome is not `Completed`, nothing is committed.
    Finish(TransferOutcome),
}

/// The order in which the two rows are locked: the smaller identifier first.
pub open spec fn lock_order(a: u128, b: u128) -> (u128, u128) {
    if a < b {
        (a, b)
    } else {
        (b, a)
    }
}

/// The wallet of a reply that carries a row.
pub open spec fn row(r: Reply) -> Wallet {
    match r {
        Reply::Row(w) => w,
        _ => arbitrary(),
    }
}

/// The step after reading the source row `from`: refuse, or debit it.
pub open spec fn debit_step(from_id: u128, amount: Money, from: Wallet) -> TransferAction {
    if money_lt(from.balance, amount) {
        TransferAction::Finish(TransferOutcome::InsufficientBalance)
    } else {
        match difference_result(from.balance, amount) {
            None => TransferAction::Finish(TransferOutcome::Overflow(Overflow::Subtraction)),
            Some(p) => TransferAction::UpdateBalance {
                id: from_id,
                new_balance: Money::from_parts(p),
                expected_version: from.version,
            },
        }
    }
}

/// The step after the debit: credit the destination row `to` as it was read.
pub open spec fn credit_step(to_id: u128, amount: Money, to: Wallet) -> TransferAction {
    match sum_result(to.balance, amount) {
        None => TransferAction::Finish(TransferOutcome::Overflow(Overflow::Addition)),
        Some(p) => TransferAction::UpdateBalance {
            id: to_id,
            new_balance: Money::from_parts(p),
            expected_version: to.version,
        },
    }
}

/// The action that follows the replies `h` in a transfer of `amount` from
/// wallet `from_id` to wallet `to_id`.
pub open spec fn next_action(from_id: u128, to_id: u128, amount: Money, h: Seq<Reply>) -> TransferAction {
    if h.len() == 0 {
        TransferAction::Begin
    } else if h.last() is Failed {
        TransferAction::Finish(TransferOutcome::StoreFailed)
    } else if h.len() == 1 {
        TransferAction::Lock { first: lock_order(from_id, to_id).0, second: lock_order(from_id, to_id).1 }
    } else if h.len() == 2 {
        TransferAction::Fetch { id: from_id }
    } else if h.len() == 3 {
        TransferAction::Fetch { id: to_id }
    } else if h.len() == 4 {
        debit_step(from_id, amount, row(h[2]))
    } else if h.len() == 5 {
        credit_step(to_id, amount, row(h[3]))
    } else if h.len() == 6 {
        TransferAction::Commit
    } else {
        TransferAction::Finish(TransferOutcome::Completed { from: row(h[4]), to: row(h[5]) })
    }
}

/// Whether `reply` can answer `action`: a statement that returns a row
/// answers with a row or a failure, the others with `Done` or a failure.
pub open spec fn reply_fits(action: TransferAction, reply: Reply) -> bool {
    match action {
        TransferAction::Fetch { .. } => reply is Row || reply is Failed,
        TransferAction::UpdateBalance { .. } => reply is Row || reply is Failed,
        TransferAction::Finish(_) => false,
        _ => reply is Done || reply is Failed,
    }
}

/// Whether `h` can be the replies of a run: each reply answers the action
/// that the replies before it called for.
pub open spec fn valid_history(from_id: u128, to_id: u128, amount: Money, h: Seq<Reply>) -> bool {
    forall|i: int|
        0 <= i < h.len() ==> #[trigger] reply_fits(next_action(from_id, to_id, amount, h.take(i)), h[i])
}

enum Stage {
    Begin,
    Lock,
    FetchFrom,
    FetchTo { from: Wallet },
    UpdateFrom { to: Wallet },
    UpdateTo { updated_from: Wallet },
    Commit { updated_from: Wallet, updated_to: Wallet },
    Finished,
}

/// A transfer in progress.
pub struct TransferRun {
    from_id: u128,
    to_id: u128,
    amount: Money,
    stage: Stage,
    history: Ghost<Seq<Reply>>,
}

impl TransferRun {
    pub closed spec fn from_id(&self) -> u128 {
        self.from_id
    }

    pub closed spec fn to_id(&self) -> u128 {
        self.to_id
    }

    pub closed spec fn amount(&self) -> Money {
        self.amount
    }

    /// The replies received so far.
    pub closed spec fn history(&self) -> Seq<Reply> {
        self.history@
    }

    /// The action that the run waits to hear about.
    pub open spec fn pending(&self) -> TransferAction {
        next_action(self.from_id(), self.to_id(), self.amount(), self.history())
    }

    /// Whether the run has ended.
    pub open spec fn finished(&self) -> bool {
        self.pending() is Finish
    }

    #[verifier::type_invariant]
    spec fn consistent(self) -> bool {
        let h = self.history@;
        let next = next_action(self.from_id, self.to_id, self.amount, h);
        &&& valid_history(self.from_id, self.to_id, self.amount, h)
        &&& (self.stage is Finished <==> next is Finish)
        &&& match self.stage {
            Stage::Begin => h.len() == 0,
            Stage::Lock => h.len() == 1,
            Stage::FetchFrom => h.len() == 2,
            Stage::FetchTo { from } => h.len() == 3 && h[2] == Reply::Row(from),
            Stage::UpdateFrom { to } => h.len() == 4 && h[3] == Reply::Row(to),
            Stage::UpdateTo { updated_from } => h.len() == 5 && h[4] == Reply::Row(updated_from),
            Stage::Commit { updated_from, updated_to } => h.len() == 6 && h[4] == Reply::Row(
                updated_from,
            ) && h[5] == Reply::Row(updated_to),
            Stage::Finished => true,
        }
    }

    /// Starts a transfer of `amount` from wallet `from_id` to wallet `to_id`;
    /// the first action is to begin a transaction.
    pub fn start(from_id: u128, to_id: u128, amount: Money) -> (r: (TransferRun, TransferAction))
        ensures
            r.0.from_id() == from_id,
            r.0.to_id() == to_id,
            r.0.amount() == amount,
            r.0.history() == Seq::<Reply>::empty(),
            r.1 == r.0.pending(),
            r.1 is Begin,
            valid_history(from_id, to_id, amount, r.0.history()),
    {
        let run = TransferRun { from_id, to_id, amount, stage: Stage::Begin, history: Ghost(Seq::empty()) };
        (run, TransferAction::Begin)
    }

    /// Takes the reply to the pending action and returns the run with that
    /// reply recorded, and the next action.  No balance it asks to write
    /// overdraws: the debit is never negative (a source balance below the
    /// amount is refused), and the credit is not negative where the
    /// destination balance and the amount are not; this holds on every input,
    /// rounded or not.
    pub fn advance(self, reply: Reply) -> (r: (TransferRun, TransferAction))
        requires
            !self.finished(),
            reply_fits(self.pending(), reply),
        ensures
            r.0.from_id() == self.from_id(),
            r.0.to_id() == self.to_id(),
            r.0.amount() == self.amount(),
            r.0.history() == self.history().push(reply),
            r.1 == r.0.pending(),
            valid_history(r.0.from_id(), r.0.to_id(), r.0.amount(), r.0.history()),
            r.0.history().len() == 4 ==> (r.1 matches TransferAction::UpdateBalance {
                new_balance,
                ..
            } ==> new_balance.mantissa() >= 0),
            r.0.history().len() == 5 && row(r.0.history()[3]).balance.mantissa() >= 0
                && r.0.amount().mantissa() >= 0 ==> (r.1 matches TransferAction::UpdateBalance {
                new_balance,
                ..
            } ==> new_balance.mantissa() >= 0),
    {
        proof {
            use_type_invariant(&self);
        }
        let ghost old_h = self.history@;
        let ghost h = old_h.push(reply);
        assert(h.take(old_h.len() as int) == old_h);
        assert forall|i: int| 0 <= i < old_h.len() implies h.take(i) == old_h.take(i) && h[i] == old_h[i] by {
            assert(h.take(i) =~= old_h.take(i));
        }
        let TransferRun { from_id, to_id, amount, stage, history: _ } = self;
        let (stage, action) = match reply {
            Reply::Failed => (Stage::Finished, TransferAction::Finish(TransferOutcome::StoreFailed)),
            Reply::Done => match stage {
                Stage::Begin => {
                    let (first, second) = if from_id < to_id {
                        (from_id, to_id)
                    } else {
                        (to_id, from_id)
                    };
                    (Stage::Lock, TransferAction::Lock { first, second })
                },
                Stage::Lock => (Stage::FetchFrom, TransferAction::Fetch { id: from_id }),
                Stage::Commit { updated_from, updated_to } => (
                    Stage::Finished,
                    TransferAction::Finish(TransferOutcome::Completed { from: updated_from, to: updated_to }),
                ),
                _ => {
                    assert(false);
                    (Stage::Finished, TransferAction::Finish(TransferOutcome::StoreFailed))
                },
            },
            Reply::Row(w) => match stage {
                Stage::FetchFrom => (Stage::FetchTo { from: w }, TransferAction::Fetch { id: to_id }),
                Stage::FetchTo { from } => {
                    if from.balance.less_than(&amount) {
                        (Stage::Finished, TransferAction::Finish(TransferOutcome::InsufficientBalance))
                    } else {
                        match from.balance.checked_sub(&amount) {
                            None => (
                                Stage::Finished,
                                TransferAction::Finish(TransferOutcome::Overflow(Overflow::Subtraction)),
                            ),
                            Some(b) => {
                                proof {
                                    b.lemma_from_parts();
                                }
                                (
                                    Stage::UpdateFrom { to: w },
                                    TransferAction::UpdateBalance {
                                        id: from_id,
                                        new_balance: b,
                                        expected_version: from.version,
                                    },
                                )
                            },
                        }
                    }
                },
                Stage::UpdateFrom { to } => {
                    match to.balance.checked_add(&amount) {
                        None => (
                            Stage::Finished,
                            TransferAction::Finish(TransferOutcome::Overflow(Overflow::Addition)),
                        ),
                        Some(b) => {
                            proof {
                                b.lemma_from_parts();
                            }
                            (
                                Stage::UpdateTo { updated_from: w },
                                TransferAction::UpdateBalance {
                                    id: to_id,
                                    new_balance: b,
                                    expected_version: to.version,
                                },
                            )
                        },
                    }
                },
                Stage::UpdateTo { updated_from } => (
                    Stage::Commit { updated_from, updated_to: w },
                    TransferAction::Commit,
                ),
                _ => {
                    assert(false);
                    (Stage::Finished, TransferAction::Finish(TransferOutcome::StoreFailed))
                },
            },
        };
        let run = TransferRun { from_id, to_id, amount, stage, history: Ghost(h) };
        (run, action)
    }
}

} // verus!

verus! {

/// What a valid history looks like: no reply but the last one failed, and
/// there are at most seven replies.
proof fn lemma_history_shape(from_id: u128, to_id: u128, amount: Money, h: Seq<Reply>)
    requires
        valid_history(from_id, to_id, amount, h),
    ensures
        h.len() <= 7,
        forall|i: int| 0 <= i < h.len() - 1 ==> !(#[trigger] h[i] is Failed),
        forall|i: int|
            0 <= i < h.len() ==> !(#[trigger] next_action(from_id, to_id, amount, h.take(i)) is Finish),
{
    assert forall|i: int| 0 <= i < h.len() implies !(#[trigger] next_action(
        from_id,
        to_id,
        amount,
        h.take(i),
    ) is Finish) by {
        assert(reply_fits(next_action(from_id, to_id, amount, h.take(i)), h[i]));
    }
    assert forall|i: int| 0 <= i < h.len() - 1 implies !(#[trigger] h[i] is Failed) by {
        let p = h.take(i + 1);
        assert(p.last() == h[i]);
        assert(!(next_action(from_id, to_id, amount, p) is Finish));
    }
    if h.len() > 7 {
        let p = h.take(7);
        assert(p[4] == h[4] && p[5] == h[5]);
        assert(!(p.last() is Failed));
        assert(next_action(from_id, to_id, amount, p) is Finish);
    }
}

proof fn lemma_prefix_valid(from_id: u128, to_id: u128, amount: Money, h: Seq<Reply>, k: int)
    requires
        valid_history(from_id, to_id, amount, h),
        0 <= k <= h.len(),
    ensures
        valid_history(from_id, to_id, amount, h.take(k)),
{
    let p = h.take(k);
    assert forall|i: int| 0 <= i < p.len() implies #[trigger] reply_fits(
        next_action(from_id, to_id, amount, p.take(i)),
        p[i],
    ) by {
        assert(p.take(i) =~= h.take(i));
        assert(reply_fits(next_action(from_id, to_id, amount, h.take(i)), h[i]));
    }
}

/// Two transfers between the same two wallets, in opposite directions, lock
/// the two rows in the same order, the smaller identifier first, so that
/// neither can wait for a row that the other holds while holding the row
/// that the first one waits for.
pub proof fn law_opposite_transfers_lock_alike(
    a: u128,
    b: u128,
    x: Money,
    y: Money,
    h1: Seq<Reply>,
    h2: Seq<Reply>,
)
    requires
        h1.len() == 1,
        h2.len() == 1,
        h1[0] is Done,
        h2[0] is Done,
    ensures
        next_action(a, b, x, h1) == next_action(b, a, y, h2),
        next_action(a, b, x, h1) matches TransferAction::Lock { first, second } && first <= second
            && ((first == a && second == b) || (first == b && second == a)),
{
}

/// A transfer commits only after it read both rows, found the source balance
/// sufficient, and both balance updates returned their rows: the debit of
/// the source, guarded by the version read, and the credit of the
/// destination, guarded by the version read.
pub proof fn law_commit_only_after_both_updates(from_id: u128, to_id: u128, amount: Money, h: Seq<Reply>)
    requires
        valid_history(from_id, to_id, amount, h),
        next_action(from_id, to_id, amount, h) is Commit,
    ensures
        h.len() == 6,
        forall|i: int| 0 <= i < 6 ==> !(#[trigger] h[i] is Failed),
        next_action(from_id, to_id, amount, h.take(2)) == (TransferAction::Fetch { id: from_id }),
        next_action(from_id, to_id, amount, h.take(3)) == (TransferAction::Fetch { id: to_id }),
        h[2] is Row && h[3] is Row && h[4] is Row && h[5] is Row,
        !money_lt(row(h[2]).balance, amount),
        next_action(from_id, to_id, amount, h.take(4)) == (TransferAction::UpdateBalance {
            id: from_id,
            new_balance: Money::from_parts(difference_result(row(h[2]).balance, amount).unwrap()),
            expected_version: row(h[2]).version,
        }),
        next_action(from_id, to_id, amount, h.take(5)) == (TransferAction::UpdateBalance {
            id: to_id,
            new_balance: Money::from_parts(sum_result(row(h[3]).balance, amount).unwrap()),
            expected_version: row(h[3]).version,
        }),
{
    lemma_history_shape(from_id, to_id, amount, h);
    let n = next_action(from_id, to_id, amount, h);
    assert(h.len() == 6) by {
        if h.len() != 6 {
            assert(!(n is Commit));
        }
    }
    assert(!(h[5] is Failed));
    let p2 = h.take(2);
    let p3 = h.take(3);
    let p4 = h.take(4);
    let p5 = h.take(5);
    assert(p4[2] == h[2]);
    assert(p5[3] == h[3]);
    assert(!(p2.last() is Failed) && !(p3.last() is Failed) && !(p4.last() is Failed) && !(p5.last()
        is Failed));
    assert(reply_fits(next_action(from_id, to_id, amount, p2), h[2]));
    assert(reply_fits(next_action(from_id, to_id, amount, p3), h[3]));
    assert(reply_fits(next_action(from_id, to_id, amount, p4), h[4]));
    assert(reply_fits(next_action(from_id, to_id, amount, p5), h[5]));
    assert(!(next_action(from_id, to_id, amount, p4) is Finish));
    assert(!(next_action(from_id, to_id, amount, p5) is Finish));
}

/// A transfer that completes hands back the rows that its two balance
/// updates returned, and it committed them.
pub proof fn law_completed_transfer_committed(
    from_id: u128,
    to_id: u128,
    amount: Money,
    h: Seq<Reply>,
    from: Wallet,
    to: Wallet,
)
    requires
        valid_history(from_id, to_id, amount, h),
        next_action(from_id, to_id, amount, h) == TransferAction::Finish(
            TransferOutcome::Completed { from, to },
        ),
    ensures
        h.len() == 7,
        h[6] is Done,
        next_action(from_id, to_id, amount, h.take(6)) is Commit,
        h[4] == Reply::Row(from),
        h[5] == Reply::Row(to),
{
    lemma_history_shape(from_id, to_id, amount, h);
    assert(h.len() == 7);
    let p6 = h.take(6);
    assert(p6[4] == h[4] && p6[5] == h[5]);
    assert(!(p6.last() is Failed));
    assert(reply_fits(next_action(from_id, to_id, amount, p6), h[6]));
    assert(!(h[6] is Failed));
    lemma_prefix_valid(from_id, to_id, amount, h, 6);
    law_commit_only_after_both_updates(from_id, to_id, amount, p6);
}

/// A transfer that ends without completing never had a commit succeed: the
/// transaction is rolled back and neither wallet changes.
pub proof fn law_unfinished_transfer_commits_nothing(from_id: u128, to_id: u128, amount: Money, h: Seq<Reply>)
    requires
        valid_history(from_id, to_id, amount, h),
        next_action(from_id, to_id, amount, h) is Finish,
        !(next_action(from_id, to_id, amount, h) matches TransferAction::Finish(
            TransferOutcome::Completed { .. },
        )),
    ensures
        forall|i: int|
            0 <= i < h.len() && #[trigger] next_action(from_id, to_id, amount, h.take(i)) is Commit
                ==> h[i] is Failed,
{
    lemma_history_shape(from_id, to_id, amount, h);
    assert forall|i: int|
        0 <= i < h.len() && #[trigger] next_action(from_id, to_id, amount, h.take(i)) is Commit
            implies h[i] is Failed by {
        let p = h.take(i);
        if !(h[i] is Failed) {
            assert(reply_fits(next_action(from_id, to_id, amount, p), h[i]));
            assert(i == 6);
            assert(h.len() == 7);
            assert(h.take(7) =~= h);
            assert(!(h.last() is Failed));
        }
    }
}

/// Where the source balance is below the amount, the transfer is refused
/// right after the two reads, and no balance update is ever issued.
pub proof fn law_insufficient_balance_refused(from_id: u128, to_id: u128, amount: Money, h: Seq<Reply>)
    requires
        valid_history(from_id, to_id, amount, h),
        h.len() >= 4,
        !(h[3] is Failed),
        money_lt(row(h[2]).balance, amount),
    ensures
        h.len() == 4,
        next_action(from_id, to_id, amount, h) == TransferAction::Finish(
            TransferOutcome::InsufficientBalance,
        ),
        forall|i: int|
            0 <= i <= h.len() ==> !(#[trigger] next_action(from_id, to_id, amount, h.take(i)) is UpdateBalance),
{
    lemma_history_shape(from_id, to_id, amount, h);
    let p4 = h.take(4);
    assert(p4[2] == h[2]);
    assert(p4.last() == h[3]);
    assert(next_action(from_id, to_id, amount, p4) is Finish);
    if h.len() > 4 {
        assert(!(next_action(from_id, to_id, amount, h.take(4)) is Finish));
    }
    assert(h.take(4) =~= h);
    assert forall|i: int| 0 <= i <= h.len() implies !(#[trigger] next_action(
        from_id,
        to_id,
        amount,
        h.take(i),
    ) is UpdateBalance) by {
        if i == 4 {
            assert(h.take(4) =~= p4);
        }
    }
}

/// A committed transfer neither creates nor destroys money: where the debit
/// and the credit are exact (see [`difference_is_exact`] and
/// [`sum_is_exact`]: an operand is zero, or the exact result fits in 96 bits
/// at the larger scale, which is where `rust_decimal` does not round), the two
/// balances it writes hold together, at any scales, exactly what the two
/// balances it read held.
pub proof fn law_transfer_conserves_total(from_id: u128, to_id: u128, amount: Money, h: Seq<Reply>)
    requires
        valid_history(from_id, to_id, amount, h),
        next_action(from_id, to_id, amount, h) is Commit,
        amount.valid(),
        row(h[2]).balance.valid(),
        row(h[3]).balance.valid(),
        difference_is_exact(row(h[2]).balance, amount),
        sum_is_exact(row(h[3]).balance, amount),
    ensures
        next_action(from_id, to_id, amount, h.take(4)) matches TransferAction::UpdateBalance {
            new_balance: debited,
            ..
        } && next_action(from_id, to_id, amount, h.take(5)) matches TransferAction::UpdateBalance {
            new_balance: credited,
            ..
        } && scaled(debited) + scaled(credited) == scaled(row(h[2]).balance) + scaled(
            row(h[3]).balance,
        ) && scaled(debited) == scaled(row(h[2]).balance) - scaled(amount) && scaled(credited)
            == scaled(row(h[3]).balance) + scaled(amount),
{
    law_commit_only_after_both_updates(from_id, to_id, amount, h);
    lemma_difference_exact(row(h[2]).balance, amount);
    lemma_sum_exact(row(h[3]).balance, amount);
}

/// A committed transfer never overdraws: the source balance it writes is not
/// negative (the run refuses a source balance below the amount), and where
/// the destination balance and the amount are not negative, neither is the
/// destination balance it writes.  Stated here over the history where the
/// debit and the credit are exact; `TransferRun::advance` states it of every
/// run on every input, rounded or not.
pub proof fn law_transfer_never_overdraws(from_id: u128, to_id: u128, amount: Money, h: Seq<Reply>)
    requires
        valid_history(from_id, to_id, amount, h),
        next_action(from_id, to_id, amount, h) is Commit,
        amount.valid(),
        row(h[2]).balance.valid(),
        row(h[3]).balance.valid(),
        difference_is_exact(row(h[2]).balance, amount),
        sum_is_exact(row(h[3]).balance, amount),
    ensures
        next_action(from_id, to_id, amount, h.take(4)) matches TransferAction::UpdateBalance {
            new_balance: debited,
            ..
        } && debited.mantissa() >= 0,
        row(h[3]).balance.mantissa() >= 0 && amount.mantissa() >= 0 ==> (next_action(
            from_id,
            to_id,
            amount,
            h.take(5),
        ) matches TransferAction::UpdateBalance { new_balance: credited, .. } && credited.mantissa()
            >= 0),
{
    law_commit_only_after_both_updates(from_id, to_id, amount, h);
    law_transfer_conserves_total(from_id, to_id, amount, h);
    lemma_lt_is_scaled_order(row(h[2]).balance, amount);
    lemma_difference_exact(row(h[2]).balance, amount);
    lemma_sum_exact(row(h[3]).balance, amount);
    let d = Money::from_parts(difference_result(row(h[2]).balance, amount).unwrap());
    let c = Money::from_parts(sum_result(row(h[3]).balance, amount).unwrap());
    lemma_scaled_sign(d);
    lemma_scaled_sign(c);
    lemma_scaled_sign(row(h[3]).balance);
    lemma_scaled_sign(amount);
}

/// What a transfer does at each step when no statement fails: begin; lock
/// both rows, the smaller identifier first; read the source, then the
/// destination; refuse a source balance below the amount, or else write the
/// source balance minus the amount guarded by the source version read; then,
/// where the destination balance plus the amount is representable, write that
/// sum guarded by the destination version read (whatever the destination's
/// balance, zero included); then commit; then complete with the two rows that
/// the updates returned.  So a transfer with a sufficient source balance, no
/// failed statement and no overflow reaches the commit and completes.
pub proof fn law_transfer_steps(from_id: u128, to_id: u128, amount: Money, h: Seq<Reply>)
    requires
        valid_history(from_id, to_id, amount, h),
        h.len() <= 7,
        forall|i: int| 0 <= i < h.len() ==> !(#[trigger] h[i] is Failed),
        h.len() > 4 ==> !money_lt(row(h[2]).balance, amount) && difference_result(
            row(h[2]).balance,
            amount,
        ) is Some,
        h.len() > 5 ==> sum_result(row(h[3]).balance, amount) is Some,
    ensures
        h.len() == 0 ==> next_action(from_id, to_id, amount, h) is Begin,
        h.len() == 1 ==> next_action(from_id, to_id, amount, h) == (TransferAction::Lock {
            first: if from_id < to_id { from_id } else { to_id },
            second: if from_id < to_id { to_id } else { from_id },
        }),
        h.len() == 2 ==> next_action(from_id, to_id, amount, h) == (TransferAction::Fetch { id: from_id }),
        h.len() == 3 ==> next_action(from_id, to_id, amount, h) == (TransferAction::Fetch { id: to_id }),
        h.len() == 4 && money_lt(row(h[2]).balance, amount) ==> next_action(from_id, to_id, amount, h)
            == TransferAction::Finish(TransferOutcome::InsufficientBalance),
        h.len() == 4 && !money_lt(row(h[2]).balance, amount) ==> match difference_result(
            row(h[2]).balance,
            amount,
        ) {
            Some(p) => next_action(from_id, to_id, amount, h) matches TransferAction::UpdateBalance {
                id,
                new_balance,
                expected_version,
            } && id == from_id && new_balance.parts() == p && expected_version == row(h[2]).version,
            None => next_action(from_id, to_id, amount, h) == TransferAction::Finish(
                TransferOutcome::Overflow(Overflow::Subtraction),
            ),
        },
        h.len() == 5 ==> match sum_result(row(h[3]).balance, amount) {
            Some(p) => next_action(from_id, to_id, amount, h) matches TransferAction::UpdateBalance {
                id,
                new_balance,
                expected_version,
            } && id == to_id && new_balance.parts() == p && expected_version == row(h[3]).version,
            None => next_action(from_id, to_id, amount, h) == TransferAction::Finish(
                TransferOutcome::Overflow(Overflow::Addition),
            ),
        },
        h.len() == 6 ==> next_action(from_id, to_id, amount, h) is Commit,
        h.len() == 7 ==> next_action(from_id, to_id, amount, h) == TransferAction::Finish(
            TransferOutcome::Completed { from: row(h[4]), to: row(h[5]) },
        ),
{
    if h.len() > 0 {
        assert(!(h.last() is Failed));
    }
    if h.len() == 4 {
        match difference_result(row(h[2]).balance, amount) {
            Some(p) => Money::lemma_parts_of_from_parts(p),
            None => {},
        }
    }
    if h.len() == 5 {
        match sum_result(row(h[3]).balance, amount) {
            Some(p) => Money::lemma_parts_of_from_parts(p),
            None => {},
        }
    }
}

} // verus!
