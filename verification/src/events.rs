//! The domain events that every change of a wallet emits.

use vstd::prelude::*;
use crate::identity::{lemma_uuid_text_injective, uuid_to_string, uuid_text, Timestamp};
use crate::money::Money;

verus! {

/// The kind of a [`WalletEvent`].
#[derive(Clone, Copy, Debug, PartialEq, Eq, Structural)]
pub enum EventType {
    WalletCreated,
    WalletFunded,
    TransferCompleted,
    TransferFailed,
}

/// What every event tells: its kind and when it happened.
pub trait Event {
    fn event_type(&self) -> EventType;

    fn timestamp(&self) -> Timestamp;
}

/// A change of one or two wallets, as published on the event bus.
#[derive(Clone, Debug)]
pub enum WalletEvent {
    WalletCreated {
        wallet_id: u128,
        user_id: String,
        transaction_id: u128,
        initial_balance: Money,
        timestamp: Timestamp,
    },
    WalletFunded {
        wallet_id: u128,
        user_id: String,
        transaction_id: u128,
        amount: Money,
        new_balance: Money,
        timestamp: Timestamp,
    },
    TransferCompleted {
        from_wallet_id: u128,
        to_wallet_id: u128,
        from_user_id: String,
        to_user_id: String,
        amount: Money,
        from_transaction_id: u128,
        to_transaction_id: u128,
        timestamp: Timestamp,
    },
    TransferFailed {
        from_wallet_id: u128,
        to_wallet_id: u128,
        from_user_id: String,
        amount: Money,
        reason: String,
        timestamp: Timestamp,
    },
}

impl WalletEvent {
    /// The kind that matches the variant.
    pub open spec fn kind(self) -> EventType {
        match self {
            WalletEvent::WalletCreated { .. } => EventType::WalletCreated,
            WalletEvent::WalletFunded { .. } => EventType::WalletFunded,
            WalletEvent::TransferCompleted { .. } => EventType::TransferCompleted,
            WalletEvent::TransferFailed { .. } => EventType::TransferFailed,
        }
    }

    /// When the event happened.
    pub open spec fn time(self) -> Timestamp {
        match self {
            WalletEvent::WalletCreated { timestamp, .. } => timestamp,
            WalletEvent::WalletFunded { timestamp, .. } => timestamp,
            WalletEvent::TransferCompleted { timestamp, .. } => timestamp,
            WalletEvent::TransferFailed { timestamp, .. } => timestamp,
        }
    }

    /// The wallet that the event is about first: the wallet itself, or the
    /// source wallet of a transfer.
    pub open spec fn primary_wallet(self) -> u128 {
        match self {
            WalletEvent::WalletCreated { wallet_id, .. } => wallet_id,
            WalletEvent::WalletFunded { wallet_id, .. } => wallet_id,
            WalletEvent::TransferCompleted { from_wallet_id, .. } => from_wallet_id,
            WalletEvent::TransferFailed { from_wallet_id, .. } => from_wallet_id,
        }
    }

    pub fn event_type(&self) -> (r: EventType)
        ensures
            r == self.kind(),
    {
        match self {
            WalletEvent::WalletCreated { .. } => EventType::WalletCreated,
            WalletEvent::WalletFunded { .. } => EventType::WalletFunded,
            WalletEvent::TransferCompleted { .. } => EventType::TransferCompleted,
            WalletEvent::TransferFailed { .. } => EventType::TransferFailed,
        }
    }

    pub fn timestamp(&self) -> (r: Timestamp)
        ensures
            r == self.time(),
    {
        match self {
            WalletEvent::WalletCreated { timestamp, .. } => *timestamp,
            WalletEvent::WalletFunded { timestamp, .. } => *timestamp,
            WalletEvent::TransferCompleted { timestamp, .. } => *timestamp,
            WalletEvent::TransferFailed { timestamp, .. } => *timestamp,
        }
    }

    /// The partition key of the event: the hyphenated form of the primary
    /// wallet's identifier, so that all events of a wallet land on the same
    /// partition and keep their order.
    pub fn wallet_key(&self) -> (r: String)
        ensures
            r@ == uuid_text(self.primary_wallet()),
    {
        match self {
            WalletEvent::WalletCreated { wallet_id, .. } => uuid_to_string(*wallet_id),
            WalletEvent::WalletFunded { wallet_id, .. } => uuid_to_string(*wallet_id),
            WalletEvent::TransferCompleted { from_wallet_id, .. } => uuid_to_string(*from_wallet_id),
            WalletEvent::TransferFailed { from_wallet_id, .. } => uuid_to_string(*from_wallet_id),
        }
    }
}

impl Event for WalletEvent {
    fn event_type(&self) -> (r: EventType)
        ensures
            r == self.kind(),
    {
        WalletEvent::event_type(self)
    }

    fn timestamp(&self) -> (r: Timestamp)
        ensures
            r == self.time(),
    {
        WalletEvent::timestamp(self)
    }
}

/// Two events get the same partition key (`wallet_key`) exactly when they
/// have the same primary wallet: all events of one wallet share a key, and
/// events of different wallets do not.
pub proof fn law_wallet_keys_identify_wallets(e1: WalletEvent, e2: WalletEvent)
    ensures
        (uuid_text(e1.primary_wallet()) == uuid_text(e2.primary_wallet())) <==> (e1.primary_wallet()
            == e2.primary_wallet()),
{
    if uuid_text(e1.primary_wallet()) == uuid_text(e2.primary_wallet()) {
        lemma_uuid_text_injective(e1.primary_wallet(), e2.primary_wallet());
    }
}

} // verus!
