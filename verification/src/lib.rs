//! Verified core of a digital wallet service: exact decimal money, wallet
//! records, domain events, the transfer protocol that the wallet store runs
//! inside one database transaction, and the decisions that the HTTP handlers
//! take between their calls to the store and the event bus.

pub mod money;
pub mod identity;
pub mod wallet;
pub mod events;
pub mod errors;
pub mod transfer;
pub mod handlers;
