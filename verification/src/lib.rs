//! Wallet-connect bridge logic for a Lightning node: budget accounting,
//! capability sets, request decoding and response shaping, all with
//! machine-checked contracts.

pub mod admin;
pub mod args;
pub mod budget;
pub mod capabilities;
pub mod codec;
pub mod dispatch;
pub mod encoding;
pub mod events;
pub mod interval;
pub mod invoice;
pub mod json;
pub mod keysend;
pub mod listing;
pub mod lookups;
pub mod node;
pub mod notifications;
pub mod number;
pub mod offers;
pub mod pay;
pub mod period;
pub mod protocol;
pub mod registry;
pub mod session;
pub mod startup;
pub mod text;
pub mod version;
pub mod wallet;
