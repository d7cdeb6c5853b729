//! A constant-product exchange for token pairs whose assets may carry a transfer hook,
//! and the whitelist policy that such a hook applies to every transfer.
//!
//! The exchange keeps a registry of approved hook programs (`registry`), judges every
//! asset against it before a swap (`hook_guard`), quotes swaps and deposits from the
//! reserves of a pool (`quote`, `pool`), and walks each operation through the
//! movements that the asset transfer gateway has to make for it (`trade`,
//! `liquidity`, `gateway`). The whitelist policy (`whitelist`) is the other side of
//! a hook: it decides on a single transfer by the owners of the two accounts.
//!
//! The library holds no ledger state of its own and performs no transfer. Every
//! operation works on a context of plain values, returns what is to be done next,
//! and leaves the context untouched when it fails.

pub mod account;
pub mod error;
pub mod gateway;
pub mod hook_guard;
pub mod identity;
pub mod liquidity;
pub mod pool;
pub mod quote;
pub mod registry;
pub mod trade;
pub mod whitelist;
