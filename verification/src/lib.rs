//! Core of a chat-based storefront: the per-user conversation state machine
//! that drives multi-step flows (add product, remove product, cart item
//! removal, quantity editing), and the cart/order service that applies the
//! resulting mutations to the catalog, cart and order tables.
//!
//! The transport (message delivery, buttons) and the durable database are
//! external collaborators; this crate holds the logic that must be right:
//! input validation and coercion, state transitions, and the atomic
//! cart/order mutations with their invariants.

pub mod engine;
pub mod laws;
pub mod numeric;
pub mod schema;
pub mod session;
pub mod store;
pub mod utils;
