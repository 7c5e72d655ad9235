//! An oracle value store: authenticated callers publish timestamped data
//! points, the store keeps the latest one and an append-only history.
pub mod record;
pub mod validation;
pub mod pallet;
pub mod laws;
pub mod chain_spec;
