//! A verified single-asset-class token registry.
//!
//! The registry tracks ownership and metadata of uniquely identified tokens.
//! It is a keyed collection mapping token identifiers to (owner, metadata)
//! records, exposed through mint, transfer, burn and lookup operations with
//! owner-only authorization. Every operation carries a contract that pins down
//! its result and its effect on the registry for every input.

pub mod laws;
pub mod registry;
