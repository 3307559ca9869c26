//! Interfaces of assets: identification, metadata, creation, transfer and
//! destruction, each parameterised by a strategy.

pub mod asset_ops;
pub mod tokens;
