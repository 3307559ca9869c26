//! Interfaces of token-like assets.

pub mod asset_instances;
pub mod asset_metadata;
pub mod asset_ops;
pub mod common_asset_strategies;
pub mod unique_assets;
