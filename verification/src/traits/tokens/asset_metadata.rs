//! Interfaces of asset metadata, keyed and valued per strategy.

use vstd::prelude::*;

use crate::dispatch::{DispatchError, DispatchResult};

verus! {

/// A strategy of accessing asset metadata; strategies may wrap an innermost
/// strategy that defines the metadata.
pub trait MetadataStrategy {
    /// The strategy that defines the metadata's key and value types.
    type InnermostStrategy;
}

/// Defines the key and value types of asset metadata.
pub trait MetadataDefinition<AssetKind, Strategy> {
    /// The key of a metadata entry.
    type Key<'a>;

    /// The value of a metadata entry.
    type Value;
}

/// The ability to inspect asset metadata.
pub trait InspectMetadata<AssetKind, Strategy: MetadataStrategy>: MetadataDefinition<
    AssetKind,
    Strategy::InnermostStrategy,
> {
    /// The metadata under `key`.
    fn asset_metadata(key: Self::Key<'_>, strategy: Strategy) -> Result<Self::Value, DispatchError>;
}

/// The ability to update asset metadata.
pub trait UpdateMetadata<AssetKind, Strategy: MetadataStrategy>: MetadataDefinition<
    AssetKind,
    Strategy::InnermostStrategy,
> {
    /// Sets (`Some`) or removes (`None`) the metadata under `key`.
    fn update_asset_metadata(
        key: Self::Key<'_>,
        strategy: Strategy,
        update: Option<&Self::Value>,
    ) -> DispatchResult;
}

} // verus!
