//! Operations on assets of different kinds, each operation defined by a
//! strategy that supplies its parameters and its result type.

use vstd::prelude::*;

use crate::dispatch::{DispatchError, DispatchResult};

pub mod common_asset_kinds;
pub mod common_strategies;

verus! {

/// Provides the type that identifies assets of the kind `AssetKind`.
pub trait AssetDefinition<AssetKind> {
    /// Type for identifying an asset.
    type Id;
}

/// An asset kind whose assets are secondary to assets of another kind.
pub trait SecondaryAsset<PrimaryAssetKind, AssetKind>: AssetDefinition<AssetKind> {
    /// The definition of the primary assets.
    type PrimaryAsset: AssetDefinition<PrimaryAssetKind>;
}

/// A strategy of inspecting asset metadata.
pub trait MetadataInspectStrategy {
    /// The type of the inspected value.
    type Value;
}

/// The ability of an asset to provide its metadata.
pub trait InspectMetadata<AssetKind, Strategy: MetadataInspectStrategy>: AssetDefinition<
    AssetKind,
> {
    /// Inspects metadata of the asset `id` with the given strategy.
    fn inspect_metadata(id: &Self::Id, strategy: Strategy) -> Result<Strategy::Value, DispatchError>;
}

/// A strategy of updating asset metadata.
pub trait MetadataUpdateStrategy {
    /// The type of an update.
    type Update<'u>;
}

/// The ability of an asset to update its metadata.
pub trait UpdateMetadata<AssetKind, Strategy: MetadataUpdateStrategy>: AssetDefinition<AssetKind> {
    /// Updates metadata of the asset `id` with the given strategy.
    fn update_metadata(id: &Self::Id, strategy: Strategy, update: Strategy::Update<'_>) -> DispatchResult;
}

/// A strategy of creating an asset.
pub trait CreateStrategy {
    /// The result of a successful creation.
    type Success;
}

/// The ability to create an asset of the kind `AssetKind`.
pub trait Create<AssetKind, Strategy: CreateStrategy> {
    /// Creates an asset with the given strategy.
    fn create(strategy: Strategy) -> Result<Strategy::Success, DispatchError>;
}

/// A strategy of transferring an asset.
pub trait TransferStrategy {}

/// The ability of an asset to be transferred.
pub trait Transfer<AssetKind, Strategy: TransferStrategy>: AssetDefinition<AssetKind> {
    /// Transfers the asset `id` with the given strategy.
    fn transfer(id: &Self::Id, strategy: Strategy) -> DispatchResult;
}

/// A strategy of destroying an asset.
pub trait DestroyStrategy {}

/// The ability of an asset to be destroyed.
pub trait Destroy<AssetKind, Strategy: DestroyStrategy>: AssetDefinition<AssetKind> {
    /// Destroys the asset `id` with the given strategy.
    fn destroy(id: &Self::Id, strategy: Strategy) -> DispatchResult;
}

} // verus!
