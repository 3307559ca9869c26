//! Interfaces of unique assets of different kinds.

use vstd::prelude::*;

use crate::dispatch::{DispatchError, DispatchResult};

pub mod common_asset_kinds;

verus! {

/// Provides the type that identifies unique assets of the kind `AssetKind`.
pub trait Identification<AssetKind> {
    /// Type for identifying a unique asset.
    type Id;
}

/// The ability to tell the owner of a unique asset.
pub trait Ownership<AssetKind, Owner>: Identification<AssetKind> {
    /// The owner of the asset `id`.
    fn owner(id: &Self::Id) -> Result<Owner, DispatchError>;
}

/// A strategy of creating a unique asset.
pub trait CreateStrategy {
    /// The result of a successful creation.
    type Success;
}

/// The ability to create a unique asset.
pub trait Create<Strategy: CreateStrategy> {
    /// Creates an asset with the given strategy.
    fn create(strategy: Strategy) -> Result<Strategy::Success, DispatchError>;
}

/// A strategy of transferring a unique asset.
pub trait TransferStrategy {}

/// The ability of a unique asset to be transferred.
pub trait Transfer<AssetKind, Strategy: TransferStrategy>: Identification<AssetKind> {
    /// Transfers the asset `id` with the given strategy.
    fn transfer(id: &Self::Id, strategy: Strategy) -> DispatchResult;
}

/// A strategy of destroying a unique asset.
pub trait DestroyStrategy {}

/// The ability of a unique asset to be destroyed.
pub trait Destroy<AssetKind, Strategy: DestroyStrategy>: Identification<AssetKind> {
    /// Destroys the asset `id` with the given strategy.
    fn destroy(id: &Self::Id, strategy: Strategy) -> DispatchResult;
}

} // verus!
