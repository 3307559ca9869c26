//! Abstract asset operations: inspecting and updating metadata, creating,
//! transferring, destroying, stashing and restoring assets.
//!
//! An operation can be implemented several times with different strategies;
//! a strategy defines the operation's behaviour, may supply additional
//! parameters, and defines the operation's result type. Every operation but
//! creation takes the asset's identifier from its `AssetDefinition`.

use vstd::prelude::*;

use crate::dispatch::DispatchError;

pub mod common_strategies;

verus! {

/// Defines an asset: the type that identifies it.
pub trait AssetDefinition {
    /// Type for identifying the asset.
    type Id;
}

/// A strategy for use in `InspectMetadata` implementations.
pub trait MetadataInspectStrategy {
    /// The type that inspecting the metadata returns.
    type Value;
}

/// The ability of an asset to provide its metadata.
pub trait InspectMetadata<Strategy: MetadataInspectStrategy>: AssetDefinition {
    /// Inspects metadata of the asset `id` with the inspect `strategy`.
    fn inspect_metadata(id: &Self::Id, strategy: Strategy) -> Result<Strategy::Value, DispatchError>;
}

/// A strategy for use in `UpdateMetadata` implementations.
pub trait MetadataUpdateStrategy {
    /// The type of metadata update accepted.
    type Update<'u>;

    /// The result of a successful update.
    type Success;
}

/// The ability of an asset to update its metadata.
pub trait UpdateMetadata<Strategy: MetadataUpdateStrategy>: AssetDefinition {
    /// Updates metadata of the asset `id` with the update `strategy` and the
    /// `update` value.
    fn update_metadata(
        id: &Self::Id,
        strategy: Strategy,
        update: Strategy::Update<'_>,
    ) -> Result<Strategy::Success, DispatchError>;
}

/// A strategy for use in `Create` implementations.
pub trait CreateStrategy {
    /// The result of a successful creation.
    type Success;
}

/// An approach of assigning an identifier to a created asset.
pub trait IdAssignment {
    /// The identifier that creation reports.
    type ReportedId;
}

/// The ability of an asset to be created.
pub trait Create<Strategy: CreateStrategy> {
    /// Creates a new asset with the given `strategy`.
    fn create(strategy: Strategy) -> Result<Strategy::Success, DispatchError>;
}

/// A strategy for use in `Transfer` implementations.
pub trait TransferStrategy {
    /// The result of a successful transfer.
    type Success;
}

/// The ability of an asset to be transferred.
pub trait Transfer<Strategy: TransferStrategy>: AssetDefinition {
    /// Transfers the asset `id` with the given `strategy`.
    fn transfer(id: &Self::Id, strategy: Strategy) -> Result<Strategy::Success, DispatchError>;
}

/// A strategy for use in `Destroy` implementations.
pub trait DestroyStrategy {
    /// The result of a successful destruction.
    type Success;
}

/// The ability of an asset to be destroyed.
pub trait Destroy<Strategy: DestroyStrategy>: AssetDefinition {
    /// Destroys the asset `id` with the given `strategy`.
    fn destroy(id: &Self::Id, strategy: Strategy) -> Result<Strategy::Success, DispatchError>;
}

/// A strategy for use in `Stash` implementations.
pub trait StashStrategy {
    /// The result of a successful stashing.
    type Success;
}

/// The ability of an asset to be stashed.
pub trait Stash<Strategy: StashStrategy>: AssetDefinition {
    /// Stashes the asset `id` with the given `strategy`.
    fn stash(id: &Self::Id, strategy: Strategy) -> Result<Strategy::Success, DispatchError>;
}

/// A strategy for use in `Restore` implementations.
pub trait RestoreStrategy {
    /// The result of a successful restoration.
    type Success;
}

/// The ability of an asset to be restored.
pub trait Restore<Strategy: RestoreStrategy>: AssetDefinition {
    /// Restores the asset `id` with the given `strategy`.
    fn restore(id: &Self::Id, strategy: Strategy) -> Result<Strategy::Success, DispatchError>;
}

} // verus!
