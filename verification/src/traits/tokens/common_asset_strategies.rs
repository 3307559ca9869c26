//! The common strategies of unique-asset operations and metadata access.

use core::marker::PhantomData;
use vstd::prelude::*;

use super::asset_metadata::MetadataStrategy;
use super::unique_assets::{CreateStrategy, DestroyStrategy, TransferStrategy};

verus! {

/// A strategy that checks an origin in addition to the `Inner` strategy.
pub struct CheckOrigin<RuntimeOrigin, Inner>(pub RuntimeOrigin, pub Inner);

impl<RuntimeOrigin, Inner: MetadataStrategy> MetadataStrategy for CheckOrigin<RuntimeOrigin, Inner> {
    type InnermostStrategy = Inner::InnermostStrategy;
}

impl<RuntimeOrigin, Inner: CreateStrategy> CreateStrategy for CheckOrigin<RuntimeOrigin, Inner> {
    type Success = Inner::Success;
}

impl<RuntimeOrigin, Inner: TransferStrategy> TransferStrategy for CheckOrigin<RuntimeOrigin, Inner> {

}

impl<RuntimeOrigin, Inner: DestroyStrategy> DestroyStrategy for CheckOrigin<RuntimeOrigin, Inner> {

}

/// The primary metadata of an asset.
pub struct Primary;

impl MetadataStrategy for Primary {
    type InnermostStrategy = Self;
}

/// Creation of an asset owned by the given owner; reports its identifier.
pub struct NewOwnedAsset<'a, AssetKind, Id, Owner>(pub &'a Owner, pub PhantomData<(AssetKind, Id)>);

impl<'a, AssetKind, Id, Owner> NewOwnedAsset<'a, AssetKind, Id, Owner> {
    /// Creation owned by `owner`.
    pub fn from(owner: &'a Owner) -> (r: Self)
        ensures
            r.0 == owner,
    {
        NewOwnedAsset(owner, PhantomData)
    }
}

impl<'a, AssetKind, Id, Owner> CreateStrategy for NewOwnedAsset<'a, AssetKind, Id, Owner> {
    type Success = Id;
}

/// Creation of an asset with a given identifier, owned by the given owner.
pub struct NewOwnedAssetWithId<'a, AssetKind, Id, Owner> {
    /// The identifier of the new asset.
    pub id: &'a Id,
    /// The owner of the new asset.
    pub owner: &'a Owner,
    /// Marks the types the strategy is about.
    pub _phantom: PhantomData<AssetKind>,
}

impl<'a, AssetKind, Id, Owner> NewOwnedAssetWithId<'a, AssetKind, Id, Owner> {
    /// Creation of `id` owned by `owner`.
    pub fn from(id: &'a Id, owner: &'a Owner) -> (r: Self)
        ensures
            r.id == id,
            r.owner == owner,
    {
        NewOwnedAssetWithId { id, owner, _phantom: PhantomData }
    }
}

impl<'a, AssetKind, Id, Owner> CreateStrategy for NewOwnedAssetWithId<'a, AssetKind, Id, Owner> {
    type Success = ();
}

/// Creation of an asset under a parent asset, owned by the given owner;
/// reports its identifier.
pub struct NewOwnedChildAsset<'a, AssetKind, ParentAssetId, Id, Owner> {
    /// The parent asset.
    pub parent_asset_id: &'a ParentAssetId,
    /// The owner of the new asset.
    pub owner: &'a Owner,
    /// Marks the types the strategy is about.
    pub _phantom: PhantomData<(AssetKind, Id)>,
}

impl<'a, AssetKind, ParentAssetId, Id, Owner> NewOwnedChildAsset<
    'a,
    AssetKind,
    ParentAssetId,
    Id,
    Owner,
> {
    /// Creation under `parent_asset_id` owned by `owner`.
    pub fn from(parent_asset_id: &'a ParentAssetId, owner: &'a Owner) -> (r: Self)
        ensures
            r.parent_asset_id == parent_asset_id,
            r.owner == owner,
    {
        NewOwnedChildAsset { parent_asset_id, owner, _phantom: PhantomData }
    }
}

impl<'a, AssetKind, ParentAssetId, Id, Owner> CreateStrategy for NewOwnedChildAsset<
    'a,
    AssetKind,
    ParentAssetId,
    Id,
    Owner,
> {
    type Success = Id;
}

/// Creation of an asset with a given identifier under a parent asset, owned
/// by the given owner.
pub struct NewOwnedChildAssetWithId<'a, AssetKind, ParentAssetId, Id, Owner> {
    /// The parent asset.
    pub parent_asset_id: &'a ParentAssetId,
    /// The identifier of the new asset.
    pub id: &'a Id,
    /// The owner of the new asset.
    pub owner: &'a Owner,
    /// Marks the types the strategy is about.
    pub _phantom: PhantomData<AssetKind>,
}

impl<'a, AssetKind, ParentAssetId, Id, Owner> NewOwnedChildAssetWithId<
    'a,
    AssetKind,
    ParentAssetId,
    Id,
    Owner,
> {
    /// Creation of `id` under `parent_asset_id` owned by `owner`.
    pub fn from(parent_asset_id: &'a ParentAssetId, id: &'a Id, owner: &'a Owner) -> (r: Self)
        ensures
            r.parent_asset_id == parent_asset_id,
            r.id == id,
            r.owner == owner,
    {
        NewOwnedChildAssetWithId { parent_asset_id, id, owner, _phantom: PhantomData }
    }
}

impl<'a, AssetKind, ParentAssetId, Id, Owner> CreateStrategy for NewOwnedChildAssetWithId<
    'a,
    AssetKind,
    ParentAssetId,
    Id,
    Owner,
> {
    type Success = ();
}

/// Transfer from the first owner to the second.
pub struct FromTo<'a, Owner>(pub &'a Owner, pub &'a Owner);

impl<'a, Owner> TransferStrategy for FromTo<'a, Owner> {

}

/// Transfer to an owner, whoever owns the asset.
pub struct ForceTo<'a, Owner>(pub &'a Owner);

impl<'a, Owner> TransferStrategy for ForceTo<'a, Owner> {

}

/// Destruction if the asset is owned by the given owner.
pub struct IfOwnedBy<'a, Owner>(pub &'a Owner);

impl<'a, Owner> DestroyStrategy for IfOwnedBy<'a, Owner> {

}

/// Destruction whoever owns the asset.
pub struct ForceDestroy;

impl DestroyStrategy for ForceDestroy {

}

} // verus!
