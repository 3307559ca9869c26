//! The common strategies of asset operations.

use core::marker::PhantomData;
use vstd::prelude::*;

use super::{
    AssetDefinition, CreateStrategy, DestroyStrategy, MetadataInspectStrategy,
    MetadataUpdateStrategy, SecondaryAsset, TransferStrategy,
};

verus! {

/// A strategy that checks an origin in addition to the `Inner` strategy.
pub struct WithOrigin<RuntimeOrigin, Inner>(pub RuntimeOrigin, pub Inner);

impl<RuntimeOrigin, Inner: MetadataInspectStrategy> MetadataInspectStrategy for WithOrigin<
    RuntimeOrigin,
    Inner,
> {
    type Value = Inner::Value;
}

impl<RuntimeOrigin, Inner: MetadataUpdateStrategy> MetadataUpdateStrategy for WithOrigin<
    RuntimeOrigin,
    Inner,
> {
    type Update<'u> = Inner::Update<'u>;
}

impl<RuntimeOrigin, Inner: CreateStrategy> CreateStrategy for WithOrigin<RuntimeOrigin, Inner> {
    type Success = Inner::Success;
}

impl<RuntimeOrigin, Inner: TransferStrategy> TransferStrategy for WithOrigin<RuntimeOrigin, Inner> {

}

impl<RuntimeOrigin, Inner: DestroyStrategy> DestroyStrategy for WithOrigin<RuntimeOrigin, Inner> {

}

/// Raw metadata bytes; `Flavor` tells which bytes.
pub struct Bytes<Flavor = ()>(pub Flavor);

impl Bytes<()> {
    /// The bytes of the default flavor.
    pub fn new() -> (r: Self)
        ensures
            r.0 == (),
    {
        Bytes(())
    }
}

impl<Flavor> MetadataInspectStrategy for Bytes<Flavor> {
    type Value = Vec<u8>;
}

impl<Flavor> MetadataUpdateStrategy for Bytes<Flavor> {
    type Update<'u> = Option<&'u [u8]>;
}

/// The owner of an asset.
pub struct Ownership<Owner>(PhantomData<Owner>);

impl<Owner> Ownership<Owner> {
    /// The ownership strategy.
    pub fn new() -> Self {
        Ownership(PhantomData)
    }
}

impl<Owner> MetadataInspectStrategy for Ownership<Owner> {
    type Value = Owner;
}

/// The ability to create an asset.
pub struct CanCreate;

impl MetadataInspectStrategy for CanCreate {
    type Value = bool;
}

impl MetadataUpdateStrategy for CanCreate {
    type Update<'u> = bool;
}

/// The ability to transfer an asset.
pub struct CanTransfer;

impl MetadataInspectStrategy for CanTransfer {
    type Value = bool;
}

impl MetadataUpdateStrategy for CanTransfer {
    type Update<'u> = bool;
}

/// The ability to destroy an asset.
pub struct CanDestroy;

impl MetadataInspectStrategy for CanDestroy {
    type Value = bool;
}

impl MetadataUpdateStrategy for CanDestroy {
    type Update<'u> = bool;
}

/// The ability to update the metadata of an asset.
pub struct CanUpdateMetadata;

impl MetadataInspectStrategy for CanUpdateMetadata {
    type Value = bool;
}

impl MetadataUpdateStrategy for CanUpdateMetadata {
    type Update<'u> = bool;
}

/// Creation with an identifier that the creation assigns and reports.
pub struct WithAutoId<Id>(PhantomData<Id>);

impl<Id> WithAutoId<Id> {
    /// The automatic-identifier strategy.
    pub fn new() -> Self {
        WithAutoId(PhantomData)
    }
}

impl<Id> CreateStrategy for WithAutoId<Id> {
    type Success = Id;
}

/// Creation with a known identifier.
pub struct WithKnownId<'a, Id>(pub &'a Id);

impl<'a, Id> CreateStrategy for WithKnownId<'a, Id> {
    type Success = ();
}

/// Creation of a secondary asset under the primary asset it refers to.
pub struct SecondaryTo<
    'a,
    PrimaryAssetKind,
    AssetKind,
    Secondary: SecondaryAsset<PrimaryAssetKind, AssetKind>,
>(
    pub &'a <Secondary::PrimaryAsset as AssetDefinition<PrimaryAssetKind>>::Id,
    pub PhantomData<(PrimaryAssetKind, AssetKind)>,
);

impl<
    'a,
    PrimaryAssetKind,
    AssetKind,
    Secondary: SecondaryAsset<PrimaryAssetKind, AssetKind>,
> SecondaryTo<'a, PrimaryAssetKind, AssetKind, Secondary> {
    /// Creation under the primary asset `primary_id`.
    pub fn from_primary_id(
        primary_id: &'a <Secondary::PrimaryAsset as AssetDefinition<PrimaryAssetKind>>::Id,
    ) -> (r: Self)
        ensures
            r.0 == primary_id,
    {
        SecondaryTo(primary_id, PhantomData)
    }
}

impl<
    'a,
    PrimaryAssetKind,
    AssetKind,
    Secondary: SecondaryAsset<PrimaryAssetKind, AssetKind>,
> CreateStrategy for SecondaryTo<'a, PrimaryAssetKind, AssetKind, Secondary> {
    type Success = Secondary::Id;
}

/// Creation with an owner.
pub struct WithOwner<'a, Owner, Inner: CreateStrategy>(pub &'a Owner, pub Inner);

impl<'a, Owner, Inner: CreateStrategy> CreateStrategy for WithOwner<'a, Owner, Inner> {
    type Success = Inner::Success;
}

/// Creation with an admin.
pub struct WithAdmin<'a, Admin, Inner: CreateStrategy>(pub &'a Admin, pub Inner);

impl<'a, Admin, Inner: CreateStrategy> CreateStrategy for WithAdmin<'a, Admin, Inner> {
    type Success = Inner::Success;
}

/// Creation with a configuration.
pub struct WithConfig<'a, Config, Inner: CreateStrategy>(pub &'a Config, pub Inner);

impl<'a, Config, Inner: CreateStrategy> CreateStrategy for WithConfig<'a, Config, Inner> {
    type Success = Inner::Success;
}

/// Creation or destruction with a witness.
pub struct WithWitness<'a, Witness, Inner>(pub &'a Witness, pub Inner);

impl<'a, Witness, Inner: CreateStrategy> CreateStrategy for WithWitness<'a, Witness, Inner> {
    type Success = Inner::Success;
}

impl<'a, Witness, Inner: DestroyStrategy> DestroyStrategy for WithWitness<'a, Witness, Inner> {

}

/// Transfer from the first owner to the second.
pub struct FromTo<'a, Owner>(pub &'a Owner, pub &'a Owner);

impl<'a, Owner> TransferStrategy for FromTo<'a, Owner> {

}

/// Transfer to an owner, whoever owns the asset.
pub struct ForceTo<'a, Owner>(pub &'a Owner);

impl<'a, Owner> TransferStrategy for ForceTo<'a, Owner> {

}

/// Destruction if the asset is owned by the given owner.
pub struct IfOwnedBy<'a, Owner>(pub &'a Owner);

impl<'a, Owner> DestroyStrategy for IfOwnedBy<'a, Owner> {

}

/// Destruction whoever owns the asset.
pub struct ForceDestroy;

impl DestroyStrategy for ForceDestroy {

}

} // verus!
