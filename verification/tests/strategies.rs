use core::marker::PhantomData;

use frame_assets::traits::asset_ops::common_asset_kinds::{Class, Instance};
use frame_assets::traits::asset_ops::common_strategies::{
    Bytes, Ownership, SecondaryTo, WithAutoId, WithKnownId,
};
use frame_assets::traits::asset_ops::{AssetDefinition, SecondaryAsset};
use frame_assets::traits::tokens::asset_ops::common_strategies as token_strategies;
use frame_assets::traits::tokens::common_asset_strategies::{
    NewOwnedAsset, NewOwnedAssetWithId, NewOwnedChildAsset, NewOwnedChildAssetWithId,
};

struct Collections;

impl AssetDefinition<Class> for Collections {
    type Id = u32;
}

struct Items;

impl AssetDefinition<Instance> for Items {
    type Id = (u32, u32);
}

impl SecondaryAsset<Class, Instance> for Items {
    type PrimaryAsset = Collections;
}

#[test]
fn secondary_creation_refers_to_its_primary() {
    let collection: u32 = 7;
    let s = SecondaryTo::<Class, Instance, Items>::from_primary_id(&collection);
    assert_eq!(*s.0, 7);
}

#[test]
fn plain_strategies_are_built_empty() {
    let b = Bytes::new();
    assert_eq!(b.0, ());
    let _o: Ownership<u64> = Ownership::new();
    let _a: WithAutoId<u32> = WithAutoId::new();
    let id = 5u32;
    let k = WithKnownId(&id);
    assert_eq!(*k.0, 5);
}

#[test]
fn token_strategies_have_empty_defaults() {
    assert_eq!(token_strategies::JustDo::default().0, ());
    assert_eq!(token_strategies::Bytes::default().0, ());
    assert_eq!(token_strategies::CanCreate::default().0, ());
    assert_eq!(token_strategies::CanTransfer::default().0, ());
    assert_eq!(token_strategies::CanDestroy::default().0, ());
    assert_eq!(token_strategies::CanUpdateMetadata::default().0, ());
    let _o: token_strategies::Ownership<u64> = token_strategies::Ownership::default();
}

#[test]
fn identifier_assignments_carry_their_parameters() {
    let auto: token_strategies::AutoId<u32> = token_strategies::DeriveAndReportId::auto();
    assert_eq!(auto.params, ());
    let predefined: token_strategies::PredefinedId<u32> = token_strategies::DeriveAndReportId::from(9);
    assert_eq!(predefined.params, 9);
    assert_eq!(predefined, token_strategies::DeriveAndReportId { params: 9, _phantom: PhantomData });
}

#[test]
fn owned_and_adminable_creations_carry_their_parts() {
    let owned: token_strategies::Owned<u64, token_strategies::PredefinedId<u32>> =
        token_strategies::Owned::new(1, token_strategies::DeriveAndReportId::from(2));
    assert_eq!(owned.owner, 1);
    assert_eq!(owned.id_assignment.params, 2);
    let configured: token_strategies::Owned<u64, token_strategies::PredefinedId<u32>, u8> =
        token_strategies::Owned::new_configured(1, token_strategies::DeriveAndReportId::from(2), 3);
    assert_eq!(configured.config, 3);
    let adminable: token_strategies::Adminable<u64, token_strategies::AutoId<u32>> =
        token_strategies::Adminable::new(token_strategies::DeriveAndReportId::auto(), 4, 5);
    assert_eq!(adminable.owner, 4);
    assert_eq!(adminable.admin, 5);
    let configured: token_strategies::Adminable<u64, token_strategies::AutoId<u32>, bool> =
        token_strategies::Adminable::new_configured(4, 5, token_strategies::DeriveAndReportId::auto(), true);
    assert_eq!(configured.owner, 4);
    assert_eq!(configured.admin, 5);
    assert!(configured.config);
}

#[test]
fn new_owned_assets_refer_to_their_parts() {
    let owner = 11u64;
    let id = 3u32;
    let parent = 8u32;
    let a = NewOwnedAsset::<Instance, u32, u64>::from(&owner);
    assert_eq!(*a.0, 11);
    let b = NewOwnedAssetWithId::<Instance, u32, u64>::from(&id, &owner);
    assert_eq!((*b.id, *b.owner), (3, 11));
    let c = NewOwnedChildAsset::<Instance, u32, u32, u64>::from(&parent, &owner);
    assert_eq!((*c.parent_asset_id, *c.owner), (8, 11));
    let d = NewOwnedChildAssetWithId::<Instance, u32, u32, u64>::from(&parent, &id, &owner);
    assert_eq!((*d.parent_asset_id, *d.id, *d.owner), (8, 3, 11));
}
