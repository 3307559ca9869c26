use frame_assets::dispatch::{DispatchError, ModuleError, NftsError};
use frame_assets::nfts::metadata_strategy::{
    Collection, CustomAttributes, GenericMetadata, Item, RegularAttributes, SystemAttributes,
};
use frame_assets::nfts::{
    checked_collection_creation, collection_created, collection_creation, pallet_checked_collection_creation,
    CollectionCreation,
    bounded_bytes, can_transfer, can_transfer_update, check_destroy, check_origin, check_owner,
    check_transfer_approval, collection_creation_deposit, collection_setting_bit,
    custom_attribute_namespace, ensure_signed, found_or, item_setting_bit, next_collection_id,
    regular_attribute_update, transfer_disabled_key, AttributeNamespace, AttributeUpdate,
    CollectionConfig, CollectionSetting, ItemConfig, ItemSetting, NftsOrigin,
};

fn nfts_err(e: NftsError) -> DispatchError {
    DispatchError::Module(ModuleError::Nfts(e))
}

fn force() -> NftsOrigin {
    NftsOrigin { is_force: true, signer: None }
}

fn signed(who: u64) -> NftsOrigin {
    NftsOrigin { is_force: false, signer: Some(who) }
}

fn none() -> NftsOrigin {
    NftsOrigin { is_force: false, signer: None }
}

const ALL_ENABLED: CollectionConfig = CollectionConfig { disabled_settings: 0 };
const ITEM_ENABLED: ItemConfig = ItemConfig { disabled_settings: 0 };

#[test]
fn origins_act_as_force_or_signer() {
    assert_eq!(check_origin(force()), Ok(None));
    assert_eq!(check_origin(signed(3)), Ok(Some(3)));
    assert_eq!(check_origin(none()), Err(DispatchError::BadOrigin));
    assert_eq!(ensure_signed(signed(3)), Ok(3));
    assert_eq!(ensure_signed(force()), Err(DispatchError::BadOrigin));
}

#[test]
fn transfers_need_ownership_or_a_live_approval() {
    assert_eq!(check_transfer_approval(1, 1, None, 50), Ok(()));
    assert_eq!(check_transfer_approval(1, 2, None, 50), Err(nfts_err(NftsError::NoPermission)));
    assert_eq!(check_transfer_approval(1, 2, Some(None), 50), Ok(()));
    assert_eq!(check_transfer_approval(1, 2, Some(Some(50)), 50), Ok(()));
    assert_eq!(
        check_transfer_approval(1, 2, Some(Some(49)), 50),
        Err(nfts_err(NftsError::ApprovalExpired))
    );
}

#[test]
fn owners_and_the_force_origin_destroy() {
    assert_eq!(check_owner(4, 4), Ok(()));
    assert_eq!(check_owner(4, 5), Err(nfts_err(NftsError::NoPermission)));
    assert_eq!(check_destroy(4, None), Ok(()));
    assert_eq!(check_destroy(4, Some(4)), Ok(()));
    assert_eq!(check_destroy(4, Some(5)), Err(nfts_err(NftsError::NoPermission)));
}

#[test]
fn settings_are_bits() {
    assert_eq!(collection_setting_bit(CollectionSetting::TransferableItems), 1);
    assert_eq!(collection_setting_bit(CollectionSetting::UnlockedMetadata), 2);
    assert_eq!(collection_setting_bit(CollectionSetting::UnlockedAttributes), 4);
    assert_eq!(collection_setting_bit(CollectionSetting::UnlockedMaxSupply), 8);
    assert_eq!(collection_setting_bit(CollectionSetting::DepositRequired), 16);
    assert_eq!(item_setting_bit(ItemSetting::Transferable), 1);
    assert_eq!(item_setting_bit(ItemSetting::UnlockedMetadata), 2);
    assert_eq!(item_setting_bit(ItemSetting::UnlockedAttributes), 4);
    let config = CollectionConfig { disabled_settings: 16 };
    assert!(config.has_disabled_setting(CollectionSetting::DepositRequired));
    assert!(!config.is_setting_enabled(CollectionSetting::DepositRequired));
    assert!(config.is_setting_enabled(CollectionSetting::TransferableItems));
    let item = ItemConfig { disabled_settings: 1 };
    assert!(!item.is_setting_enabled(ItemSetting::Transferable));
    assert!(item.is_setting_enabled(ItemSetting::UnlockedMetadata));
}

#[test]
fn an_item_can_be_transferred_when_nothing_forbids_it() {
    assert!(can_transfer(Ok(false), Some(ALL_ENABLED), Some(ITEM_ENABLED)));
    assert!(can_transfer(Err(DispatchError::Other), Some(ALL_ENABLED), Some(ITEM_ENABLED)));
    assert!(!can_transfer(Ok(true), Some(ALL_ENABLED), Some(ITEM_ENABLED)));
    assert!(!can_transfer(Ok(false), None, Some(ITEM_ENABLED)));
    assert!(!can_transfer(Ok(false), Some(ALL_ENABLED), None));
    assert!(!can_transfer(Ok(false), Some(CollectionConfig { disabled_settings: 1 }), Some(ITEM_ENABLED)));
    assert!(!can_transfer(Ok(false), Some(ALL_ENABLED), Some(ItemConfig { disabled_settings: 1 })));
    assert!(can_transfer(Ok(false), Some(CollectionConfig { disabled_settings: 30 }), Some(ItemConfig { disabled_settings: 6 })));
}

#[test]
fn locking_transfers_twice_is_refused() {
    assert_eq!(can_transfer_update(false, Ok(false)), Ok(true));
    assert_eq!(can_transfer_update(false, Ok(true)), Err(nfts_err(NftsError::ItemLocked)));
    assert_eq!(can_transfer_update(false, Err(DispatchError::Corruption)), Err(DispatchError::Corruption));
    assert_eq!(can_transfer_update(true, Ok(true)), Ok(false));
    assert_eq!(can_transfer_update(true, Err(DispatchError::Corruption)), Ok(false));
    assert_eq!(transfer_disabled_key(), vec![1u8]);
}

#[test]
fn an_allowed_transfer_update_is_seen_by_inspection() {
    let locked = can_transfer_update(false, Ok(false)).unwrap();
    assert!(!can_transfer(Ok(locked), Some(ALL_ENABLED), Some(ITEM_ENABLED)));
    let unlocked = can_transfer_update(true, Ok(true)).unwrap();
    assert!(can_transfer(Ok(unlocked), Some(ALL_ENABLED), Some(ITEM_ENABLED)));
}

#[test]
fn custom_attributes_go_to_the_owner_or_the_account() {
    assert_eq!(custom_attribute_namespace(5, true), AttributeNamespace::ItemOwner);
    assert_eq!(custom_attribute_namespace(5, false), AttributeNamespace::Account(5));
}

#[test]
fn bytes_must_fit_their_bound() {
    assert_eq!(bounded_bytes(b"abc", 3), Ok(b"abc".to_vec()));
    assert_eq!(bounded_bytes(b"", 0), Ok(vec![]));
    assert_eq!(bounded_bytes(b"abcd", 3), Err(nfts_err(NftsError::IncorrectData)));
}

#[test]
fn lookups_fail_with_the_given_error() {
    assert_eq!(found_or(Some(3u8), NftsError::MetadataNotFound), Ok(3));
    assert_eq!(found_or::<u8>(None, NftsError::MetadataNotFound), Err(nfts_err(NftsError::MetadataNotFound)));
    assert_eq!(found_or::<u8>(None, NftsError::AttributeNotFound), Err(nfts_err(NftsError::AttributeNotFound)));
}

#[test]
fn the_next_collection_comes_from_storage_or_the_initial_id() {
    assert_eq!(next_collection_id(Some(4), Some(0)), Ok(4));
    assert_eq!(next_collection_id(None, Some(0)), Ok(0));
    assert_eq!(next_collection_id(None, None), Err(nfts_err(NftsError::UnknownCollection)));
}

#[test]
fn collection_creation_takes_a_deposit_from_its_owner() {
    assert_eq!(collection_creation_deposit(true, Err(DispatchError::BadOrigin), 1, ALL_ENABLED, 10), Ok(0));
    assert_eq!(collection_creation_deposit(false, Ok(1), 1, ALL_ENABLED, 10), Ok(10));
    assert_eq!(
        collection_creation_deposit(false, Ok(2), 1, ALL_ENABLED, 10),
        Err(nfts_err(NftsError::NoPermission))
    );
    assert_eq!(
        collection_creation_deposit(false, Ok(1), 1, CollectionConfig { disabled_settings: 16 }, 10),
        Err(nfts_err(NftsError::WrongSetting))
    );
    assert_eq!(
        collection_creation_deposit(false, Err(DispatchError::BadOrigin), 1, ALL_ENABLED, 10),
        Err(DispatchError::BadOrigin)
    );
}

#[test]
fn regular_attributes_are_set_by_owner_or_force() {
    assert_eq!(
        regular_attribute_update(Some(3), Some(vec![7]), Some(9)),
        Ok(AttributeUpdate::SetByOwner {
            who: 3,
            namespace: AttributeNamespace::CollectionOwner,
            value: vec![7],
            collection_owner: 9,
        })
    );
    assert_eq!(
        regular_attribute_update(Some(3), Some(vec![7]), None),
        Err(nfts_err(NftsError::UnknownCollection))
    );
    assert_eq!(
        regular_attribute_update(None, Some(vec![7]), None),
        Ok(AttributeUpdate::ForceSet { namespace: AttributeNamespace::Pallet, value: vec![7] })
    );
    assert_eq!(
        regular_attribute_update(Some(3), None, None),
        Ok(AttributeUpdate::Clear { maybe_check_origin: Some(3), namespace: AttributeNamespace::Pallet })
    );
    assert_eq!(
        regular_attribute_update(None, None, Some(9)),
        Ok(AttributeUpdate::Clear { maybe_check_origin: None, namespace: AttributeNamespace::Pallet })
    );
}

#[test]
fn metadata_strategies_are_markers() {
    let _c: Collection<GenericMetadata> = Collection(core::marker::PhantomData);
    let _i: Item<RegularAttributes> = Item(core::marker::PhantomData);
    let _s: Item<SystemAttributes> = Item(core::marker::PhantomData);
    let _a: Collection<CustomAttributes> = Collection(core::marker::PhantomData);
}

#[test]
fn collections_take_the_next_identifier() {
    let unchecked = collection_creation(Some(4), Some(0), 1, 2, ALL_ENABLED, 10);
    assert_eq!(
        unchecked,
        Ok(CollectionCreation { collection: 4, owner: 1, admin: 2, config: ALL_ENABLED, deposit: 10 })
    );
    assert_eq!(collection_creation(None, Some(0), 1, 2, ALL_ENABLED, 10).map(|c| c.collection), Ok(0));
    assert_eq!(collection_creation(None, None, 1, 2, ALL_ENABLED, 10), Err(nfts_err(NftsError::UnknownCollection)));
    assert_eq!(checked_collection_creation(Some(4), Some(0), false, Ok(1), 1, 2, ALL_ENABLED, 10), unchecked);
    assert_eq!(
        checked_collection_creation(Some(4), Some(0), true, Err(DispatchError::BadOrigin), 1, 2, ALL_ENABLED, 10),
        Ok(CollectionCreation { collection: 4, owner: 1, admin: 2, config: ALL_ENABLED, deposit: 0 })
    );
    assert_eq!(
        checked_collection_creation(Some(4), Some(0), false, Ok(3), 1, 2, ALL_ENABLED, 10),
        Err(nfts_err(NftsError::NoPermission))
    );
    assert_eq!(
        checked_collection_creation(None, None, true, Ok(1), 1, 2, ALL_ENABLED, 10),
        Err(nfts_err(NftsError::UnknownCollection))
    );
    let plan = unchecked.unwrap();
    assert_eq!(collection_created(plan, Ok(())), Ok(4));
    assert_eq!(collection_created(plan, Err(DispatchError::Other)), Err(DispatchError::Other));
}

#[test]
fn the_pallet_creation_charges_every_origin_the_deposit() {
    let unchecked = collection_creation(Some(4), Some(0), 1, 2, ALL_ENABLED, 10);
    assert_eq!(
        pallet_checked_collection_creation(Some(4), Some(0), true, Err(DispatchError::BadOrigin), 1, 2, ALL_ENABLED, 10),
        unchecked
    );
    assert_eq!(pallet_checked_collection_creation(Some(4), Some(0), false, Ok(1), 1, 2, ALL_ENABLED, 10), unchecked);
    assert_eq!(
        pallet_checked_collection_creation(Some(4), Some(0), false, Ok(2), 1, 2, ALL_ENABLED, 10),
        Err(nfts_err(NftsError::NoPermission))
    );
    assert_eq!(
        pallet_checked_collection_creation(Some(4), Some(0), false, Ok(1), 1, 2, CollectionConfig { disabled_settings: 16 }, 10),
        Err(nfts_err(NftsError::WrongSetting))
    );
    assert_eq!(
        pallet_checked_collection_creation(Some(4), Some(0), false, Err(DispatchError::BadOrigin), 1, 2, ALL_ENABLED, 10),
        Err(DispatchError::BadOrigin)
    );
    assert_eq!(
        pallet_checked_collection_creation(None, None, true, Ok(1), 1, 2, ALL_ENABLED, 10),
        Err(nfts_err(NftsError::UnknownCollection))
    );
}
