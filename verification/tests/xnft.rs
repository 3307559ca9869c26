use frame_assets::dispatch::{DispatchError, ModuleError, XnftError};
use frame_assets::xcm_types::{Asset, AssetInstance, Fungibility, MatchError, NonFungibleAsset};
use frame_assets::xnft::{RegisterDerivativeId, Xnft};

type Registry = Xnft<u64, u32>;

fn nft(id: u128, index: u128) -> NonFungibleAsset {
    NonFungibleAsset { id, instance: AssetInstance::Index(index) }
}

#[test]
fn a_class_with_a_source_matches_its_instances() {
    let mut r = Registry::new();
    r.set_derivative_id_source(7, 70);
    assert_eq!(r.foreign_asset_to_derivative_id_source(&7), Some(70));
    assert_eq!(r.derivative_id_source_to_foreign_asset(&70), Some(7));
    let asset = Asset { id: 7, fun: Fungibility::NonFungible(AssetInstance::Index(3)) };
    assert_eq!(
        r.matches_instance(&asset),
        Ok(RegisterDerivativeId { foreign_asset: nft(7, 3), instance_id_source: 70 })
    );
}

#[test]
fn other_assets_are_not_handled() {
    let mut r = Registry::new();
    r.set_derivative_id_source(7, 70);
    let unknown_class = Asset { id: 8, fun: Fungibility::NonFungible(AssetInstance::Undefined) };
    assert_eq!(r.matches_instance(&unknown_class), Err(MatchError::AssetNotHandled));
    let fungible = Asset { id: 7, fun: Fungibility::Fungible(100) };
    assert_eq!(r.matches_instance(&fungible), Err(MatchError::AssetNotHandled));
}

#[test]
fn xnft_register_then_deregister_restores_the_registry() {
    let mut r = Registry::new();
    assert_eq!(r.try_register_derivative(&nft(1, 1), &11), Ok(()));
    assert!(r.is_derivative_registered(&nft(1, 1)));
    assert!(r.is_derivative(&11));
    assert_eq!(r.foreign_nft_to_derivative_id(&nft(1, 1)), Some(11));
    assert_eq!(r.derivative_id_to_foreign_nft(&11), Some(nft(1, 1)));
    assert_eq!(r.try_deregister_derivative(&11), Ok(()));
    assert!(!r.is_derivative_registered(&nft(1, 1)));
    assert!(!r.is_derivative(&11));
    assert_eq!(r.foreign_nft_to_derivative_id(&nft(1, 1)), None);
    assert_eq!(r.derivative_id_to_foreign_nft(&11), None);
}

#[test]
fn deregistering_an_unknown_derivative_is_refused() {
    let mut r = Registry::new();
    assert_eq!(
        r.try_deregister_derivative(&11),
        Err(DispatchError::Module(ModuleError::Xnft(XnftError::InvalidState)))
    );
}

#[test]
fn registering_again_replaces_the_mapping() {
    let mut r = Registry::new();
    assert_eq!(r.try_register_derivative(&nft(1, 1), &11), Ok(()));
    assert_eq!(r.try_register_derivative(&nft(1, 1), &12), Ok(()));
    assert_eq!(r.foreign_nft_to_derivative_id(&nft(1, 1)), Some(12));
    assert_eq!(r.derivative_id_to_foreign_nft(&12), Some(nft(1, 1)));
}

#[test]
fn instances_of_every_kind_are_told_apart() {
    let mut r = Registry::new();
    let a = NonFungibleAsset { id: 2, instance: AssetInstance::Array4([1, 2, 3, 4]) };
    let b = NonFungibleAsset { id: 2, instance: AssetInstance::Array4([1, 2, 3, 5]) };
    let c = NonFungibleAsset { id: 2, instance: AssetInstance::Array32([9; 32]) };
    let d = NonFungibleAsset { id: 2, instance: AssetInstance::Array8([9; 8]) };
    let e = NonFungibleAsset { id: 2, instance: AssetInstance::Array16([9; 16]) };
    assert_eq!(r.try_register_derivative(&a, &1), Ok(()));
    assert_eq!(r.try_register_derivative(&b, &2), Ok(()));
    assert_eq!(r.try_register_derivative(&c, &3), Ok(()));
    assert_eq!(r.try_register_derivative(&d, &4), Ok(()));
    assert_eq!(r.try_register_derivative(&e, &5), Ok(()));
    assert_eq!(r.foreign_nft_to_derivative_id(&a), Some(1));
    assert_eq!(r.foreign_nft_to_derivative_id(&b), Some(2));
    assert_eq!(r.foreign_nft_to_derivative_id(&c), Some(3));
    assert_eq!(r.foreign_nft_to_derivative_id(&d), Some(4));
    assert_eq!(r.foreign_nft_to_derivative_id(&e), Some(5));
}
