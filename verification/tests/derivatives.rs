use std::collections::BTreeMap;

use frame_assets::derivatives::{
    DerivativeAsset, DerivativeErrOps, DerivativeEvent, Derivatives, DestroyWitness, MetadataMap,
    TestWeightInfo, Weight, WeightInfo,
};
use frame_assets::dispatch::{DerivativesError, DispatchError, ModuleError};
use frame_assets::traits::tokens::asset_ops::common_strategies::WithOrigin;
use frame_assets::traits::tokens::asset_ops::{AssetDefinition, Create, Destroy};

type Registry = Derivatives<u32, u64, Vec<u8>>;

fn derivatives_err(e: DerivativesError) -> DispatchError {
    DispatchError::Module(ModuleError::Derivatives(e))
}

/// Creates a derivative numbered 1000 above its original, for the origin 1
/// only; for the origin 2 it creates one that is not to be registered.
struct MintOps;

impl Create<WithOrigin<u8, DerivativeAsset<u32, u64>>> for MintOps {
    fn create(strategy: WithOrigin<u8, DerivativeAsset<u32, u64>>) -> Result<Option<u64>, DispatchError> {
        let WithOrigin(origin, asset) = strategy;
        match origin {
            1 => Ok(Some(asset.original as u64 + 1000)),
            2 => Ok(None),
            _ => Err(DispatchError::BadOrigin),
        }
    }
}

impl AssetDefinition for MintOps {
    type Id = u32;
}

impl Destroy<WithOrigin<u8, DestroyWitness>> for MintOps {
    fn destroy(_id: &u32, strategy: WithOrigin<u8, DestroyWitness>) -> Result<(), DispatchError> {
        if strategy.0 == 1 {
            Ok(())
        } else {
            Err(DispatchError::BadOrigin)
        }
    }
}

fn metadata() -> MetadataMap {
    let mut m = BTreeMap::new();
    m.insert(b"name".to_vec(), b"kitty".to_vec());
    m
}

#[test]
fn a_registered_derivative_maps_both_ways() {
    let mut r = Registry::new();
    assert_eq!(r.try_register_derivative(&1, &101), Ok(()));
    assert_eq!(r.get_derivative(&1), Some(101));
    assert_eq!(r.get_original(&101), Some(1));
    assert_eq!(r.get_derivative(&2), None);
    assert_eq!(r.get_original(&102), None);
    assert_eq!(
        r.events(),
        &vec![DerivativeEvent::DerivativeMappingCreated { original: 1, derivative_id: 101 }]
    );
}

#[test]
fn registering_twice_is_refused() {
    let mut r = Registry::new();
    assert_eq!(r.try_register_derivative(&1, &101), Ok(()));
    assert_eq!(
        r.try_register_derivative(&1, &102),
        Err(derivatives_err(DerivativesError::DerivativeAlreadyExists))
    );
    assert_eq!(r.get_derivative(&1), Some(101));
    assert_eq!(r.get_original(&102), None);
    assert_eq!(r.events().len(), 1);
}

#[test]
fn register_then_deregister_restores_the_registry() {
    let mut r = Registry::new();
    assert_eq!(r.try_register_derivative(&7, &70), Ok(()));
    assert_eq!(r.try_register_derivative(&1, &101), Ok(()));
    assert_eq!(r.try_deregister_derivative_of(&1), Ok(()));
    assert_eq!(r.get_derivative(&1), None);
    assert_eq!(r.get_original(&101), None);
    assert_eq!(r.get_derivative(&7), Some(70));
    assert_eq!(r.iter(), vec![(7, 70)]);
    assert_eq!(
        r.events().last(),
        Some(&DerivativeEvent::DerivativeDestroyed { original: 1 })
    );
}

#[test]
fn deregistering_nothing_is_refused() {
    let mut r = Registry::new();
    assert_eq!(
        r.try_deregister_derivative_of(&5),
        Err(derivatives_err(DerivativesError::NoDerivativeToDeregister))
    );
    assert!(r.events().is_empty());
}

#[test]
fn extra_data_is_kept_per_registered_derivative() {
    let mut r = Registry::new();
    assert_eq!(
        r.set_derivative_extra(&101, Some(vec![1])),
        Err(derivatives_err(DerivativesError::DerivativeNotFound))
    );
    assert_eq!(r.try_register_derivative(&1, &101), Ok(()));
    assert_eq!(r.get_derivative_extra(&101), None);
    assert_eq!(r.set_derivative_extra(&101, Some(vec![1, 2])), Ok(()));
    assert_eq!(r.get_derivative_extra(&101), Some(&vec![1, 2]));
    assert_eq!(r.set_derivative_extra(&101, None), Ok(()));
    assert_eq!(r.get_derivative_extra(&101), None);
    assert_eq!(r.set_derivative_extra(&101, Some(vec![3])), Ok(()));
    assert_eq!(r.try_deregister_derivative_of(&1), Ok(()));
    assert_eq!(r.get_derivative_extra(&101), None);
}

#[test]
fn iterators_list_every_registration_once() {
    let mut r = Registry::new();
    for o in 1u32..=4 {
        assert_eq!(r.try_register_derivative(&o, &(o as u64 * 10)), Ok(()));
    }
    let mut pairs = r.iter();
    pairs.sort();
    assert_eq!(pairs, vec![(1, 10), (2, 20), (3, 30), (4, 40)]);
    let mut originals = r.iter_originals();
    originals.sort();
    assert_eq!(originals, vec![1, 2, 3, 4]);
    let mut derivatives = r.iter_derivatives();
    derivatives.sort();
    assert_eq!(derivatives, vec![10, 20, 30, 40]);
}

#[test]
fn complete_create_registers_what_was_reported() {
    let mut r = Registry::new();
    assert_eq!(r.complete_create(3, Some(33)), Ok(()));
    assert_eq!(r.get_derivative(&3), Some(33));
    assert_eq!(
        r.events(),
        &vec![
            DerivativeEvent::DerivativeMappingCreated { original: 3, derivative_id: 33 },
            DerivativeEvent::DerivativeCreated { original: 3 },
        ]
    );
    assert_eq!(r.complete_create(4, None), Ok(()));
    assert_eq!(r.get_derivative(&4), None);
    assert_eq!(r.events().last(), Some(&DerivativeEvent::DerivativeCreated { original: 4 }));
    assert_eq!(
        r.complete_create(3, Some(34)),
        Err(derivatives_err(DerivativesError::DerivativeAlreadyExists))
    );
    assert_eq!(r.events().len(), 3);
}

#[test]
fn create_derivative_goes_through_the_operations() {
    let mut r = Registry::new();
    assert_eq!(r.create_derivative::<u8, MintOps>(1, 5, metadata()), Ok(()));
    assert_eq!(r.get_derivative(&5), Some(1005));
    assert_eq!(r.create_derivative::<u8, MintOps>(2, 6, metadata()), Ok(()));
    assert_eq!(r.get_derivative(&6), None);
    assert_eq!(r.create_derivative::<u8, MintOps>(3, 7, metadata()), Err(DispatchError::BadOrigin));
    assert_eq!(r.get_derivative(&7), None);
    assert_eq!(r.events().len(), 3);
}

#[test]
fn destroy_derivative_goes_through_the_operations() {
    let mut r = Registry::new();
    assert_eq!(r.create_derivative::<u8, MintOps>(1, 5, metadata()), Ok(()));
    assert_eq!(r.destroy_derivative::<u8, MintOps>(3, 5, metadata()), Err(DispatchError::BadOrigin));
    assert_eq!(r.get_derivative(&5), Some(1005));
    assert_eq!(r.destroy_derivative::<u8, MintOps>(1, 5, metadata()), Ok(()));
    assert_eq!(r.get_derivative(&5), None);
    assert_eq!(r.get_original(&1005), None);
    assert_eq!(
        r.destroy_derivative::<u8, MintOps>(1, 5, metadata()),
        Err(derivatives_err(DerivativesError::NoDerivativeToDeregister))
    );
}

#[test]
fn error_operations_refuse_everything() {
    let mut r = Registry::new();
    assert_eq!(
        r.create_derivative::<u8, DerivativeErrOps<u32>>(1, 5, metadata()),
        Err(DispatchError::BadOrigin)
    );
    assert_eq!(r.try_register_derivative(&5, &55), Ok(()));
    assert_eq!(
        r.destroy_derivative::<u8, DerivativeErrOps<u32>>(1, 5, metadata()),
        Err(DispatchError::BadOrigin)
    );
    assert_eq!(r.get_derivative(&5), Some(55));
}

#[test]
fn strategies_carry_their_parts() {
    let a = DerivativeAsset::<u32, u64>::from_parts(9, metadata());
    assert_eq!(a.original, 9);
    assert_eq!(a.metadata, metadata());
    let w = DestroyWitness(metadata());
    assert_eq!(w.0.get(&b"name".to_vec()), Some(&b"kitty".to_vec()));
}

#[test]
fn test_weights_are_fixed() {
    assert_eq!(TestWeightInfo::create_derivative(), Weight { ref_time: 100_000_000, proof_size: 0 });
    assert_eq!(TestWeightInfo::destroy_derivative(), Weight::from_parts(100_000_000, 0));
}
