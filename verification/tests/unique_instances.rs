use core::marker::PhantomData;

use frame_assets::dispatch::DispatchError;
use frame_assets::traits::tokens::asset_ops::common_strategies::{
    DeriveAndReportId, FromTo, IfOwnedBy, Owned, PredefinedId,
};
use frame_assets::traits::tokens::asset_ops::{AssetDefinition, Create, Destroy, Transfer};
use frame_assets::unique_instances::transferable;
use frame_assets::unique_instances::{
    backed_deposit_plan, backed_internal_plan, backed_withdraw_plan, instance_account_plan,
    transact_outcome, transfer_instance, transfer_plan, BackedDeposit,
    BackedDerivativeInstanceAdapter, ConvertLocation, DerivativeStatus, Get, MatchesInstance,
    RecreateableInstanceAdapter, TransactAsset, TransferableInstanceAdapter, XcmContext,
};
use frame_assets::xcm_types::{
    bytes_eq, xcm_error_from, Asset, AssetInstance, Fungibility, Location, MatchError,
    TransactFailure, XcmError,
};

fn account(a: u8) -> Location {
    Location { parents: 0, interior: vec![a] }
}

fn nowhere() -> Location {
    Location { parents: 1, interior: vec![] }
}

fn item(class: u128, index: u128) -> Asset {
    Asset { id: class, fun: Fungibility::NonFungible(AssetInstance::Index(index)) }
}

fn context() -> XcmContext {
    XcmContext { origin: None, message_id: [0; 32], topic: None }
}

fn conversion_failed() -> XcmError {
    XcmError::FailedToTransactAsset(TransactFailure::AccountIdConversionFailed)
}

fn dispatch_failed(e: DispatchError) -> XcmError {
    XcmError::FailedToTransactAsset(TransactFailure::Dispatch(e))
}

/// A local location with one byte is that byte's account.
struct Accounts;

impl ConvertLocation<u64> for Accounts {
    fn convert_location(location: &Location) -> Option<u64> {
        if location.parents == 0 && location.interior.len() == 1 {
            Some(location.interior[0] as u64)
        } else {
            None
        }
    }
}

/// The stash is account 0.
struct Stash;

impl Get<Location> for Stash {
    fn get() -> Location {
        account(0)
    }
}

/// Assets of class 1 are items with their index.
struct Items;

impl MatchesInstance<u32> for Items {
    fn matches_instance(a: &Asset) -> Result<u32, MatchError> {
        match a.fun {
            Fungibility::NonFungible(AssetInstance::Index(i)) if a.id == 1 => Ok(i as u32),
            _ => Err(MatchError::AssetNotHandled),
        }
    }
}

/// Items from 100 on are in the stash; the others belong to the account of
/// their last digit.
fn owner_of(id: u32) -> u64 {
    if id >= 100 {
        0
    } else {
        id as u64 % 10
    }
}

struct ItemOps;

impl AssetDefinition for ItemOps {
    type Id = u32;
}

impl Transfer<FromTo<u64>> for ItemOps {
    fn transfer(id: &u32, strategy: FromTo<u64>) -> Result<(), DispatchError> {
        if owner_of(*id) == strategy.0 {
            Ok(())
        } else {
            Err(DispatchError::Other)
        }
    }
}

impl Create<Owned<u64, PredefinedId<u32>>> for ItemOps {
    fn create(strategy: Owned<u64, PredefinedId<u32>>) -> Result<u32, DispatchError> {
        if strategy.id_assignment.params == 13 {
            Err(DispatchError::Other)
        } else {
            Ok(strategy.id_assignment.params)
        }
    }
}

impl Destroy<IfOwnedBy<u64>> for ItemOps {
    fn destroy(id: &u32, strategy: IfOwnedBy<u64>) -> Result<(), DispatchError> {
        if owner_of(*id) == strategy.0 {
            Ok(())
        } else {
            Err(DispatchError::Other)
        }
    }
}

struct Classes;

impl AssetDefinition for Classes {
    type Id = u16;
}

/// Assets of class 2 below 100 have derivatives; the others are to be made
/// in class 7.
struct Derivatives;

impl MatchesInstance<DerivativeStatus<u16, u32>> for Derivatives {
    fn matches_instance(a: &Asset) -> Result<DerivativeStatus<u16, u32>, MatchError> {
        match a.fun {
            Fungibility::NonFungible(AssetInstance::Index(i)) if a.id == 2 => {
                if i < 100 {
                    Ok(DerivativeStatus::Exists(i as u32))
                } else {
                    Ok(DerivativeStatus::DepositableIn(7))
                }
            },
            _ => Err(MatchError::AssetNotHandled),
        }
    }
}

impl Create<Owned<u64, DeriveAndReportId<u16, u32>>> for ItemOps {
    fn create(strategy: Owned<u64, DeriveAndReportId<u16, u32>>) -> Result<u32, DispatchError> {
        if strategy.owner == 9 {
            Err(DispatchError::Exhausted)
        } else {
            Ok(strategy.id_assignment.params as u32 * 1000)
        }
    }
}

type Transferable = TransferableInstanceAdapter<u64, Accounts, Items, ItemOps, Stash>;
type TransferableToo = transferable::TransferableInstanceAdapter<u64, Accounts, Items, ItemOps, Stash>;
type Recreateable = RecreateableInstanceAdapter<u64, Accounts, Items, ItemOps>;
type Backed = BackedDerivativeInstanceAdapter<u64, Accounts, Derivatives, Classes, ItemOps, Stash>;

#[test]
fn transfer_plan_reports_the_first_failure() {
    assert_eq!(transfer_plan::<u32, u64>(Ok(1), Some(2), Some(3)), Ok((1, 2, 3)));
    assert_eq!(
        transfer_plan::<u32, u64>(Err(MatchError::InstanceConversionFailed), None, None),
        Err(XcmError::FailedToTransactAsset(TransactFailure::InstanceConversionFailed))
    );
    assert_eq!(transfer_plan::<u32, u64>(Ok(1), None, Some(3)), Err(conversion_failed()));
    assert_eq!(transfer_plan::<u32, u64>(Ok(1), Some(2), None), Err(conversion_failed()));
}

#[test]
fn instance_account_plan_needs_the_match_and_the_account() {
    assert_eq!(instance_account_plan::<u32, u64>(Ok(4), Some(5)), Ok((4, 5)));
    assert_eq!(
        instance_account_plan::<u32, u64>(Err(MatchError::AssetNotHandled), Some(5)),
        Err(XcmError::AssetNotFound)
    );
    assert_eq!(instance_account_plan::<u32, u64>(Ok(4), None), Err(conversion_failed()));
}

#[test]
fn transact_outcome_wraps_dispatch_errors() {
    assert_eq!(transact_outcome::<u32>(Ok(3)), Ok(()));
    assert_eq!(transact_outcome::<u32>(Err(DispatchError::BadOrigin)), Err(dispatch_failed(DispatchError::BadOrigin)));
}

#[test]
fn match_errors_become_xcm_errors() {
    assert_eq!(xcm_error_from(MatchError::AssetNotHandled), XcmError::AssetNotFound);
    assert_eq!(xcm_error_from(MatchError::AccountIdConversionFailed), conversion_failed());
    assert_eq!(
        xcm_error_from(MatchError::AmountToBalanceConversionFailed),
        XcmError::FailedToTransactAsset(TransactFailure::AmountToBalanceConversionFailed)
    );
    assert_eq!(
        xcm_error_from(MatchError::AssetIdConversionFailed),
        XcmError::FailedToTransactAsset(TransactFailure::AssetIdConversionFailed)
    );
    assert_eq!(
        xcm_error_from(MatchError::InstanceConversionFailed),
        XcmError::FailedToTransactAsset(TransactFailure::InstanceConversionFailed)
    );
}

#[test]
fn byte_arrays_compare_by_content() {
    assert!(bytes_eq(&[1u8, 2, 3], &[1u8, 2, 3]));
    assert!(!bytes_eq(&[1u8, 2, 3], &[1u8, 2, 4]));
}

#[test]
fn backed_deposit_plan_creates_or_moves() {
    assert_eq!(
        backed_deposit_plan::<u32, u32, u64>(Ok(DerivativeStatus::DepositableIn(7)), Some(5), None),
        Ok(BackedDeposit::Create { class: 7, to: 5 })
    );
    assert_eq!(
        backed_deposit_plan::<u32, u32, u64>(Ok(DerivativeStatus::Exists(4)), Some(5), Some(0)),
        Ok(BackedDeposit::Transfer { instance: 4, from: 0, to: 5 })
    );
    assert_eq!(
        backed_deposit_plan::<u32, u32, u64>(Ok(DerivativeStatus::Exists(4)), Some(5), None),
        Err(conversion_failed())
    );
    assert_eq!(
        backed_deposit_plan::<u32, u32, u64>(Ok(DerivativeStatus::Exists(4)), None, Some(0)),
        Err(conversion_failed())
    );
    assert_eq!(
        backed_deposit_plan::<u32, u32, u64>(Err(MatchError::AssetNotHandled), Some(5), Some(0)),
        Err(XcmError::AssetNotFound)
    );
}

#[test]
fn backed_withdraw_plan_moves_to_the_stash() {
    assert_eq!(
        backed_withdraw_plan::<u32, u32, u64>(Ok(DerivativeStatus::Exists(4)), Some(5), Some(0)),
        Ok((4, 5, 0))
    );
    assert_eq!(
        backed_withdraw_plan::<u32, u32, u64>(Ok(DerivativeStatus::DepositableIn(7)), Some(5), Some(0)),
        Err(XcmError::NotWithdrawable)
    );
    assert_eq!(
        backed_withdraw_plan::<u32, u32, u64>(Ok(DerivativeStatus::Exists(4)), Some(5), None),
        Err(conversion_failed())
    );
}

#[test]
fn backed_internal_plan_moves_existing_derivatives_only() {
    assert_eq!(
        backed_internal_plan::<u32, u32, u64>(Ok(DerivativeStatus::Exists(4)), Some(5), Some(6)),
        Ok((4, 5, 6))
    );
    assert_eq!(
        backed_internal_plan::<u32, u32, u64>(Ok(DerivativeStatus::DepositableIn(7)), Some(5), Some(6)),
        Err(XcmError::NotWithdrawable)
    );
    assert_eq!(
        backed_internal_plan::<u32, u32, u64>(Ok(DerivativeStatus::DepositableIn(7)), Some(5), None),
        Err(conversion_failed())
    );
}

#[test]
fn transfer_instance_moves_owned_items() {
    assert_eq!(transfer_instance::<u64, Accounts, Items, ItemOps>(&item(1, 5), &account(5), &account(6)), Ok(()));
    assert_eq!(
        transfer_instance::<u64, Accounts, Items, ItemOps>(&item(1, 5), &account(6), &account(5)),
        Err(dispatch_failed(DispatchError::Other))
    );
    assert_eq!(
        transfer_instance::<u64, Accounts, Items, ItemOps>(&item(3, 5), &account(5), &account(6)),
        Err(XcmError::AssetNotFound)
    );
    assert_eq!(
        transfer_instance::<u64, Accounts, Items, ItemOps>(&item(1, 5), &nowhere(), &account(6)),
        Err(conversion_failed())
    );
    assert_eq!(
        transfer_instance::<u64, Accounts, Items, ItemOps>(&item(1, 5), &account(5), &nowhere()),
        Err(conversion_failed())
    );
}

#[test]
fn transferable_adapter_uses_the_stash() {
    assert_eq!(Transferable::deposit_asset(&item(1, 100), &account(5), None), Ok(()));
    assert_eq!(
        Transferable::deposit_asset(&item(1, 5), &account(6), None),
        Err(dispatch_failed(DispatchError::Other))
    );
    assert_eq!(Transferable::withdraw_asset(&item(1, 5), &account(5), None), Ok(item(1, 5)));
    assert_eq!(
        Transferable::withdraw_asset(&item(1, 5), &account(4), None),
        Err(dispatch_failed(DispatchError::Other))
    );
    assert_eq!(
        Transferable::internal_transfer_asset(&item(1, 7), &account(7), &account(8), &context()),
        Ok(item(1, 7))
    );
    assert_eq!(
        Transferable::internal_transfer_asset(&item(2, 7), &account(7), &account(8), &context()),
        Err(XcmError::AssetNotFound)
    );
}

#[test]
fn the_other_transferable_adapter_behaves_alike() {
    assert_eq!(TransferableToo::deposit_asset(&item(1, 100), &account(5), None), Ok(()));
    assert_eq!(TransferableToo::withdraw_asset(&item(1, 5), &account(5), None), Ok(item(1, 5)));
    assert_eq!(
        TransferableToo::withdraw_asset(&item(1, 5), &nowhere(), None),
        Err(conversion_failed())
    );
    assert_eq!(
        TransferableToo::internal_transfer_asset(&item(1, 7), &account(7), &account(8), &context()),
        Ok(item(1, 7))
    );
}

#[test]
fn recreateable_adapter_creates_and_destroys() {
    assert_eq!(Recreateable::deposit_asset(&item(1, 42), &account(2), None), Ok(()));
    assert_eq!(
        Recreateable::deposit_asset(&item(1, 13), &account(3), None),
        Err(dispatch_failed(DispatchError::Other))
    );
    assert_eq!(Recreateable::deposit_asset(&item(1, 42), &nowhere(), None), Err(conversion_failed()));
    assert_eq!(Recreateable::withdraw_asset(&item(1, 42), &account(2), None), Ok(item(1, 42)));
    assert_eq!(
        Recreateable::withdraw_asset(&item(1, 42), &account(3), None),
        Err(dispatch_failed(DispatchError::Other))
    );
    assert_eq!(
        Recreateable::internal_transfer_asset(&item(1, 42), &account(2), &account(3), &context()),
        Ok(item(1, 42))
    );
}

#[test]
fn backed_adapter_creates_then_moves_derivatives() {
    assert_eq!(Backed::deposit_asset(&item(2, 500), &account(5), None), Ok(()));
    assert_eq!(Backed::deposit_asset(&item(2, 40), &account(5), None), Ok(()));
    assert_eq!(
        Backed::deposit_asset(&item(2, 500), &account(9), None),
        Err(dispatch_failed(DispatchError::Exhausted))
    );
    assert_eq!(Backed::deposit_asset(&item(2, 43), &account(5), None), Err(dispatch_failed(DispatchError::Other)));
    assert_eq!(Backed::withdraw_asset(&item(2, 45), &account(5), None), Ok(item(2, 45)));
    assert_eq!(Backed::withdraw_asset(&item(2, 500), &account(5), None), Err(XcmError::NotWithdrawable));
    assert_eq!(
        Backed::internal_transfer_asset(&item(2, 45), &account(5), &account(6), &context()),
        Ok(item(2, 45))
    );
    assert_eq!(
        Backed::internal_transfer_asset(&item(2, 500), &account(5), &account(6), &context()),
        Err(XcmError::NotWithdrawable)
    );
    assert_eq!(Backed::deposit_asset(&item(1, 5), &account(5), None), Err(XcmError::AssetNotFound));
}

#[test]
fn strategies_are_built_from_their_parts() {
    let owned: Owned<u64, PredefinedId<u32>> = Owned::new(3, DeriveAndReportId::from(4));
    assert_eq!(owned.owner, 3);
    assert_eq!(owned.id_assignment.params, 4);
    let _: PhantomData<u32> = owned.id_assignment._phantom;
}
