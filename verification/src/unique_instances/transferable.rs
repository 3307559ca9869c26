//! A transactor of instances that move to and from a stash account.

use core::marker::PhantomData;
use vstd::prelude::*;

use super::{transfer_instance, ConvertLocation, Get, MatchesInstance, TransactAsset, XcmContext};
use crate::traits::tokens::asset_ops::common_strategies::FromTo;
use crate::traits::tokens::asset_ops::Transfer;
use crate::xcm_types::{Asset, Location, XcmError};

verus! {

/// A transactor of instances that move to and from a stash account.
pub struct TransferableInstanceAdapter<
    AccountId,
    AccountIdConverter,
    Matcher,
    InstanceTransfer,
    StashLocation,
>(pub PhantomData<(AccountId, AccountIdConverter, Matcher, InstanceTransfer, StashLocation)>);

impl<
    AccountId,
    AccountIdConverter: ConvertLocation<AccountId>,
    Matcher: MatchesInstance<InstanceTransfer::Id>,
    InstanceTransfer: Transfer<FromTo<AccountId>>,
    StashLocation: Get<Location>,
> TransactAsset for TransferableInstanceAdapter<
    AccountId,
    AccountIdConverter,
    Matcher,
    InstanceTransfer,
    StashLocation,
> {
    /// Transfers the instance from the stash to `who`.
    fn deposit_asset(what: &Asset, who: &Location, _context: Option<&XcmContext>) -> (r: Result<(), XcmError>)
        ensures
            r matches Err(e) ==> e != XcmError::NotWithdrawable,
            exists|stash: Location| #[trigger] call_ensures(StashLocation::get, (), stash)
                && super::transfer_instance_result::<AccountId, AccountIdConverter, Matcher, InstanceTransfer>(what, &stash, who, r),
    {
        transfer_instance::<AccountId, AccountIdConverter, Matcher, InstanceTransfer>(
            what,
            &StashLocation::get(),
            who,
        )
    }

    /// Transfers the instance from `who` to the stash.
    fn withdraw_asset(what: &Asset, who: &Location, _maybe_context: Option<&XcmContext>) -> (r: Result<Asset, XcmError>)
        ensures
            r matches Ok(a) ==> a == *what,
            r matches Err(e) ==> e != XcmError::NotWithdrawable,
            exists|stash: Location| #[trigger] call_ensures(StashLocation::get, (), stash)
                && super::transfer_instance_result::<AccountId, AccountIdConverter, Matcher, InstanceTransfer>(what, who, &stash, super::unit_result(r)),
    {
        match transfer_instance::<AccountId, AccountIdConverter, Matcher, InstanceTransfer>(
            what,
            who,
            &StashLocation::get(),
        ) {
            Ok(()) => Ok(*what),
            Err(e) => Err(e),
        }
    }

    /// Transfers the instance from `from` to `to`.
    fn internal_transfer_asset(what: &Asset, from: &Location, to: &Location, _context: &XcmContext) -> (r: Result<Asset, XcmError>)
        ensures
            r matches Ok(a) ==> a == *what,
            r matches Err(e) ==> e != XcmError::NotWithdrawable,
            super::transfer_instance_result::<AccountId, AccountIdConverter, Matcher, InstanceTransfer>(what, from, to, super::unit_result(r)),
    {
        match transfer_instance::<AccountId, AccountIdConverter, Matcher, InstanceTransfer>(what, from, to) {
            Ok(()) => Ok(*what),
            Err(e) => Err(e),
        }
    }
}

} // verus!
