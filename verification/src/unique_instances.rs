//! Asset transactors for unique (non-fungible) instances: how incoming and
//! outgoing cross-consensus assets become transfers, creations and
//! destructions of local instances.
//!
//! Each transactor first decides, from what the matcher and the location
//! converter report, which local operation to perform (the plan functions
//! below, whose results are stated exactly), and then performs it through
//! the instance operations.

use core::marker::PhantomData;
use vstd::prelude::*;

use crate::dispatch::{DispatchError, DispatchResult};
use crate::traits::tokens::asset_ops::common_strategies::{
    DeriveAndReportId, FromTo, IfOwnedBy, Owned, PredefinedId,
};
use crate::traits::tokens::asset_ops::{AssetDefinition, Create, Destroy, Transfer};
use crate::xcm_types::{
    spec_xcm_error_from, xcm_error_from, Asset, Location, MatchError, TransactFailure, XcmError,
};

pub mod transferable;

verus! {

/// The context of a cross-consensus message being executed.
#[derive(Debug, Clone, PartialEq, Eq)]
pub struct XcmContext {
    /// The origin of the message, if any.
    pub origin: Option<Location>,
    /// The identifier of the message.
    pub message_id: [u8; 32],
    /// The topic of the message, if any.
    pub topic: Option<[u8; 32]>,
}

/// Matches an asset to a local instance (or another local value).
pub trait MatchesInstance<Id> {
    /// The local value that the asset stands for.
    fn matches_instance(a: &Asset) -> Result<Id, MatchError>;
}

/// Converts a location to a local account.
pub trait ConvertLocation<AccountId> {
    /// The account at `location`, if there is one.
    fn convert_location(location: &Location) -> Option<AccountId>;
}

/// Provides a value.
pub trait Get<T> {
    /// The value.
    fn get() -> T;
}

/// Transacts cross-consensus assets: deposits them into, withdraws them
/// from, and moves them between locations.
pub trait TransactAsset {
    /// Deposits `what` into `who`.
    fn deposit_asset(what: &Asset, who: &Location, context: Option<&XcmContext>) -> Result<(), XcmError>;

    /// Withdraws `what` from `who`, giving the withdrawn asset.
    fn withdraw_asset(what: &Asset, who: &Location, maybe_context: Option<&XcmContext>) -> Result<Asset, XcmError>;

    /// Moves `what` from `from` to `to`, giving the moved asset.
    fn internal_transfer_asset(what: &Asset, from: &Location, to: &Location, context: &XcmContext) -> Result<Asset, XcmError>;
}

/// Where a derivative of an incoming asset is: to be created in a class,
/// or existing as an instance.
#[derive(Debug, Clone, Copy, PartialEq, Eq)]
pub enum DerivativeStatus<ClassId, InstanceId> {
    /// The derivative is to be created in this class.
    DepositableIn(ClassId),
    /// The derivative exists as this instance.
    Exists(InstanceId),
}

/// The failure of an account conversion.
pub open spec fn conversion_failed() -> XcmError {
    XcmError::FailedToTransactAsset(TransactFailure::AccountIdConversionFailed)
}

/// Transferring the matched instance from one converted account to another:
/// a failed match or a failed conversion (of `from`, then of `to`) is the
/// error.
pub open spec fn spec_transfer_plan<Id, AccountId>(
    matched: Result<Id, MatchError>,
    from: Option<AccountId>,
    to: Option<AccountId>,
) -> Result<(Id, AccountId, AccountId), XcmError> {
    match matched {
        Err(e) => Err(spec_xcm_error_from(e)),
        Ok(id) => match from {
            None => Err(conversion_failed()),
            Some(f) => match to {
                None => Err(conversion_failed()),
                Some(t) => Ok((id, f, t)),
            },
        },
    }
}

/// Plans a transfer; see `spec_transfer_plan`.
pub fn transfer_plan<Id, AccountId>(
    matched: Result<Id, MatchError>,
    from: Option<AccountId>,
    to: Option<AccountId>,
) -> (r: Result<(Id, AccountId, AccountId), XcmError>)
    ensures
        r == spec_transfer_plan(matched, from, to),
{
    match matched {
        Err(e) => Err(xcm_error_from(e)),
        Ok(id) => match from {
            None => Err(XcmError::FailedToTransactAsset(TransactFailure::AccountIdConversionFailed)),
            Some(f) => match to {
                None => Err(XcmError::FailedToTransactAsset(TransactFailure::AccountIdConversionFailed)),
                Some(t) => Ok((id, f, t)),
            },
        },
    }
}

/// An operation on the matched instance for one converted account: a
/// failed match or a failed conversion is the error.
pub open spec fn spec_instance_account_plan<Id, AccountId>(
    matched: Result<Id, MatchError>,
    who: Option<AccountId>,
) -> Result<(Id, AccountId), XcmError> {
    match matched {
        Err(e) => Err(spec_xcm_error_from(e)),
        Ok(id) => match who {
            None => Err(conversion_failed()),
            Some(w) => Ok((id, w)),
        },
    }
}

/// Plans an operation on an instance for an account; see
/// `spec_instance_account_plan`.
pub fn instance_account_plan<Id, AccountId>(
    matched: Result<Id, MatchError>,
    who: Option<AccountId>,
) -> (r: Result<(Id, AccountId), XcmError>)
    ensures
        r == spec_instance_account_plan(matched, who),
{
    match matched {
        Err(e) => Err(xcm_error_from(e)),
        Ok(id) => match who {
            None => Err(XcmError::FailedToTransactAsset(TransactFailure::AccountIdConversionFailed)),
            Some(w) => Ok((id, w)),
        },
    }
}

/// The outcome of an asset operation as a transaction: its error, if any,
/// is a failure to transact.
pub open spec fn spec_transact_outcome<T>(r: Result<T, DispatchError>) -> Result<(), XcmError> {
    match r {
        Ok(_) => Ok(()),
        Err(e) => Err(XcmError::FailedToTransactAsset(TransactFailure::Dispatch(e))),
    }
}

/// The outcome of an asset operation as a transaction.
pub fn transact_outcome<T>(r: Result<T, DispatchError>) -> (o: Result<(), XcmError>)
    ensures
        o == spec_transact_outcome(r),
{
    match r {
        Ok(_) => Ok(()),
        Err(e) => Err(XcmError::FailedToTransactAsset(TransactFailure::Dispatch(e))),
    }
}

/// What depositing into a backed derivative does.
#[derive(Debug, Clone, Copy, PartialEq, Eq)]
pub enum BackedDeposit<ClassId, InstanceId, AccountId> {
    /// Create a derivative in `class`, owned by `to`.
    Create { class: ClassId, to: AccountId },
    /// Transfer the existing derivative `instance` from the stash `from` to `to`.
    Transfer { instance: InstanceId, from: AccountId, to: AccountId },
}

/// Depositing into a backed derivative: after the match and the conversion
/// of the beneficiary, a derivative to be made is created for them, and an
/// existing one is transferred to them from the stash (whose conversion can
/// fail too).
pub open spec fn spec_backed_deposit_plan<ClassId, InstanceId, AccountId>(
    status: Result<DerivativeStatus<ClassId, InstanceId>, MatchError>,
    to: Option<AccountId>,
    stash: Option<AccountId>,
) -> Result<BackedDeposit<ClassId, InstanceId, AccountId>, XcmError> {
    match status {
        Err(e) => Err(spec_xcm_error_from(e)),
        Ok(s) => match to {
            None => Err(conversion_failed()),
            Some(t) => match s {
                DerivativeStatus::DepositableIn(class) => Ok(BackedDeposit::Create { class, to: t }),
                DerivativeStatus::Exists(instance) => match stash {
                    None => Err(conversion_failed()),
                    Some(f) => Ok(BackedDeposit::Transfer { instance, from: f, to: t }),
                },
            },
        },
    }
}

/// Plans a deposit into a backed derivative; see `spec_backed_deposit_plan`.
pub fn backed_deposit_plan<ClassId, InstanceId, AccountId>(
    status: Result<DerivativeStatus<ClassId, InstanceId>, MatchError>,
    to: Option<AccountId>,
    stash: Option<AccountId>,
) -> (r: Result<BackedDeposit<ClassId, InstanceId, AccountId>, XcmError>)
    ensures
        r == spec_backed_deposit_plan(status, to, stash),
{
    match status {
        Err(e) => Err(xcm_error_from(e)),
        Ok(s) => match to {
            None => Err(XcmError::FailedToTransactAsset(TransactFailure::AccountIdConversionFailed)),
            Some(t) => match s {
                DerivativeStatus::DepositableIn(class) => Ok(BackedDeposit::Create { class, to: t }),
                DerivativeStatus::Exists(instance) => match stash {
                    None => Err(XcmError::FailedToTransactAsset(TransactFailure::AccountIdConversionFailed)),
                    Some(f) => Ok(BackedDeposit::Transfer { instance, from: f, to: t }),
                },
            },
        },
    }
}

/// Withdrawing from a backed derivative: after the match and the conversion
/// of the holder, only an existing derivative can be withdrawn, by a
/// transfer to the stash (whose conversion can fail too).
pub open spec fn spec_backed_withdraw_plan<ClassId, InstanceId, AccountId>(
    status: Result<DerivativeStatus<ClassId, InstanceId>, MatchError>,
    from: Option<AccountId>,
    stash: Option<AccountId>,
) -> Result<(InstanceId, AccountId, AccountId), XcmError> {
    match status {
        Err(e) => Err(spec_xcm_error_from(e)),
        Ok(s) => match from {
            None => Err(conversion_failed()),
            Some(f) => match s {
                DerivativeStatus::Exists(instance) => match stash {
                    None => Err(conversion_failed()),
                    Some(t) => Ok((instance, f, t)),
                },
                DerivativeStatus::DepositableIn(_) => Err(XcmError::NotWithdrawable),
            },
        },
    }
}

/// Plans a withdrawal from a backed derivative; see
/// `spec_backed_withdraw_plan`.
pub fn backed_withdraw_plan<ClassId, InstanceId, AccountId>(
    status: Result<DerivativeStatus<ClassId, InstanceId>, MatchError>,
    from: Option<AccountId>,
    stash: Option<AccountId>,
) -> (r: Result<(InstanceId, AccountId, AccountId), XcmError>)
    ensures
        r == spec_backed_withdraw_plan(status, from, stash),
{
    match status {
        Err(e) => Err(xcm_error_from(e)),
        Ok(s) => match from {
            None => Err(XcmError::FailedToTransactAsset(TransactFailure::AccountIdConversionFailed)),
            Some(f) => match s {
                DerivativeStatus::Exists(instance) => match stash {
                    None => Err(XcmError::FailedToTransactAsset(TransactFailure::AccountIdConversionFailed)),
                    Some(t) => Ok((instance, f, t)),
                },
                DerivativeStatus::DepositableIn(_) => Err(XcmError::NotWithdrawable),
            },
        },
    }
}

/// Moving a backed derivative between accounts: after the match and both
/// conversions, only an existing derivative can be moved.
pub open spec fn spec_backed_internal_plan<ClassId, InstanceId, AccountId>(
    status: Result<DerivativeStatus<ClassId, InstanceId>, MatchError>,
    from: Option<AccountId>,
    to: Option<AccountId>,
) -> Result<(InstanceId, AccountId, AccountId), XcmError> {
    match spec_transfer_plan(status, from, to) {
        Err(e) => Err(e),
        Ok((s, f, t)) => match s {
            DerivativeStatus::Exists(instance) => Ok((instance, f, t)),
            DerivativeStatus::DepositableIn(_) => Err(XcmError::NotWithdrawable),
        },
    }
}

/// Plans moving a backed derivative; see `spec_backed_internal_plan`.
pub fn backed_internal_plan<ClassId, InstanceId, AccountId>(
    status: Result<DerivativeStatus<ClassId, InstanceId>, MatchError>,
    from: Option<AccountId>,
    to: Option<AccountId>,
) -> (r: Result<(InstanceId, AccountId, AccountId), XcmError>)
    ensures
        r == spec_backed_internal_plan(status, from, to),
{
    match transfer_plan(status, from, to) {
        Err(e) => Err(e),
        Ok((s, f, t)) => match s {
            DerivativeStatus::Exists(instance) => Ok((instance, f, t)),
            DerivativeStatus::DepositableIn(_) => Err(XcmError::NotWithdrawable),
        },
    }
}

/// What transferring the instance that `what` matches from the account at
/// `from` to the account at `to` returns, given what the matcher, the
/// converter and the transfer returned on the calls made: a failed match is
/// that match's error; a failed conversion of `from`, then of `to`, is a
/// conversion failure; otherwise the planned instance is transferred from
/// the account of `from` to the account of `to`, and the result is that
/// transfer's outcome.
pub open spec fn transfer_instance_result<
    AccountId,
    C: ConvertLocation<AccountId>,
    M: MatchesInstance<T::Id>,
    T: Transfer<FromTo<AccountId>>,
>(what: &Asset, from: &Location, to: &Location, r: Result<(), XcmError>) -> bool {
    exists|m: Result<T::Id, MatchError>| #[trigger] call_ensures(M::matches_instance, (what,), m) && match m {
        Err(e) => r == Err::<(), XcmError>(spec_xcm_error_from(e)),
        Ok(id) => exists|fa: Option<AccountId>| #[trigger] call_ensures(C::convert_location, (from,), fa) && match fa {
            None => r == Err::<(), XcmError>(conversion_failed()),
            Some(f) => exists|ta: Option<AccountId>| #[trigger] call_ensures(C::convert_location, (to,), ta) && match ta {
                None => r == Err::<(), XcmError>(conversion_failed()),
                Some(t) => exists|res: Result<(), DispatchError>| #[trigger] call_ensures(
                    T::transfer,
                    (&id, FromTo(f, t)),
                    res,
                ) && r == spec_transact_outcome(res),
            },
        },
    }
}

/// The result of an operation on the whole asset, as the unit result of the
/// transfer it made.
pub open spec fn unit_result(r: Result<Asset, XcmError>) -> Result<(), XcmError> {
    match r {
        Ok(_) => Ok(()),
        Err(e) => Err(e),
    }
}

/// What creating the instance that `what` matches for the account at `who`
/// returns, given what the matcher, the converter and the creation returned
/// on the calls made: a failed match or conversion is its error; otherwise
/// the matched instance is created with that identifier, owned by that
/// account, and the result is the creation's outcome.
pub open spec fn recreate_deposit_result<
    AccountId,
    C: ConvertLocation<AccountId>,
    M: MatchesInstance<Ops::Id>,
    Ops: AssetDefinition + Create<Owned<AccountId, PredefinedId<Ops::Id>>>,
>(what: &Asset, who: &Location, r: Result<(), XcmError>) -> bool {
    exists|m: Result<Ops::Id, MatchError>| #[trigger] call_ensures(M::matches_instance, (what,), m) && match m {
        Err(e) => r == Err::<(), XcmError>(spec_xcm_error_from(e)),
        Ok(id) => exists|w: Option<AccountId>| #[trigger] call_ensures(C::convert_location, (who,), w) && match w {
            None => r == Err::<(), XcmError>(conversion_failed()),
            Some(owner) => exists|res: Result<Ops::Id, DispatchError>| #[trigger] call_ensures(
                <Ops as Create<Owned<AccountId, PredefinedId<Ops::Id>>>>::create,
                (Owned { owner, id_assignment: DeriveAndReportId { params: id, _phantom: PhantomData }, config: (), witness: () },),
                res,
            ) && r == spec_transact_outcome(res),
        },
    }
}

/// What destroying the instance that `what` matches, if the account at
/// `who` owns it, returns, given what the matcher, the converter and the
/// destruction returned on the calls made.
pub open spec fn recreate_withdraw_result<
    AccountId,
    C: ConvertLocation<AccountId>,
    M: MatchesInstance<Ops::Id>,
    Ops: AssetDefinition + Destroy<IfOwnedBy<AccountId>>,
>(what: &Asset, who: &Location, r: Result<(), XcmError>) -> bool {
    exists|m: Result<Ops::Id, MatchError>| #[trigger] call_ensures(M::matches_instance, (what,), m) && match m {
        Err(e) => r == Err::<(), XcmError>(spec_xcm_error_from(e)),
        Ok(id) => exists|w: Option<AccountId>| #[trigger] call_ensures(C::convert_location, (who,), w) && match w {
            None => r == Err::<(), XcmError>(conversion_failed()),
            Some(owner) => exists|res: Result<(), DispatchError>| #[trigger] call_ensures(
                <Ops as Destroy<IfOwnedBy<AccountId>>>::destroy,
                (&id, IfOwnedBy(owner)),
                res,
            ) && r == spec_transact_outcome(res),
        },
    }
}

/// What depositing `what` into the account at `who` through a backed
/// derivative returns, given what the matcher, the converter, the stash and
/// the operations returned on the calls made: a failed match or conversion
/// of `who` is its error; a derivative to be made is created in its class,
/// owned by that account; an existing derivative is transferred to it from
/// the stash's account (whose conversion can fail too). The result is that
/// operation's outcome.
pub open spec fn backed_deposit_result<
    AccountId,
    C: ConvertLocation<AccountId>,
    M: MatchesInstance<DerivativeStatus<Cl::Id, Ops::Id>>,
    Cl: AssetDefinition,
    Ops: AssetDefinition + Create<Owned<AccountId, DeriveAndReportId<Cl::Id, Ops::Id>>> + Transfer<FromTo<AccountId>>,
    S: Get<Location>,
>(what: &Asset, who: &Location, r: Result<(), XcmError>) -> bool {
    exists|m: Result<DerivativeStatus<Cl::Id, Ops::Id>, MatchError>| #[trigger] call_ensures(M::matches_instance, (what,), m) && match m {
        Err(e) => r == Err::<(), XcmError>(spec_xcm_error_from(e)),
        Ok(st) => exists|w: Option<AccountId>| #[trigger] call_ensures(C::convert_location, (who,), w) && match w {
            None => r == Err::<(), XcmError>(conversion_failed()),
            Some(t) => match st {
                DerivativeStatus::DepositableIn(class) => exists|res: Result<Ops::Id, DispatchError>| #[trigger] call_ensures(
                    <Ops as Create<Owned<AccountId, DeriveAndReportId<Cl::Id, Ops::Id>>>>::create,
                    (Owned { owner: t, id_assignment: DeriveAndReportId { params: class, _phantom: PhantomData }, config: (), witness: () },),
                    res,
                ) && r == spec_transact_outcome(res),
                DerivativeStatus::Exists(instance) => exists|stash: Location| #[trigger] call_ensures(S::get, (), stash)
                    && exists|sa: Option<AccountId>| #[trigger] call_ensures(C::convert_location, (&stash,), sa) && match sa {
                    None => r == Err::<(), XcmError>(conversion_failed()),
                    Some(f) => exists|res: Result<(), DispatchError>| #[trigger] call_ensures(
                        <Ops as Transfer<FromTo<AccountId>>>::transfer,
                        (&instance, FromTo(f, t)),
                        res,
                    ) && r == spec_transact_outcome(res),
                },
            },
        },
    }
}

/// What withdrawing `what` from the account at `who` through a backed
/// derivative returns, given the results of the calls made: after the match
/// and the conversion of `who`, only an existing derivative is withdrawn, by
/// a transfer to the stash's account; the result is that transfer's outcome.
pub open spec fn backed_withdraw_result<
    AccountId,
    C: ConvertLocation<AccountId>,
    M: MatchesInstance<DerivativeStatus<Cl::Id, Ops::Id>>,
    Cl: AssetDefinition,
    Ops: AssetDefinition + Create<Owned<AccountId, DeriveAndReportId<Cl::Id, Ops::Id>>> + Transfer<FromTo<AccountId>>,
    S: Get<Location>,
>(what: &Asset, who: &Location, r: Result<(), XcmError>) -> bool {
    exists|m: Result<DerivativeStatus<Cl::Id, Ops::Id>, MatchError>| #[trigger] call_ensures(M::matches_instance, (what,), m) && match m {
        Err(e) => r == Err::<(), XcmError>(spec_xcm_error_from(e)),
        Ok(st) => exists|w: Option<AccountId>| #[trigger] call_ensures(C::convert_location, (who,), w) && match w {
            None => r == Err::<(), XcmError>(conversion_failed()),
            Some(f) => match st {
                DerivativeStatus::DepositableIn(_) => r == Err::<(), XcmError>(XcmError::NotWithdrawable),
                DerivativeStatus::Exists(instance) => exists|stash: Location| #[trigger] call_ensures(S::get, (), stash)
                    && exists|sa: Option<AccountId>| #[trigger] call_ensures(C::convert_location, (&stash,), sa) && match sa {
                    None => r == Err::<(), XcmError>(conversion_failed()),
                    Some(t) => exists|res: Result<(), DispatchError>| #[trigger] call_ensures(
                        <Ops as Transfer<FromTo<AccountId>>>::transfer,
                        (&instance, FromTo(f, t)),
                        res,
                    ) && r == spec_transact_outcome(res),
                },
            },
        },
    }
}

/// What moving `what` from the account at `from` to the account at `to`
/// through a backed derivative returns, given the results of the calls
/// made: after the match and both conversions, only an existing derivative
/// is transferred; the result is that transfer's outcome.
pub open spec fn backed_internal_result<
    AccountId,
    C: ConvertLocation<AccountId>,
    M: MatchesInstance<DerivativeStatus<Cl::Id, Ops::Id>>,
    Cl: AssetDefinition,
    Ops: AssetDefinition + Create<Owned<AccountId, DeriveAndReportId<Cl::Id, Ops::Id>>> + Transfer<FromTo<AccountId>>,
    S: Get<Location>,
>(
    what: &Asset,
    from: &Location,
    to: &Location,
    r: Result<(), XcmError>,
) -> bool {
    exists|m: Result<DerivativeStatus<Cl::Id, Ops::Id>, MatchError>| #[trigger] call_ensures(M::matches_instance, (what,), m) && match m {
        Err(e) => r == Err::<(), XcmError>(spec_xcm_error_from(e)),
        Ok(st) => exists|fa: Option<AccountId>| #[trigger] call_ensures(C::convert_location, (from,), fa) && match fa {
            None => r == Err::<(), XcmError>(conversion_failed()),
            Some(f) => exists|ta: Option<AccountId>| #[trigger] call_ensures(C::convert_location, (to,), ta) && match ta {
                None => r == Err::<(), XcmError>(conversion_failed()),
                Some(t) => match st {
                    DerivativeStatus::DepositableIn(_) => r == Err::<(), XcmError>(XcmError::NotWithdrawable),
                    DerivativeStatus::Exists(instance) => exists|res: Result<(), DispatchError>| #[trigger] call_ensures(
                        <Ops as Transfer<FromTo<AccountId>>>::transfer,
                        (&instance, FromTo(f, t)),
                        res,
                    ) && r == spec_transact_outcome(res),
                },
            },
        },
    }
}

/// Transfers the instance that `what` matches from the account at `from` to
/// the account at `to`. The matcher is asked first; the locations are
/// converted in order, each only after the steps before it succeeded.
pub fn transfer_instance<
    AccountId,
    AccountIdConverter: ConvertLocation<AccountId>,
    Matcher: MatchesInstance<InstanceTransfer::Id>,
    InstanceTransfer: Transfer<FromTo<AccountId>>,
>(what: &Asset, from: &Location, to: &Location) -> (r: Result<(), XcmError>)
    ensures
        r matches Err(e) ==> e != XcmError::NotWithdrawable,
        transfer_instance_result::<AccountId, AccountIdConverter, Matcher, InstanceTransfer>(what, from, to, r),
{
    let matched = Matcher::matches_instance(what);
    let from_account = if matched.is_ok() {
        AccountIdConverter::convert_location(from)
    } else {
        None
    };
    let to_account = if matched.is_ok() && from_account.is_some() {
        AccountIdConverter::convert_location(to)
    } else {
        None
    };
    let (instance_id, f, t) = match transfer_plan(matched, from_account, to_account) {
        Ok(p) => p,
        Err(e) => {
            return Err(e);
        },
    };
    transact_outcome(InstanceTransfer::transfer(&instance_id, FromTo(f, t)))
}

/// A transactor of instances that move to and from a stash account.
pub struct TransferableInstanceAdapter<
    AccountId,
    AccountIdConverter,
    Matcher,
    InstanceTransfer,
    StashLocation,
>(pub PhantomData<(AccountId, AccountIdConverter, Matcher, InstanceTransfer, StashLocation)>);

impl<
    AccountId,
    AccountIdConverter: ConvertLocation<AccountId>,
    Matcher: MatchesInstance<InstanceTransfer::Id>,
    InstanceTransfer: Transfer<FromTo<AccountId>>,
    StashLocation: Get<Location>,
> TransactAsset for TransferableInstanceAdapter<
    AccountId,
    AccountIdConverter,
    Matcher,
    InstanceTransfer,
    StashLocation,
> {
    /// Transfers the instance from the stash to `who`.
    fn deposit_asset(what: &Asset, who: &Location, _context: Option<&XcmContext>) -> (r: Result<(), XcmError>)
        ensures
            r matches Err(e) ==> e != XcmError::NotWithdrawable,
            exists|stash: Location| #[trigger] call_ensures(StashLocation::get, (), stash)
                && transfer_instance_result::<AccountId, AccountIdConverter, Matcher, InstanceTransfer>(what, &stash, who, r),
    {
        transfer_instance::<AccountId, AccountIdConverter, Matcher, InstanceTransfer>(
            what,
            &StashLocation::get(),
            who,
        )
    }

    /// Transfers the instance from `who` to the stash.
    fn withdraw_asset(what: &Asset, who: &Location, _maybe_context: Option<&XcmContext>) -> (r: Result<Asset, XcmError>)
        ensures
            r matches Ok(a) ==> a == *what,
            r matches Err(e) ==> e != XcmError::NotWithdrawable,
            exists|stash: Location| #[trigger] call_ensures(StashLocation::get, (), stash)
                && transfer_instance_result::<AccountId, AccountIdConverter, Matcher, InstanceTransfer>(what, who, &stash, unit_result(r)),
    {
        match transfer_instance::<AccountId, AccountIdConverter, Matcher, InstanceTransfer>(
            what,
            who,
            &StashLocation::get(),
        ) {
            Ok(()) => Ok(*what),
            Err(e) => Err(e),
        }
    }

    /// Transfers the instance from `from` to `to`.
    fn internal_transfer_asset(what: &Asset, from: &Location, to: &Location, _context: &XcmContext) -> (r: Result<Asset, XcmError>)
        ensures
            r matches Ok(a) ==> a == *what,
            r matches Err(e) ==> e != XcmError::NotWithdrawable,
            transfer_instance_result::<AccountId, AccountIdConverter, Matcher, InstanceTransfer>(what, from, to, unit_result(r)),
    {
        match transfer_instance::<AccountId, AccountIdConverter, Matcher, InstanceTransfer>(what, from, to) {
            Ok(()) => Ok(*what),
            Err(e) => Err(e),
        }
    }
}

/// A transactor of instances that are created when deposited and destroyed
/// when withdrawn.
pub struct RecreateableInstanceAdapter<AccountId, AccountIdConverter, Matcher, InstanceOps>(
    pub PhantomData<(AccountId, AccountIdConverter, Matcher, InstanceOps)>,
);

impl<
    AccountId,
    AccountIdConverter: ConvertLocation<AccountId>,
    Matcher: MatchesInstance<InstanceOps::Id>,
    InstanceOps: AssetDefinition + Create<Owned<AccountId, PredefinedId<InstanceOps::Id>>> + Transfer<FromTo<AccountId>> + Destroy<IfOwnedBy<AccountId>>,
> TransactAsset for RecreateableInstanceAdapter<AccountId, AccountIdConverter, Matcher, InstanceOps> {
    /// Creates the matched instance, owned by `who`.
    fn deposit_asset(what: &Asset, who: &Location, _context: Option<&XcmContext>) -> (r: Result<(), XcmError>)
        ensures
            r matches Err(e) ==> e != XcmError::NotWithdrawable,
            recreate_deposit_result::<AccountId, AccountIdConverter, Matcher, InstanceOps>(what, who, r),
    {
        let matched = Matcher::matches_instance(what);
        let who_account = if matched.is_ok() {
            AccountIdConverter::convert_location(who)
        } else {
            None
        };
        let (instance_id, owner) = match instance_account_plan(matched, who_account) {
            Ok(p) => p,
            Err(e) => {
                return Err(e);
            },
        };
        transact_outcome(InstanceOps::create(Owned::new(owner, DeriveAndReportId::from(instance_id))))
    }

    /// Destroys the matched instance if `who` owns it.
    fn withdraw_asset(what: &Asset, who: &Location, _maybe_context: Option<&XcmContext>) -> (r: Result<Asset, XcmError>)
        ensures
            r matches Ok(a) ==> a == *what,
            r matches Err(e) ==> e != XcmError::NotWithdrawable,
            recreate_withdraw_result::<AccountId, AccountIdConverter, Matcher, InstanceOps>(what, who, unit_result(r)),
    {
        let matched = Matcher::matches_instance(what);
        let who_account = if matched.is_ok() {
            AccountIdConverter::convert_location(who)
        } else {
            None
        };
        let (instance_id, owner) = match instance_account_plan(matched, who_account) {
            Ok(p) => p,
            Err(e) => {
                return Err(e);
            },
        };
        match transact_outcome(InstanceOps::destroy(&instance_id, IfOwnedBy(owner))) {
            Ok(()) => Ok(*what),
            Err(e) => Err(e),
        }
    }

    /// Transfers the matched instance from `from` to `to`.
    fn internal_transfer_asset(what: &Asset, from: &Location, to: &Location, _context: &XcmContext) -> (r: Result<Asset, XcmError>)
        ensures
            r matches Ok(a) ==> a == *what,
            r matches Err(e) ==> e != XcmError::NotWithdrawable,
            transfer_instance_result::<AccountId, AccountIdConverter, Matcher, InstanceOps>(what, from, to, unit_result(r)),
    {
        match transfer_instance::<AccountId, AccountIdConverter, Matcher, InstanceOps>(what, from, to) {
            Ok(()) => Ok(*what),
            Err(e) => Err(e),
        }
    }
}

/// A transactor of derivatives backed by a stash: a derivative is created
/// when first deposited, and moved to and from the stash afterwards.
pub struct BackedDerivativeInstanceAdapter<
    AccountId,
    AccountIdConverter,
    Matcher,
    ClassDef,
    InstanceOps,
    StashLocation,
>(pub PhantomData<(AccountId, AccountIdConverter, Matcher, ClassDef, InstanceOps, StashLocation)>);

impl<
    AccountId,
    AccountIdConverter: ConvertLocation<AccountId>,
    Matcher: MatchesInstance<DerivativeStatus<ClassDef::Id, InstanceOps::Id>>,
    ClassDef: AssetDefinition,
    InstanceOps: AssetDefinition + Create<Owned<AccountId, DeriveAndReportId<ClassDef::Id, InstanceOps::Id>>>
        + Transfer<FromTo<AccountId>>,
    StashLocation: Get<Location>,
> TransactAsset for BackedDerivativeInstanceAdapter<
    AccountId,
    AccountIdConverter,
    Matcher,
    ClassDef,
    InstanceOps,
    StashLocation,
> {
    /// Creates the derivative for `who`, or moves the existing one from the
    /// stash to them.
    fn deposit_asset(what: &Asset, who: &Location, _context: Option<&XcmContext>) -> (r: Result<(), XcmError>)
        ensures
            r matches Err(e) ==> e != XcmError::NotWithdrawable,
            backed_deposit_result::<AccountId, AccountIdConverter, Matcher, ClassDef, InstanceOps, StashLocation>(what, who, r),
    {
        let status = Matcher::matches_instance(what);
        let to = if status.is_ok() {
            AccountIdConverter::convert_location(who)
        } else {
            None
        };
        let stash = if matches!(status, Ok(DerivativeStatus::Exists(_))) && to.is_some() {
            AccountIdConverter::convert_location(&StashLocation::get())
        } else {
            None
        };
        match backed_deposit_plan(status, to, stash) {
            Err(e) => Err(e),
            Ok(BackedDeposit::Create { class, to }) => transact_outcome(
                InstanceOps::create(Owned::new(to, DeriveAndReportId::from(class))),
            ),
            Ok(BackedDeposit::Transfer { instance, from, to }) => transact_outcome(
                InstanceOps::transfer(&instance, FromTo(from, to)),
            ),
        }
    }

    /// Moves the existing derivative from `who` to the stash.
    fn withdraw_asset(what: &Asset, who: &Location, _maybe_context: Option<&XcmContext>) -> (r: Result<Asset, XcmError>)
        ensures
            r matches Ok(a) ==> a == *what,
            backed_withdraw_result::<AccountId, AccountIdConverter, Matcher, ClassDef, InstanceOps, StashLocation>(what, who, unit_result(r)),
    {
        let status = Matcher::matches_instance(what);
        let from = if status.is_ok() {
            AccountIdConverter::convert_location(who)
        } else {
            None
        };
        let stash = if matches!(status, Ok(DerivativeStatus::Exists(_))) && from.is_some() {
            AccountIdConverter::convert_location(&StashLocation::get())
        } else {
            None
        };
        let (instance, f, t) = match backed_withdraw_plan(status, from, stash) {
            Ok(p) => p,
            Err(e) => {
                return Err(e);
            },
        };
        match transact_outcome(InstanceOps::transfer(&instance, FromTo(f, t))) {
            Ok(()) => Ok(*what),
            Err(e) => Err(e),
        }
    }

    /// Moves the existing derivative from `from` to `to`.
    fn internal_transfer_asset(what: &Asset, from: &Location, to: &Location, _context: &XcmContext) -> (r: Result<Asset, XcmError>)
        ensures
            r matches Ok(a) ==> a == *what,
            backed_internal_result::<AccountId, AccountIdConverter, Matcher, ClassDef, InstanceOps, StashLocation>(what, from, to, unit_result(r)),
    {
        let status = Matcher::matches_instance(what);
        let from_account = if status.is_ok() {
            AccountIdConverter::convert_location(from)
        } else {
            None
        };
        let to_account = if status.is_ok() && from_account.is_some() {
            AccountIdConverter::convert_location(to)
        } else {
            None
        };
        let (instance, f, t) = match backed_internal_plan(status, from_account, to_account) {
            Ok(p) => p,
            Err(e) => {
                return Err(e);
            },
        };
        match transact_outcome(InstanceOps::transfer(&instance, FromTo(f, t))) {
            Ok(()) => Ok(*what),
            Err(e) => Err(e),
        }
    }
}

/// The matcher answers `what` with `m` on every call.
pub open spec fn matcher_answers<Id, M: MatchesInstance<Id>>(what: &Asset, m: Result<Id, MatchError>) -> bool {
    forall|x: Result<Id, MatchError>| #[trigger] call_ensures(M::matches_instance, (what,), x) ==> x == m
}

/// The converter answers `loc` with `a` on every call.
pub open spec fn converter_answers<AccountId, C: ConvertLocation<AccountId>>(loc: &Location, a: Option<AccountId>) -> bool {
    forall|x: Option<AccountId>| #[trigger] call_ensures(C::convert_location, (loc,), x) ==> x == a
}

/// Withdrawing an instance from an account into the stash and depositing
/// it back are transfers of the same instance between the same two
/// accounts, in opposite directions: when the matcher and the converter
/// answer the asset and the two locations the same way on every call, the
/// withdrawal's result is the outcome of a transfer from the account to the
/// stash's account, and the deposit's the outcome of a transfer back.
pub proof fn deposit_reverses_withdraw<
    AccountId,
    C: ConvertLocation<AccountId>,
    M: MatchesInstance<T::Id>,
    T: Transfer<FromTo<AccountId>>,
>(
    what: &Asset,
    who: &Location,
    stash: &Location,
    id: T::Id,
    w: AccountId,
    sa: AccountId,
    withdrawn: Result<(), XcmError>,
    deposited: Result<(), XcmError>,
)
    requires
        matcher_answers::<T::Id, M>(what, Ok(id)),
        converter_answers::<AccountId, C>(who, Some(w)),
        converter_answers::<AccountId, C>(stash, Some(sa)),
        transfer_instance_result::<AccountId, C, M, T>(what, who, stash, withdrawn),
        transfer_instance_result::<AccountId, C, M, T>(what, stash, who, deposited),
    ensures
        exists|res: Result<(), DispatchError>| #[trigger] call_ensures(T::transfer, (&id, FromTo(w, sa)), res)
            && withdrawn == spec_transact_outcome(res),
        exists|res: Result<(), DispatchError>| #[trigger] call_ensures(T::transfer, (&id, FromTo(sa, w)), res)
            && deposited == spec_transact_outcome(res),
{
}

/// Plans of the transactors: an instance is moved from the first converted
/// account to the second, never the reverse; any failed match is reported
/// as that match's error before a conversion is looked at; a backed
/// derivative that does not exist yet can be created by a deposit, and can
/// neither be withdrawn nor moved.
pub proof fn transactor_plans_law<Id, ClassId, InstanceId, AccountId>(
    id: Id,
    class: ClassId,
    instance: InstanceId,
    f: AccountId,
    t: AccountId,
    e: MatchError,
    a: Option<AccountId>,
    b: Option<AccountId>,
)
    ensures
        spec_transfer_plan(Ok::<Id, MatchError>(id), Some(f), Some(t)) == Ok::<(Id, AccountId, AccountId), XcmError>((id, f, t)),
        spec_transfer_plan(Err::<Id, MatchError>(e), a, b) == Err::<(Id, AccountId, AccountId), XcmError>(spec_xcm_error_from(e)),
        (a is None || b is None) ==> spec_transfer_plan(Ok::<Id, MatchError>(id), a, b) == Err::<(Id, AccountId, AccountId), XcmError>(conversion_failed()),
        spec_instance_account_plan(Ok::<Id, MatchError>(id), Some(f)) == Ok::<(Id, AccountId), XcmError>((id, f)),
        spec_backed_deposit_plan(Ok::<DerivativeStatus<ClassId, InstanceId>, MatchError>(DerivativeStatus::DepositableIn(class)), Some(t), a)
            == Ok::<BackedDeposit<ClassId, InstanceId, AccountId>, XcmError>(BackedDeposit::Create { class, to: t }),
        spec_backed_deposit_plan(Ok::<DerivativeStatus<ClassId, InstanceId>, MatchError>(DerivativeStatus::Exists(instance)), Some(t), Some(f))
            == Ok::<BackedDeposit<ClassId, InstanceId, AccountId>, XcmError>(BackedDeposit::Transfer { instance, from: f, to: t }),
        spec_backed_withdraw_plan(Ok::<DerivativeStatus<ClassId, InstanceId>, MatchError>(DerivativeStatus::Exists(instance)), Some(f), Some(t))
            == Ok::<(InstanceId, AccountId, AccountId), XcmError>((instance, f, t)),
        spec_backed_withdraw_plan(Ok::<DerivativeStatus<ClassId, InstanceId>, MatchError>(DerivativeStatus::DepositableIn(class)), Some(f), a)
            == Err::<(InstanceId, AccountId, AccountId), XcmError>(XcmError::NotWithdrawable),
        spec_backed_internal_plan(Ok::<DerivativeStatus<ClassId, InstanceId>, MatchError>(DerivativeStatus::Exists(instance)), Some(f), Some(t))
            == Ok::<(InstanceId, AccountId, AccountId), XcmError>((instance, f, t)),
        spec_backed_internal_plan(Ok::<DerivativeStatus<ClassId, InstanceId>, MatchError>(DerivativeStatus::DepositableIn(class)), Some(f), Some(t))
            == Err::<(InstanceId, AccountId, AccountId), XcmError>(XcmError::NotWithdrawable),
{
}

} // verus!
