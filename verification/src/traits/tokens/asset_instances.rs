//! Interfaces of NFT-like assets: classes and the instances in them.

use vstd::prelude::*;

use crate::dispatch::{DispatchError, DispatchResult};

verus! {

/// Provides the types that identify classes and instances.
pub trait Identification {
    /// Type for identifying a class (an independent collection of items).
    type ClassId;

    /// Type for identifying an instance.
    type InstanceId;
}

/// The ability to tell the owners of classes and instances.
pub trait Ownership<AccountId>: Identification {
    /// The owner of the class.
    fn class_owner(class: &Self::ClassId) -> Result<AccountId, DispatchError>;

    /// The owner of the instance of the class.
    fn instance_owner(class: &Self::ClassId, instance: &Self::InstanceId) -> Result<
        AccountId,
        DispatchError,
    >;
}

/// The ability to mint an instance into an account, the instance's
/// identifier assigned by the minting.
pub trait MintInstanceInto<InstanceData, AccountId>: Identification {
    /// Mints an instance of `class` with `data` into `into`.
    fn mint_instance_into(class: &Self::ClassId, data: &InstanceData, into: &AccountId) -> Result<
        Self::InstanceId,
        DispatchError,
    >;
}

/// The ability to mint an instance with a given identifier.
pub trait MintInstanceWithIdInto<InstanceData>: Identification {
    /// Mints the instance `instance` of `class` with `data`.
    fn mint_instance_with_id_into(
        class: &Self::ClassId,
        instance: &Self::InstanceId,
        data: &InstanceData,
    ) -> DispatchResult;
}

/// The ability to transfer an instance from one account to another.
pub trait TransferInstanceFromTo<AccountId>: Identification {
    /// Transfers the instance from `from` to `to`.
    fn transfer_instance_from_to(
        class: &Self::ClassId,
        instance: &Self::InstanceId,
        from: &AccountId,
        to: &AccountId,
    ) -> DispatchResult;
}

/// The ability to transfer an instance to an account.
pub trait TransferInstanceTo<AccountId>: Identification {
    /// Transfers the instance to `to`.
    fn transfer_instance_to(
        class: &Self::ClassId,
        instance: &Self::InstanceId,
        to: &AccountId,
    ) -> DispatchResult;
}

/// The ability to burn an instance owned by an account.
pub trait BurnInstanceFrom<AccountId>: Identification {
    /// Burns the instance, owned by `from`.
    fn burn_instance_from(
        class: &Self::ClassId,
        instance: &Self::InstanceId,
        from: &AccountId,
    ) -> DispatchResult;
}

/// The ability to burn an instance.
pub trait BurnInstance<AccountId>: Identification {
    /// Burns the instance.
    fn burn_instance(class: &Self::ClassId, instance: &Self::InstanceId) -> DispatchResult;
}

} // verus!
