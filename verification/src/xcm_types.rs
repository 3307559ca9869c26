//! The cross-consensus asset values that asset transactors and matchers
//! read: assets, their identifiers and instances, locations, and the
//! errors of matching and transacting.

use vstd::prelude::*;

use crate::dispatch::DispatchError;
use crate::table::TableKey;

verus! {

/// Identifies an asset class across consensus systems.
pub type AssetId = u128;

/// A location in the consensus universe: how many levels up, then the
/// junctions down, as encoded bytes.
#[derive(Debug, Clone, PartialEq, Eq)]
pub struct Location {
    /// The number of parent levels.
    pub parents: u8,
    /// The encoded junctions below.
    pub interior: Vec<u8>,
}

/// Identifies an instance of a non-fungible asset class.
#[derive(Debug, Clone, Copy, PartialEq, Eq)]
pub enum AssetInstance {
    /// Undefined: used if the asset class has only one instance.
    Undefined,
    /// A compact index.
    Index(u128),
    /// A 4-byte fixed-length datum.
    Array4([u8; 4]),
    /// An 8-byte fixed-length datum.
    Array8([u8; 8]),
    /// A 16-byte fixed-length datum.
    Array16([u8; 16]),
    /// A 32-byte fixed-length datum.
    Array32([u8; 32]),
}

/// Whether an asset is fungible (with an amount) or not (with an instance).
#[derive(Debug, Clone, Copy, PartialEq, Eq)]
pub enum Fungibility {
    /// A fungible asset; the amount.
    Fungible(u128),
    /// A non-fungible asset; the instance.
    NonFungible(AssetInstance),
}

/// An asset: its class and its fungibility.
#[derive(Debug, Clone, Copy, PartialEq, Eq)]
pub struct Asset {
    /// The asset class.
    pub id: AssetId,
    /// The amount or the instance.
    pub fun: Fungibility,
}

/// A non-fungible asset: its class and its instance.
#[derive(Debug, Clone, Copy, PartialEq, Eq)]
pub struct NonFungibleAsset {
    /// The asset class.
    pub id: AssetId,
    /// The instance.
    pub instance: AssetInstance,
}

/// Errors of matching an asset or a location.
#[derive(Debug, Clone, Copy, PartialEq, Eq, Structural)]
pub enum MatchError {
    /// The asset is not handled.
    AssetNotHandled,
    /// An account identifier could not be made from a location.
    AccountIdConversionFailed,
    /// An amount could not be made into a balance.
    AmountToBalanceConversionFailed,
    /// An asset identifier could not be converted.
    AssetIdConversionFailed,
    /// An instance could not be converted.
    InstanceConversionFailed,
}

/// Why transacting an asset failed.
#[derive(Debug, Clone, Copy, PartialEq, Eq, Structural)]
pub enum TransactFailure {
    /// An account identifier could not be made from a location.
    AccountIdConversionFailed,
    /// An amount could not be made into a balance.
    AmountToBalanceConversionFailed,
    /// An asset identifier could not be converted.
    AssetIdConversionFailed,
    /// An instance could not be converted.
    InstanceConversionFailed,
    /// The asset operation failed with this error.
    Dispatch(DispatchError),
}

/// Errors of executing cross-consensus asset operations.
#[derive(Debug, Clone, Copy, PartialEq, Eq, Structural)]
pub enum XcmError {
    /// The asset is not found (not handled here).
    AssetNotFound,
    /// The asset cannot be withdrawn.
    NotWithdrawable,
    /// Transacting the asset failed.
    FailedToTransactAsset(TransactFailure),
}

/// The cross-consensus error that a matching error stands for.
pub open spec fn spec_xcm_error_from(e: MatchError) -> XcmError {
    match e {
        MatchError::AssetNotHandled => XcmError::AssetNotFound,
        MatchError::AccountIdConversionFailed => XcmError::FailedToTransactAsset(
            TransactFailure::AccountIdConversionFailed,
        ),
        MatchError::AmountToBalanceConversionFailed => XcmError::FailedToTransactAsset(
            TransactFailure::AmountToBalanceConversionFailed,
        ),
        MatchError::AssetIdConversionFailed => XcmError::FailedToTransactAsset(
            TransactFailure::AssetIdConversionFailed,
        ),
        MatchError::InstanceConversionFailed => XcmError::FailedToTransactAsset(
            TransactFailure::InstanceConversionFailed,
        ),
    }
}

/// The cross-consensus error that a matching error stands for.
pub fn xcm_error_from(e: MatchError) -> (r: XcmError)
    ensures
        r == spec_xcm_error_from(e),
{
    match e {
        MatchError::AssetNotHandled => XcmError::AssetNotFound,
        MatchError::AccountIdConversionFailed => XcmError::FailedToTransactAsset(
            TransactFailure::AccountIdConversionFailed,
        ),
        MatchError::AmountToBalanceConversionFailed => XcmError::FailedToTransactAsset(
            TransactFailure::AmountToBalanceConversionFailed,
        ),
        MatchError::AssetIdConversionFailed => XcmError::FailedToTransactAsset(
            TransactFailure::AssetIdConversionFailed,
        ),
        MatchError::InstanceConversionFailed => XcmError::FailedToTransactAsset(
            TransactFailure::InstanceConversionFailed,
        ),
    }
}

/// Whether two byte arrays are equal.
pub fn bytes_eq<const N: usize>(a: &[u8; N], b: &[u8; N]) -> (r: bool)
    ensures
        r == (*a == *b),
{
    broadcast use vstd::array::group_array_axioms;

    let mut i: usize = 0;
    while i < N
        invariant
            0 <= i <= N,
            forall|j: int| 0 <= j < i ==> a[j] == b[j],
        decreases N - i,
    {
        if a[i] != b[i] {
            return false;
        }
        i = i + 1;
    }
    assert(*a =~= *b);
    true
}

impl TableKey for AssetInstance {
    fn key_eq(&self, other: &Self) -> (r: bool) {
        match (self, other) {
            (AssetInstance::Undefined, AssetInstance::Undefined) => true,
            (AssetInstance::Index(a), AssetInstance::Index(b)) => *a == *b,
            (AssetInstance::Array4(a), AssetInstance::Array4(b)) => bytes_eq(a, b),
            (AssetInstance::Array8(a), AssetInstance::Array8(b)) => bytes_eq(a, b),
            (AssetInstance::Array16(a), AssetInstance::Array16(b)) => bytes_eq(a, b),
            (AssetInstance::Array32(a), AssetInstance::Array32(b)) => bytes_eq(a, b),
            _ => false,
        }
    }
}

impl TableKey for NonFungibleAsset {
    fn key_eq(&self, other: &Self) -> (r: bool) {
        self.id == other.id && self.instance.key_eq(&other.instance)
    }
}

} // verus!
