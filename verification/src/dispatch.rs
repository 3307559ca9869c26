//! Errors returned by dispatchable operations.

use vstd::prelude::*;

verus! {

/// Errors of the preimage store.
#[derive(Debug, Clone, Copy, PartialEq, Eq, Structural)]
pub enum PreimageError {
    /// Preimage is too large to store on-chain.
    TooBig,
    /// Preimage has already been noted on-chain.
    AlreadyNoted,
    /// The user is not authorized to perform this action.
    NotAuthorized,
    /// The preimage cannot be removed since it has not yet been noted.
    NotNoted,
    /// A preimage may not be removed when there are outstanding requests.
    Requested,
    /// The preimage request cannot be removed since no outstanding requests exist.
    NotRequested,
    /// More than the bulk limit of hashes were requested to be upgraded at once.
    TooMany,
    /// Too few hashes were requested to be upgraded (i.e. zero).
    TooFew,
}

/// Errors of the derivatives registry.
#[derive(Debug, Clone, Copy, PartialEq, Eq, Structural)]
pub enum DerivativesError {
    /// A derivative already exists.
    DerivativeAlreadyExists,
    /// Failed to deregister a non-registered derivative.
    NoDerivativeToDeregister,
    /// Failed to find a derivative.
    DerivativeNotFound,
    /// The provided asset metadata is invalid.
    InvalidMetadata,
    /// The provided original asset is invalid.
    InvalidOriginal,
}

/// Errors of the foreign-NFT registry.
#[derive(Debug, Clone, Copy, PartialEq, Eq, Structural)]
pub enum XnftError {
    /// The origin has no permission to do the operation.
    NoPermission,
    /// Can't perform an operation due to the invalid state of storage.
    InvalidState,
}

/// Errors of the NFT pallet that its asset operations return.
#[derive(Debug, Clone, Copy, PartialEq, Eq, Structural)]
pub enum NftsError {
    /// The given collection does not exist.
    UnknownCollection,
    /// The given item does not exist.
    UnknownItem,
    /// The signing account has no permission to do the operation.
    NoPermission,
    /// The approval had a deadline that expired.
    ApprovalExpired,
    /// The item is locked (non-transferable).
    ItemLocked,
    /// The provided setting can't be set.
    WrongSetting,
    /// The provided data is incorrect.
    IncorrectData,
    /// The metadata was not found.
    MetadataNotFound,
    /// The attribute was not found.
    AttributeNotFound,
}

/// The error of a module (pallet), tagged by the module it comes from.
#[derive(Debug, Clone, Copy, PartialEq, Eq, Structural)]
pub enum ModuleError {
    /// An error of the preimage store.
    Preimage(PreimageError),
    /// An error of the derivatives registry.
    Derivatives(DerivativesError),
    /// An error of the foreign-NFT registry.
    Xnft(XnftError),
    /// An error of the NFT pallet.
    Nfts(NftsError),
}

/// Reason why a dispatch call failed.
#[derive(Debug, Clone, Copy, PartialEq, Eq, Structural)]
pub enum DispatchError {
    /// Some error occurred.
    Other,
    /// Failed to lookup some data.
    CannotLookup,
    /// A bad origin.
    BadOrigin,
    /// A custom error in a module.
    Module(ModuleError),
    /// Resources exhausted, e.g. attempt to read/write data which is too large to manipulate.
    Exhausted,
    /// The state is corrupt; this is generally not going to fix itself.
    Corruption,
    /// Some resource (e.g. a preimage) is unavailable right now.
    Unavailable,
}

/// The result of a dispatchable operation that returns nothing on success.
pub type DispatchResult = Result<(), DispatchError>;

} // verus!
