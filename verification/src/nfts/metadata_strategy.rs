//! Strategies of accessing the metadata of NFT collections and items.

use core::marker::PhantomData;
use vstd::prelude::*;

verus! {

/// Metadata of a collection, accessed with `Strategy`.
pub struct Collection<Strategy>(pub PhantomData<Strategy>);

/// Metadata of an item, accessed with `Strategy`.
pub struct Item<Strategy>(pub PhantomData<Strategy>);

/// The generic metadata blob.
pub struct GenericMetadata;

/// Attributes that the collection owner sets.
pub struct RegularAttributes;

/// Attributes that the pallet itself sets.
pub struct SystemAttributes;

/// Attributes that accounts set.
pub struct CustomAttributes;

} // verus!
