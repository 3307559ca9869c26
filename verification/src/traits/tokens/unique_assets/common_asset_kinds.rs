//! The common kinds of assets.

use vstd::prelude::*;

verus! {

/// A class (collection) of assets.
pub struct Class;

/// An instance of an asset class.
pub struct Instance;

} // verus!
