//! Verified models of asset-operation interfaces, an NFT-pallet's
//! operation glue, a preimage store and derivative-asset registries.

pub mod dispatch;
pub mod table;
pub mod hashing;
pub mod preimage;
pub mod traits;
pub mod derivatives;
pub mod xcm_types;
pub mod xnft;
pub mod unique_instances;
pub mod nfts;
pub mod insert_key;
pub mod construct;
pub mod call_expansion;
