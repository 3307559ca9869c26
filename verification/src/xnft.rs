//! A registry of foreign non-fungible assets and their local derivatives,
//! and the matching of incoming foreign assets to the source of a new
//! derivative's identifier.

use vstd::prelude::*;

use crate::dispatch::{DispatchError, ModuleError, XnftError};
use crate::table::{Table, TableKey};
use crate::xcm_types::{Asset, AssetId, AssetInstance, Fungibility, MatchError, NonFungibleAsset};

verus! {

/// What registering a derivative of a foreign asset needs: the foreign
/// asset and the source of the derivative's identifier.
#[derive(Debug, Clone, Copy, PartialEq, Eq)]
pub struct RegisterDerivativeId<DerivativeIdSource> {
    /// The foreign non-fungible asset.
    pub foreign_asset: NonFungibleAsset,
    /// The source of the derivative's identifier.
    pub instance_id_source: DerivativeIdSource,
}

/// The contents of the registry.
#[verifier::ext_equal]
#[verifier::reject_recursive_types(DerivativeId)]
#[verifier::reject_recursive_types(DerivativeIdSource)]
pub struct XnftView<DerivativeId, DerivativeIdSource> {
    /// The source of derivative identifiers of each foreign asset class.
    pub foreign_asset_to_derivative_id_source: Map<AssetId, DerivativeIdSource>,
    /// The foreign asset class of each derivative identifier source.
    pub derivative_id_source_to_foreign_asset: Map<DerivativeIdSource, AssetId>,
    /// The derivative of each registered foreign asset.
    pub foreign_nft_to_derivative_id: Map<NonFungibleAsset, DerivativeId>,
    /// The foreign asset of each registered derivative.
    pub derivative_id_to_foreign_nft: Map<DerivativeId, NonFungibleAsset>,
}

impl<DerivativeId, DerivativeIdSource> XnftView<DerivativeId, DerivativeIdSource> {
    /// The foreign assets and their derivatives correspond one to one.
    pub open spec fn inv(self) -> bool {
        &&& forall|a: NonFungibleAsset| #[trigger]
            self.foreign_nft_to_derivative_id.contains_key(a) ==> self.derivative_id_to_foreign_nft.contains_key(
                self.foreign_nft_to_derivative_id[a],
            ) && self.derivative_id_to_foreign_nft[self.foreign_nft_to_derivative_id[a]] == a
        &&& forall|d: DerivativeId| #[trigger]
            self.derivative_id_to_foreign_nft.contains_key(d) ==> self.foreign_nft_to_derivative_id.contains_key(
                self.derivative_id_to_foreign_nft[d],
            ) && self.foreign_nft_to_derivative_id[self.derivative_id_to_foreign_nft[d]] == d
    }
}

/// The module error of this registry.
pub open spec fn xnft_error(e: XnftError) -> DispatchError {
    DispatchError::Module(ModuleError::Xnft(e))
}

/// Recording `source` as the source of derivative identifiers of the
/// foreign asset class `id`, from `pre` to `post`, in both directions.
pub open spec fn set_source_spec<DerivativeId, DerivativeIdSource>(
    pre: XnftView<DerivativeId, DerivativeIdSource>,
    id: AssetId,
    source: DerivativeIdSource,
    post: XnftView<DerivativeId, DerivativeIdSource>,
) -> bool {
    &&& post.foreign_asset_to_derivative_id_source == pre.foreign_asset_to_derivative_id_source.insert(id, source)
    &&& post.derivative_id_source_to_foreign_asset == pre.derivative_id_source_to_foreign_asset.insert(source, id)
    &&& post.foreign_nft_to_derivative_id == pre.foreign_nft_to_derivative_id
    &&& post.derivative_id_to_foreign_nft == pre.derivative_id_to_foreign_nft
}

/// Registering `d` as the derivative of the foreign asset `a`, from `pre`
/// to `post`: both directions are set, replacing what either had.
pub open spec fn xnft_register_spec<DerivativeId, DerivativeIdSource>(
    pre: XnftView<DerivativeId, DerivativeIdSource>,
    a: NonFungibleAsset,
    d: DerivativeId,
    post: XnftView<DerivativeId, DerivativeIdSource>,
) -> bool {
    &&& post.foreign_nft_to_derivative_id == pre.foreign_nft_to_derivative_id.insert(a, d)
    &&& post.derivative_id_to_foreign_nft == pre.derivative_id_to_foreign_nft.insert(d, a)
    &&& post.foreign_asset_to_derivative_id_source == pre.foreign_asset_to_derivative_id_source
    &&& post.derivative_id_source_to_foreign_asset == pre.derivative_id_source_to_foreign_asset
}

/// Deregistering the derivative `d`, from `pre` to `post` with result `r`:
/// refused with `InvalidState` if `d` is not registered; otherwise `d` and
/// its foreign asset are removed from both directions.
pub open spec fn xnft_deregister_spec<DerivativeId, DerivativeIdSource>(
    pre: XnftView<DerivativeId, DerivativeIdSource>,
    d: DerivativeId,
    post: XnftView<DerivativeId, DerivativeIdSource>,
    r: Result<(), DispatchError>,
) -> bool {
    if !pre.derivative_id_to_foreign_nft.contains_key(d) {
        r == Err::<(), DispatchError>(xnft_error(XnftError::InvalidState)) && post == pre
    } else {
        &&& r == Ok::<(), DispatchError>(())
        &&& post.derivative_id_to_foreign_nft == pre.derivative_id_to_foreign_nft.remove(d)
        &&& post.foreign_nft_to_derivative_id == pre.foreign_nft_to_derivative_id.remove(
            pre.derivative_id_to_foreign_nft[d],
        )
        &&& post.foreign_asset_to_derivative_id_source == pre.foreign_asset_to_derivative_id_source
        &&& post.derivative_id_source_to_foreign_asset == pre.derivative_id_source_to_foreign_asset
    }
}

/// What matching `asset` gives in the registry `v`: a non-fungible asset of
/// a class with a derivative identifier source is matched to that source.
pub open spec fn spec_matches_instance<DerivativeId, DerivativeIdSource>(
    v: XnftView<DerivativeId, DerivativeIdSource>,
    asset: Asset,
) -> Result<RegisterDerivativeId<DerivativeIdSource>, MatchError> {
    match asset.fun {
        Fungibility::NonFungible(instance) => if v.foreign_asset_to_derivative_id_source.contains_key(
            asset.id,
        ) {
            Ok(
                RegisterDerivativeId {
                    foreign_asset: NonFungibleAsset { id: asset.id, instance },
                    instance_id_source: v.foreign_asset_to_derivative_id_source[asset.id],
                },
            )
        } else {
            Err(MatchError::AssetNotHandled)
        },
        Fungibility::Fungible(_) => Err(MatchError::AssetNotHandled),
    }
}

/// The registry of foreign non-fungible assets and their derivatives.
pub struct Xnft<DerivativeId, DerivativeIdSource> {
    foreign_asset_to_derivative_id_source: Table<AssetId, DerivativeIdSource>,
    derivative_id_source_to_foreign_asset: Table<DerivativeIdSource, AssetId>,
    foreign_nft_to_derivative_id: Table<NonFungibleAsset, DerivativeId>,
    derivative_id_to_foreign_nft: Table<DerivativeId, NonFungibleAsset>,
}

impl<DerivativeId, DerivativeIdSource> View for Xnft<DerivativeId, DerivativeIdSource> {
    type V = XnftView<DerivativeId, DerivativeIdSource>;

    closed spec fn view(&self) -> XnftView<DerivativeId, DerivativeIdSource> {
        XnftView {
            foreign_asset_to_derivative_id_source: self.foreign_asset_to_derivative_id_source@,
            derivative_id_source_to_foreign_asset: self.derivative_id_source_to_foreign_asset@,
            foreign_nft_to_derivative_id: self.foreign_nft_to_derivative_id@,
            derivative_id_to_foreign_nft: self.derivative_id_to_foreign_nft@,
        }
    }
}

impl<DerivativeId: TableKey, DerivativeIdSource: TableKey> Xnft<DerivativeId, DerivativeIdSource> {
    /// The tables of the registry are well formed.
    pub closed spec fn wf(&self) -> bool {
        &&& self.foreign_asset_to_derivative_id_source.wf()
        &&& self.derivative_id_source_to_foreign_asset.wf()
        &&& self.foreign_nft_to_derivative_id.wf()
        &&& self.derivative_id_to_foreign_nft.wf()
    }

    /// An empty registry.
    pub fn new() -> (r: Self)
        ensures
            r.wf(),
            r@.foreign_asset_to_derivative_id_source == Map::<AssetId, DerivativeIdSource>::empty(),
            r@.derivative_id_source_to_foreign_asset == Map::<DerivativeIdSource, AssetId>::empty(),
            r@.foreign_nft_to_derivative_id == Map::<NonFungibleAsset, DerivativeId>::empty(),
            r@.derivative_id_to_foreign_nft == Map::<DerivativeId, NonFungibleAsset>::empty(),
    {
        Xnft {
            foreign_asset_to_derivative_id_source: Table::new(),
            derivative_id_source_to_foreign_asset: Table::new(),
            foreign_nft_to_derivative_id: Table::new(),
            derivative_id_to_foreign_nft: Table::new(),
        }
    }

    /// Records `source` as the source of derivative identifiers of the
    /// foreign asset class `asset_id`, in both directions.
    pub fn set_derivative_id_source(&mut self, asset_id: AssetId, source: DerivativeIdSource)
        requires
            old(self).wf(),
        ensures
            final(self).wf(),
            set_source_spec(old(self)@, asset_id, source, final(self)@),
    {
        self.foreign_asset_to_derivative_id_source.insert(asset_id, source);
        self.derivative_id_source_to_foreign_asset.insert(source, asset_id);
    }

    /// The source of derivative identifiers of the foreign asset class
    /// `asset_id`, if any.
    pub fn foreign_asset_to_derivative_id_source(&self, asset_id: &AssetId) -> (r: Option<DerivativeIdSource>)
        requires
            self.wf(),
        ensures
            r == self@.foreign_asset_to_derivative_id_source.get(*asset_id),
    {
        match self.foreign_asset_to_derivative_id_source.get(asset_id) {
            Some(s) => Some(*s),
            None => None,
        }
    }

    /// The foreign asset class whose derivative identifiers come from
    /// `source`, if any.
    pub fn derivative_id_source_to_foreign_asset(&self, source: &DerivativeIdSource) -> (r: Option<AssetId>)
        requires
            self.wf(),
        ensures
            r == self@.derivative_id_source_to_foreign_asset.get(*source),
    {
        match self.derivative_id_source_to_foreign_asset.get(source) {
            Some(a) => Some(*a),
            None => None,
        }
    }

    /// The derivative of the foreign asset, if registered.
    pub fn foreign_nft_to_derivative_id(&self, foreign_asset: &NonFungibleAsset) -> (r: Option<DerivativeId>)
        requires
            self.wf(),
        ensures
            r == self@.foreign_nft_to_derivative_id.get(*foreign_asset),
    {
        match self.foreign_nft_to_derivative_id.get(foreign_asset) {
            Some(d) => Some(*d),
            None => None,
        }
    }

    /// The foreign asset of the derivative, if registered.
    pub fn derivative_id_to_foreign_nft(&self, instance_id: &DerivativeId) -> (r: Option<NonFungibleAsset>)
        requires
            self.wf(),
        ensures
            r == self@.derivative_id_to_foreign_nft.get(*instance_id),
    {
        match self.derivative_id_to_foreign_nft.get(instance_id) {
            Some(a) => Some(*a),
            None => None,
        }
    }

    /// Registers `instance_id` as the derivative of `foreign_asset`, in both
    /// directions, replacing what either had.
    pub fn try_register_derivative(&mut self, foreign_asset: &NonFungibleAsset, instance_id: &DerivativeId) -> (r: Result<(), DispatchError>)
        requires
            old(self).wf(),
        ensures
            final(self).wf(),
            r == Ok::<(), DispatchError>(()),
            xnft_register_spec(old(self)@, *foreign_asset, *instance_id, final(self)@),
            old(self)@.inv() && !old(self)@.foreign_nft_to_derivative_id.contains_key(*foreign_asset)
                && !old(self)@.derivative_id_to_foreign_nft.contains_key(*instance_id) ==> final(self)@.inv(),
    {
        self.foreign_nft_to_derivative_id.insert(*foreign_asset, *instance_id);
        self.derivative_id_to_foreign_nft.insert(*instance_id, *foreign_asset);
        Ok(())
    }

    /// Whether the foreign asset has a registered derivative.
    pub fn is_derivative_registered(&self, foreign_asset: &NonFungibleAsset) -> (r: bool)
        requires
            self.wf(),
        ensures
            r == self@.foreign_nft_to_derivative_id.contains_key(*foreign_asset),
    {
        self.foreign_nft_to_derivative_id.contains_key(foreign_asset)
    }

    /// Deregisters the derivative `instance_id` and its foreign asset; fails
    /// with `InvalidState` if it is not registered.
    pub fn try_deregister_derivative(&mut self, instance_id: &DerivativeId) -> (r: Result<(), DispatchError>)
        requires
            old(self).wf(),
        ensures
            final(self).wf(),
            xnft_deregister_spec(old(self)@, *instance_id, final(self)@, r),
            old(self)@.inv() ==> final(self)@.inv(),
    {
        let ghost pre = self@;
        let foreign_asset = match self.derivative_id_to_foreign_nft.remove(instance_id) {
            Some(a) => a,
            None => {
                assert(self@ =~= pre);
                return Err(DispatchError::Module(ModuleError::Xnft(XnftError::InvalidState)));
            },
        };
        self.foreign_nft_to_derivative_id.remove(&foreign_asset);
        Ok(())
    }

    /// Whether `instance_id` is a registered derivative.
    pub fn is_derivative(&self, instance_id: &DerivativeId) -> (r: bool)
        requires
            self.wf(),
        ensures
            r == self@.derivative_id_to_foreign_nft.contains_key(*instance_id),
    {
        self.derivative_id_to_foreign_nft.contains_key(instance_id)
    }

    /// Matches an incoming asset: a non-fungible asset of a class with a
    /// derivative identifier source gives the foreign asset and that source;
    /// any other asset is not handled.
    pub fn matches_instance(&self, asset: &Asset) -> (r: Result<RegisterDerivativeId<DerivativeIdSource>, MatchError>)
        requires
            self.wf(),
        ensures
            r == spec_matches_instance(self@, *asset),
    {
        match asset.fun {
            Fungibility::NonFungible(asset_instance) => {
                let instance_id_source = match self.foreign_asset_to_derivative_id_source.get(&asset.id) {
                    Some(s) => *s,
                    None => {
                        return Err(MatchError::AssetNotHandled);
                    },
                };
                Ok(
                    RegisterDerivativeId {
                        foreign_asset: NonFungibleAsset { id: asset.id, instance: asset_instance },
                        instance_id_source,
                    },
                )
            },
            Fungibility::Fungible(_) => Err(MatchError::AssetNotHandled),
        }
    }
}

/// Registering a derivative of a foreign asset that has none, with a
/// derivative not registered yet, and then deregistering the derivative
/// leaves the registry as it was.
pub proof fn xnft_register_then_deregister_restores<DerivativeId, DerivativeIdSource>(
    pre: XnftView<DerivativeId, DerivativeIdSource>,
    a: NonFungibleAsset,
    d: DerivativeId,
    mid: XnftView<DerivativeId, DerivativeIdSource>,
    post: XnftView<DerivativeId, DerivativeIdSource>,
    r: Result<(), DispatchError>,
)
    requires
        !pre.foreign_nft_to_derivative_id.contains_key(a),
        !pre.derivative_id_to_foreign_nft.contains_key(d),
        xnft_register_spec(pre, a, d, mid),
        xnft_deregister_spec(mid, d, post, r),
    ensures
        r == Ok::<(), DispatchError>(()),
        post == pre,
{
    assert(post.derivative_id_to_foreign_nft =~= pre.derivative_id_to_foreign_nft);
    assert(post.foreign_nft_to_derivative_id =~= pre.foreign_nft_to_derivative_id);
    assert(post =~= pre);
}

/// Once a class has a source of derivative identifiers, every non-fungible
/// asset of that class is matched to that source.
pub proof fn set_source_then_match<DerivativeId, DerivativeIdSource>(
    pre: XnftView<DerivativeId, DerivativeIdSource>,
    id: AssetId,
    source: DerivativeIdSource,
    post: XnftView<DerivativeId, DerivativeIdSource>,
    instance: AssetInstance,
)
    requires
        set_source_spec(pre, id, source, post),
    ensures
        spec_matches_instance(post, Asset { id, fun: Fungibility::NonFungible(instance) }) == Ok::<
            RegisterDerivativeId<DerivativeIdSource>,
            MatchError,
        >(RegisterDerivativeId { foreign_asset: NonFungibleAsset { id, instance }, instance_id_source: source }),
{
}

/// Only non-fungible assets of a class with a source of derivative
/// identifiers are matched; every other asset is not handled.
pub proof fn unmatched_assets_are_not_handled<DerivativeId, DerivativeIdSource>(
    v: XnftView<DerivativeId, DerivativeIdSource>,
    asset: Asset,
)
    ensures
        asset.fun is Fungible ==> spec_matches_instance(v, asset) == Err::<
            RegisterDerivativeId<DerivativeIdSource>,
            MatchError,
        >(MatchError::AssetNotHandled),
        !v.foreign_asset_to_derivative_id_source.contains_key(asset.id) ==> spec_matches_instance(v, asset) == Err::<
            RegisterDerivativeId<DerivativeIdSource>,
            MatchError,
        >(MatchError::AssetNotHandled),
        spec_matches_instance(v, asset) matches Ok(m) ==> m.foreign_asset.id == asset.id
            && asset.fun == Fungibility::NonFungible(m.foreign_asset.instance)
            && m.instance_id_source == v.foreign_asset_to_derivative_id_source[asset.id],
{
}

} // verus!
