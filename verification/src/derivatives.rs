//! A registry of derivative assets: a one-to-one mapping between original
//! assets and the local derivatives that stand for them, with extra data
//! kept per derivative.

use core::marker::PhantomData;
use std::collections::BTreeMap;
use vstd::prelude::*;

use crate::dispatch::{DerivativesError, DispatchError, ModuleError};
use crate::table::{Table, TableKey};
use crate::traits::tokens::asset_ops::common_strategies::WithOrigin;
use crate::traits::tokens::asset_ops::{
    AssetDefinition, Create, CreateStrategy, Destroy, DestroyStrategy,
};

verus! {

/// Metadata of an asset: byte values under byte keys.
pub type MetadataMap = BTreeMap<Vec<u8>, Vec<u8>>;

/// What a derivative's creation reports: the local derivative, if the
/// creation made one that is to be registered.
pub type RegistryMapping<Derivative> = Option<Derivative>;

/// The creation strategy of a derivative of `original` with `metadata`.
pub struct DerivativeAsset<Original, Derivative> {
    /// The original asset.
    pub original: Original,
    /// The metadata of the derivative.
    pub metadata: MetadataMap,
    /// Marks the derivative type.
    pub _phantom: PhantomData<Derivative>,
}

impl<Original, Derivative> DerivativeAsset<Original, Derivative> {
    /// The creation of a derivative of `original` with `metadata`.
    pub fn from_parts(original: Original, metadata: MetadataMap) -> (r: Self)
        ensures
            r.original == original,
            r.metadata == metadata,
    {
        DerivativeAsset { original, metadata, _phantom: PhantomData }
    }
}

impl<Original, Derivative> CreateStrategy for DerivativeAsset<Original, Derivative> {
    type Success = RegistryMapping<Derivative>;
}

/// The destruction strategy of a derivative, with the metadata that
/// witnesses it.
pub struct DestroyWitness(pub MetadataMap);

impl DestroyStrategy for DestroyWitness {
    type Success = ();
}

/// An event of the registry.
#[derive(Debug, Clone, Copy, PartialEq, Eq)]
pub enum DerivativeEvent<Original, Derivative> {
    /// A derivative is created.
    DerivativeCreated { original: Original },
    /// A mapping between an original asset and a local derivative is created.
    DerivativeMappingCreated { original: Original, derivative_id: Derivative },
    /// A derivative is destroyed.
    DerivativeDestroyed { original: Original },
}

/// The contents of the registry.
#[verifier::ext_equal]
#[verifier::reject_recursive_types(Original)]
#[verifier::reject_recursive_types(Derivative)]
pub struct DerivativesView<Original, Derivative, Extra> {
    /// The derivative of each registered original.
    pub original_to_derivative: Map<Original, Derivative>,
    /// The original of each registered derivative.
    pub derivative_to_original: Map<Derivative, Original>,
    /// The extra data of each derivative that has some.
    pub derivative_extra: Map<Derivative, Extra>,
    /// The events emitted so far.
    pub events: Seq<DerivativeEvent<Original, Derivative>>,
}

/// The module error of this registry.
pub open spec fn derivatives_error(e: DerivativesError) -> DispatchError {
    DispatchError::Module(ModuleError::Derivatives(e))
}

impl<Original, Derivative, Extra> DerivativesView<Original, Derivative, Extra> {
    /// The two mappings are inverse to each other, and only registered
    /// derivatives have extra data.
    pub open spec fn inv(self) -> bool {
        &&& forall|o: Original| #[trigger]
            self.original_to_derivative.contains_key(o) ==> self.derivative_to_original.contains_key(
                self.original_to_derivative[o],
            ) && self.derivative_to_original[self.original_to_derivative[o]] == o
        &&& forall|d: Derivative| #[trigger]
            self.derivative_to_original.contains_key(d) ==> self.original_to_derivative.contains_key(
                self.derivative_to_original[d],
            ) && self.original_to_derivative[self.derivative_to_original[d]] == d
        &&& forall|d: Derivative| #[trigger]
            self.derivative_extra.contains_key(d) ==> self.derivative_to_original.contains_key(d)
    }
}

/// Registering `d` as the derivative of `o`, from `pre` to `post` with
/// result `r`: refused if `o` already has a derivative.
pub open spec fn register_spec<Original, Derivative, Extra>(
    pre: DerivativesView<Original, Derivative, Extra>,
    o: Original,
    d: Derivative,
    post: DerivativesView<Original, Derivative, Extra>,
    r: Result<(), DispatchError>,
) -> bool {
    if pre.original_to_derivative.contains_key(o) {
        r == Err::<(), DispatchError>(derivatives_error(DerivativesError::DerivativeAlreadyExists))
            && post == pre
    } else {
        &&& r == Ok::<(), DispatchError>(())
        &&& post.original_to_derivative == pre.original_to_derivative.insert(o, d)
        &&& post.derivative_to_original == pre.derivative_to_original.insert(d, o)
        &&& post.derivative_extra == pre.derivative_extra
        &&& post.events == pre.events.push(
            DerivativeEvent::DerivativeMappingCreated { original: o, derivative_id: d },
        )
    }
}

/// Deregistering the derivative of `o`, from `pre` to `post` with result
/// `r`: refused if `o` has none; otherwise both mappings and the extra data
/// of the derivative go.
pub open spec fn deregister_spec<Original, Derivative, Extra>(
    pre: DerivativesView<Original, Derivative, Extra>,
    o: Original,
    post: DerivativesView<Original, Derivative, Extra>,
    r: Result<(), DispatchError>,
) -> bool {
    if !pre.original_to_derivative.contains_key(o) {
        r == Err::<(), DispatchError>(derivatives_error(DerivativesError::NoDerivativeToDeregister))
            && post == pre
    } else {
        let d = pre.original_to_derivative[o];
        &&& r == Ok::<(), DispatchError>(())
        &&& post.original_to_derivative == pre.original_to_derivative.remove(o)
        &&& post.derivative_to_original == pre.derivative_to_original.remove(d)
        &&& post.derivative_extra == pre.derivative_extra.remove(d)
        &&& post.events == pre.events.push(DerivativeEvent::DerivativeDestroyed { original: o })
    }
}

/// Completing the creation of a derivative of `o` whose creation reported
/// `created`, from `pre` to `post` with result `r`: a reported derivative is
/// registered, and the creation is announced.
pub open spec fn complete_create_spec<Original, Derivative, Extra>(
    pre: DerivativesView<Original, Derivative, Extra>,
    o: Original,
    created: Option<Derivative>,
    post: DerivativesView<Original, Derivative, Extra>,
    r: Result<(), DispatchError>,
) -> bool {
    match created {
        None => {
            &&& r == Ok::<(), DispatchError>(())
            &&& post.original_to_derivative == pre.original_to_derivative
            &&& post.derivative_to_original == pre.derivative_to_original
            &&& post.derivative_extra == pre.derivative_extra
            &&& post.events == pre.events.push(DerivativeEvent::DerivativeCreated { original: o })
        },
        Some(d) => if pre.original_to_derivative.contains_key(o) {
            r == Err::<(), DispatchError>(derivatives_error(DerivativesError::DerivativeAlreadyExists))
                && post == pre
        } else {
            &&& r == Ok::<(), DispatchError>(())
            &&& post.original_to_derivative == pre.original_to_derivative.insert(o, d)
            &&& post.derivative_to_original == pre.derivative_to_original.insert(d, o)
            &&& post.derivative_extra == pre.derivative_extra
            &&& post.events == pre.events.push(
                DerivativeEvent::DerivativeMappingCreated { original: o, derivative_id: d },
            ).push(DerivativeEvent::DerivativeCreated { original: o })
        },
    }
}

/// Completing a creation that reported a derivative for an original
/// without one registers it both ways and announces the mapping, then the
/// creation; one that reported none registers nothing and announces the
/// creation; a second derivative for a registered original is refused with
/// nothing changed.
pub proof fn completed_creation_registers_its_derivative<Original, Derivative, Extra>(
    pre: DerivativesView<Original, Derivative, Extra>,
    o: Original,
    created: Option<Derivative>,
    post: DerivativesView<Original, Derivative, Extra>,
    r: Result<(), DispatchError>,
)
    requires
        complete_create_spec(pre, o, created, post, r),
    ensures
        created is None ==> r == Ok::<(), DispatchError>(()) && post.original_to_derivative == pre.original_to_derivative
            && post.events == pre.events.push(DerivativeEvent::DerivativeCreated { original: o }),
        created matches Some(d) ==> if pre.original_to_derivative.contains_key(o) {
            r == Err::<(), DispatchError>(derivatives_error(DerivativesError::DerivativeAlreadyExists)) && post == pre
        } else {
            &&& r == Ok::<(), DispatchError>(())
            &&& post.original_to_derivative.get(o) == Some(d)
            &&& post.derivative_to_original.get(d) == Some(o)
            &&& post.events.len() == pre.events.len() + 2
            &&& post.events.last() == DerivativeEvent::<Original, Derivative>::DerivativeCreated { original: o }
        },
{
}

/// A registered derivative is found from its original, and the original from
/// the derivative.
pub proof fn registered_derivative_maps_both_ways<Original, Derivative, Extra>(
    pre: DerivativesView<Original, Derivative, Extra>,
    o: Original,
    d: Derivative,
    post: DerivativesView<Original, Derivative, Extra>,
    r: Result<(), DispatchError>,
)
    requires
        register_spec(pre, o, d, post, r),
        r is Ok,
    ensures
        post.original_to_derivative.get(o) == Some(d),
        post.derivative_to_original.get(d) == Some(o),
{
}

/// Registering a derivative of an original that has none, with a derivative
/// not registered yet, and then deregistering it leaves both mappings and
/// the extra data as they were.
pub proof fn register_then_deregister_restores<Original, Derivative, Extra>(
    pre: DerivativesView<Original, Derivative, Extra>,
    o: Original,
    d: Derivative,
    mid: DerivativesView<Original, Derivative, Extra>,
    r1: Result<(), DispatchError>,
    post: DerivativesView<Original, Derivative, Extra>,
    r2: Result<(), DispatchError>,
)
    requires
        pre.inv(),
        !pre.original_to_derivative.contains_key(o),
        !pre.derivative_to_original.contains_key(d),
        register_spec(pre, o, d, mid, r1),
        deregister_spec(mid, o, post, r2),
    ensures
        r1 == Ok::<(), DispatchError>(()),
        r2 == Ok::<(), DispatchError>(()),
        post.original_to_derivative == pre.original_to_derivative,
        post.derivative_to_original == pre.derivative_to_original,
        post.derivative_extra == pre.derivative_extra,
{
    assert(post.original_to_derivative =~= pre.original_to_derivative);
    assert(post.derivative_to_original =~= pre.derivative_to_original);
    assert(!pre.derivative_extra.contains_key(d));
    assert(post.derivative_extra =~= pre.derivative_extra);
}

/// The registry of derivatives.
pub struct Derivatives<Original, Derivative, Extra> {
    original_to_derivative: Table<Original, Derivative>,
    derivative_to_original: Table<Derivative, Original>,
    derivative_extra: Table<Derivative, Extra>,
    events: Vec<DerivativeEvent<Original, Derivative>>,
}

impl<Original, Derivative, Extra> View for Derivatives<Original, Derivative, Extra> {
    type V = DerivativesView<Original, Derivative, Extra>;

    closed spec fn view(&self) -> DerivativesView<Original, Derivative, Extra> {
        DerivativesView {
            original_to_derivative: self.original_to_derivative@,
            derivative_to_original: self.derivative_to_original@,
            derivative_extra: self.derivative_extra@,
            events: self.events@,
        }
    }
}

impl<Original: TableKey, Derivative: TableKey, Extra> Derivatives<Original, Derivative, Extra> {
    /// The tables of the registry are well formed.
    pub closed spec fn wf(&self) -> bool {
        &&& self.original_to_derivative.wf()
        &&& self.derivative_to_original.wf()
        &&& self.derivative_extra.wf()
    }

    /// An empty registry.
    pub fn new() -> (r: Self)
        ensures
            r.wf(),
            r@.original_to_derivative == Map::<Original, Derivative>::empty(),
            r@.derivative_to_original == Map::<Derivative, Original>::empty(),
            r@.derivative_extra == Map::<Derivative, Extra>::empty(),
            r@.events == Seq::<DerivativeEvent<Original, Derivative>>::empty(),
            r@.inv(),
    {
        Derivatives {
            original_to_derivative: Table::new(),
            derivative_to_original: Table::new(),
            derivative_extra: Table::new(),
            events: Vec::new(),
        }
    }

    /// Registers `derivative` as the derivative of `original`; fails with
    /// `DerivativeAlreadyExists` if `original` has one.
    pub fn try_register_derivative(&mut self, original: &Original, derivative: &Derivative) -> (r: Result<(), DispatchError>)
        requires
            old(self).wf(),
        ensures
            final(self).wf(),
            register_spec(old(self)@, *original, *derivative, final(self)@, r),
            old(self)@.inv() && !old(self)@.derivative_to_original.contains_key(*derivative)
                ==> final(self)@.inv(),
    {
        if self.original_to_derivative.contains_key(original) {
            return Err(DispatchError::Module(ModuleError::Derivatives(DerivativesError::DerivativeAlreadyExists)));
        }
        self.original_to_derivative.insert(*original, *derivative);
        self.derivative_to_original.insert(*derivative, *original);
        self.events.push(DerivativeEvent::DerivativeMappingCreated { original: *original, derivative_id: *derivative });
        Ok(())
    }

    /// Deregisters the derivative of `original`, with its extra data; fails
    /// with `NoDerivativeToDeregister` if `original` has none.
    pub fn try_deregister_derivative_of(&mut self, original: &Original) -> (r: Result<(), DispatchError>)
        requires
            old(self).wf(),
        ensures
            final(self).wf(),
            deregister_spec(old(self)@, *original, final(self)@, r),
            old(self)@.inv() ==> final(self)@.inv(),
    {
        let ghost pre = self@;
        let derivative = match self.original_to_derivative.remove(original) {
            Some(d) => d,
            None => {
                assert(self@ =~= pre);
                return Err(DispatchError::Module(ModuleError::Derivatives(DerivativesError::NoDerivativeToDeregister)));
            },
        };
        self.derivative_to_original.remove(&derivative);
        self.derivative_extra.remove(&derivative);
        self.events.push(DerivativeEvent::DerivativeDestroyed { original: *original });
        Ok(())
    }

    /// The derivative of `original`, if registered.
    pub fn get_derivative(&self, original: &Original) -> (r: Option<Derivative>)
        requires
            self.wf(),
        ensures
            r == self@.original_to_derivative.get(*original),
    {
        match self.original_to_derivative.get(original) {
            Some(d) => Some(*d),
            None => None,
        }
    }

    /// The original of `derivative`, if registered.
    pub fn get_original(&self, derivative: &Derivative) -> (r: Option<Original>)
        requires
            self.wf(),
        ensures
            r == self@.derivative_to_original.get(*derivative),
    {
        match self.derivative_to_original.get(derivative) {
            Some(o) => Some(*o),
            None => None,
        }
    }

    /// Every registered pair of an original and its derivative, each once.
    pub fn iter(&self) -> (r: Vec<(Original, Derivative)>)
        requires
            self.wf(),
        ensures
            forall|i: int| 0 <= i < r@.len() ==> #[trigger] self@.original_to_derivative.contains_key(r@[i].0)
                && self@.original_to_derivative[r@[i].0] == r@[i].1,
            forall|o: Original| #[trigger] self@.original_to_derivative.contains_key(o) ==> exists|i: int| 0 <= i < r@.len() && r@[i].0 == o,
            forall|i: int, j: int| 0 <= i < r@.len() && 0 <= j < r@.len() && i != j ==> #[trigger] r@[i].0 != #[trigger] r@[j].0,
    {
        self.original_to_derivative.pairs()
    }

    /// Every registered original, each once.
    pub fn iter_originals(&self) -> (r: Vec<Original>)
        requires
            self.wf(),
        ensures
            forall|i: int| 0 <= i < r@.len() ==> #[trigger] self@.original_to_derivative.contains_key(r@[i]),
            forall|o: Original| #[trigger] self@.original_to_derivative.contains_key(o) ==> exists|i: int| 0 <= i < r@.len() && r@[i] == o,
            forall|i: int, j: int| 0 <= i < r@.len() && 0 <= j < r@.len() && i != j ==> #[trigger] r@[i] != #[trigger] r@[j],
    {
        let pairs = self.original_to_derivative.pairs();
        let mut r: Vec<Original> = Vec::new();
        let mut i: usize = 0;
        while i < pairs.len()
            invariant
                0 <= i <= pairs@.len(),
                r@.len() == i,
                forall|j: int| 0 <= j < i ==> r@[j] == pairs@[j].0,
            decreases pairs@.len() - i,
        {
            r.push(pairs[i].0);
            i = i + 1;
        }
        proof {
            assert forall|o: Original| #[trigger] self@.original_to_derivative.contains_key(o) implies exists|i: int| 0 <= i < r@.len() && r@[i] == o by {
                let j = choose|j: int| 0 <= j < pairs@.len() && pairs@[j].0 == o;
                assert(r@[j] == o);
            }
            assert forall|a: int, b: int| 0 <= a < r@.len() && 0 <= b < r@.len() && a != b implies #[trigger] r@[a] != #[trigger] r@[b] by {
                assert(pairs@[a].0 != pairs@[b].0);
            }
        }
        r
    }

    /// The derivative of every registered original, each once.
    pub fn iter_derivatives(&self) -> (r: Vec<Derivative>)
        requires
            self.wf(),
        ensures
            forall|i: int| 0 <= i < r@.len() ==> self@.original_to_derivative.contains_value(#[trigger] r@[i]),
            forall|o: Original| #[trigger] self@.original_to_derivative.contains_key(o) ==> exists|i: int| 0 <= i < r@.len() && r@[i] == self@.original_to_derivative[o],
    {
        let pairs = self.original_to_derivative.pairs();
        let mut r: Vec<Derivative> = Vec::new();
        let mut i: usize = 0;
        while i < pairs.len()
            invariant
                0 <= i <= pairs@.len(),
                r@.len() == i,
                forall|j: int| 0 <= j < i ==> r@[j] == pairs@[j].1,
            decreases pairs@.len() - i,
        {
            r.push(pairs[i].1);
            i = i + 1;
        }
        proof {
            assert forall|i: int| 0 <= i < r@.len() implies self@.original_to_derivative.contains_value(#[trigger] r@[i]) by {
                assert(self@.original_to_derivative.contains_key(pairs@[i].0));
                assert(r@[i] == pairs@[i].1);
                assert(self@.original_to_derivative[pairs@[i].0] == r@[i]);
                let o = pairs@[i].0;
                assert(self@.original_to_derivative.contains_key(o) && self@.original_to_derivative[o] == r@[i]);
            }
            assert forall|o: Original| #[trigger] self@.original_to_derivative.contains_key(o) implies exists|i: int| 0 <= i < r@.len() && r@[i] == self@.original_to_derivative[o] by {
                let j = choose|j: int| 0 <= j < pairs@.len() && pairs@[j].0 == o;
                assert(r@[j] == self@.original_to_derivative[o]);
            }
        }
        r
    }

    /// The events emitted so far.
    pub fn events(&self) -> (r: &Vec<DerivativeEvent<Original, Derivative>>)
        ensures
            r@ == self@.events,
    {
        &self.events
    }

    /// The extra data of `derivative`, if any.
    pub fn get_derivative_extra(&self, derivative: &Derivative) -> (r: Option<&Extra>)
        requires
            self.wf(),
        ensures
            r is Some == self@.derivative_extra.contains_key(*derivative),
            r matches Some(e) ==> *e == self@.derivative_extra[*derivative],
    {
        self.derivative_extra.get(derivative)
    }

    /// Sets (`Some`) or clears (`None`) the extra data of `derivative`;
    /// fails with `DerivativeNotFound` if it is not registered.
    pub fn set_derivative_extra(&mut self, derivative: &Derivative, extra: Option<Extra>) -> (r: Result<(), DispatchError>)
        requires
            old(self).wf(),
        ensures
            final(self).wf(),
            !old(self)@.derivative_to_original.contains_key(*derivative) ==> r == Err::<(), DispatchError>(
                derivatives_error(DerivativesError::DerivativeNotFound),
            ) && final(self)@ == old(self)@,
            old(self)@.derivative_to_original.contains_key(*derivative) ==> {
                &&& r == Ok::<(), DispatchError>(())
                &&& final(self)@.derivative_extra == match extra {
                    Some(e) => old(self)@.derivative_extra.insert(*derivative, e),
                    None => old(self)@.derivative_extra.remove(*derivative),
                }
                &&& final(self)@.original_to_derivative == old(self)@.original_to_derivative
                &&& final(self)@.derivative_to_original == old(self)@.derivative_to_original
                &&& final(self)@.events == old(self)@.events
            },
            old(self)@.inv() ==> final(self)@.inv(),
    {
        if !self.derivative_to_original.contains_key(derivative) {
            return Err(DispatchError::Module(ModuleError::Derivatives(DerivativesError::DerivativeNotFound)));
        }
        match extra {
            Some(e) => {
                self.derivative_extra.insert(*derivative, e);
            },
            None => {
                self.derivative_extra.remove(derivative);
            },
        }
        Ok(())
    }

    /// Completes the creation of a derivative of `original` whose creation
    /// reported `created`: a reported derivative is registered, and the
    /// creation is announced.
    pub fn complete_create(&mut self, original: Original, created: RegistryMapping<Derivative>) -> (r: Result<(), DispatchError>)
        requires
            old(self).wf(),
        ensures
            final(self).wf(),
            complete_create_spec(old(self)@, original, created, final(self)@, r),
            old(self)@.inv() && (created matches Some(d) ==> !old(self)@.derivative_to_original.contains_key(d))
                ==> final(self)@.inv(),
    {
        if let Some(derivative) = created {
            let r = self.try_register_derivative(&original, &derivative);
            if r.is_err() {
                return r;
            }
        }
        self.events.push(DerivativeEvent::DerivativeCreated { original });
        Ok(())
    }

    /// Creates a derivative of `original` with `metadata` through `Ops` on
    /// behalf of `origin`, and registers the derivative that it reports.
    pub fn create_derivative<Origin, Ops: Create<WithOrigin<Origin, DerivativeAsset<Original, Derivative>>>>(
        &mut self,
        origin: Origin,
        original: Original,
        metadata: MetadataMap,
    ) -> (r: Result<(), DispatchError>)
        requires
            old(self).wf(),
        ensures
            final(self).wf(),
            exists|res: Result<RegistryMapping<Derivative>, DispatchError>| #[trigger] call_ensures(
                <Ops as Create<WithOrigin<Origin, DerivativeAsset<Original, Derivative>>>>::create,
                (WithOrigin(origin, DerivativeAsset { original, metadata, _phantom: PhantomData }),),
                res,
            ) && match res {
                Err(e) => r == Err::<(), DispatchError>(e) && final(self)@ == old(self)@,
                Ok(created) => complete_create_spec(old(self)@, original, created, final(self)@, r),
            },
    {
        let created = match Ops::create(WithOrigin(origin, DerivativeAsset::from_parts(original, metadata))) {
            Ok(c) => c,
            Err(e) => {
                return Err(e);
            },
        };
        self.complete_create(original, created)
    }

    /// Destroys the derivative of `original` through `Ops` on behalf of
    /// `origin` with the witness `destroy_witness`, and deregisters it.
    pub fn destroy_derivative<Origin, Ops: Destroy<WithOrigin<Origin, DestroyWitness>> + AssetDefinition<Id = Original>>(
        &mut self,
        origin: Origin,
        original: Original,
        destroy_witness: MetadataMap,
    ) -> (r: Result<(), DispatchError>)
        requires
            old(self).wf(),
        ensures
            final(self).wf(),
            exists|res: Result<(), DispatchError>| #[trigger] call_ensures(
                <Ops as Destroy<WithOrigin<Origin, DestroyWitness>>>::destroy,
                (&original, WithOrigin(origin, DestroyWitness(destroy_witness))),
                res,
            ) && match res {
                Err(e) => r == Err::<(), DispatchError>(e) && final(self)@ == old(self)@,
                Ok(_) => deregister_spec(old(self)@, original, final(self)@, r),
            },
            old(self)@.inv() ==> final(self)@.inv(),
    {
        match Ops::destroy(&original, WithOrigin(origin, DestroyWitness(destroy_witness))) {
            Ok(_) => {},
            Err(e) => {
                return Err(e);
            },
        }
        self.try_deregister_derivative_of(&original)
    }
}

/// The weight of a call: computation time and proof size.
#[derive(Debug, Clone, Copy, PartialEq, Eq, Structural)]
pub struct Weight {
    /// The computation time.
    pub ref_time: u64,
    /// The size of the proof.
    pub proof_size: u64,
}

impl Weight {
    /// The weight of the given computation time and proof size.
    pub fn from_parts(ref_time: u64, proof_size: u64) -> (r: Weight)
        ensures
            r == (Weight { ref_time, proof_size }),
    {
        Weight { ref_time, proof_size }
    }
}

/// The weights of the registry's calls.
pub trait WeightInfo {
    /// The weight of `create_derivative`.
    fn create_derivative() -> Weight;

    /// The weight of `destroy_derivative`.
    fn destroy_derivative() -> Weight;
}

/// Fixed weights for tests.
pub struct TestWeightInfo;

impl WeightInfo for TestWeightInfo {
    fn create_derivative() -> (r: Weight)
        ensures
            r == (Weight { ref_time: 100_000_000, proof_size: 0 }),
    {
        Weight::from_parts(100_000_000, 0)
    }

    fn destroy_derivative() -> (r: Weight)
        ensures
            r == (Weight { ref_time: 100_000_000, proof_size: 0 }),
    {
        Weight::from_parts(100_000_000, 0)
    }
}

/// Asset operations that refuse every creation and destruction with
/// `BadOrigin`.
pub struct DerivativeErrOps<Id>(pub PhantomData<Id>);

impl<Id> AssetDefinition for DerivativeErrOps<Id> {
    type Id = Id;
}

impl<D, S: CreateStrategy> Create<S> for DerivativeErrOps<D> {
    fn create(_strategy: S) -> (r: Result<S::Success, DispatchError>)
        ensures
            r == Err::<S::Success, DispatchError>(DispatchError::BadOrigin),
    {
        Err(DispatchError::BadOrigin)
    }
}

impl<D, S: DestroyStrategy> Destroy<S> for DerivativeErrOps<D> {
    fn destroy(_id: &Self::Id, _strategy: S) -> (r: Result<S::Success, DispatchError>)
        ensures
            r == Err::<S::Success, DispatchError>(DispatchError::BadOrigin),
    {
        Err(DispatchError::BadOrigin)
    }
}

} // verus!
