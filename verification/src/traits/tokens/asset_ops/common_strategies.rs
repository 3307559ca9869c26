//! The common strategies of asset operations.

use core::marker::PhantomData;
use vstd::prelude::*;

use super::{
    CreateStrategy, DestroyStrategy, IdAssignment, MetadataInspectStrategy,
    MetadataUpdateStrategy, RestoreStrategy, StashStrategy, TransferStrategy,
};

verus! {

/// A strategy that accepts a runtime origin besides the `Inner` strategy:
/// the origin is checked in addition to what `Inner` does. It is any
/// strategy that `Inner` is.
pub struct WithOrigin<RuntimeOrigin, Inner>(pub RuntimeOrigin, pub Inner);

impl<RuntimeOrigin, Inner: MetadataInspectStrategy> MetadataInspectStrategy for WithOrigin<
    RuntimeOrigin,
    Inner,
> {
    type Value = Inner::Value;
}

impl<RuntimeOrigin, Inner: MetadataUpdateStrategy> MetadataUpdateStrategy for WithOrigin<
    RuntimeOrigin,
    Inner,
> {
    type Update<'u> = Inner::Update<'u>;

    type Success = Inner::Success;
}

impl<RuntimeOrigin, Inner: CreateStrategy> CreateStrategy for WithOrigin<RuntimeOrigin, Inner> {
    type Success = Inner::Success;
}

impl<RuntimeOrigin, Inner: TransferStrategy> TransferStrategy for WithOrigin<RuntimeOrigin, Inner> {
    type Success = Inner::Success;
}

impl<RuntimeOrigin, Inner: DestroyStrategy> DestroyStrategy for WithOrigin<RuntimeOrigin, Inner> {
    type Success = Inner::Success;
}

impl<RuntimeOrigin, Inner: StashStrategy> StashStrategy for WithOrigin<RuntimeOrigin, Inner> {
    type Success = Inner::Success;
}

impl<RuntimeOrigin, Inner: RestoreStrategy> RestoreStrategy for WithOrigin<RuntimeOrigin, Inner> {
    type Success = Inner::Success;
}

/// The simplest strategy: the operation needs no additional checks. It
/// carries whatever parameters its argument holds (such as a beneficiary).
pub struct JustDo<Params = ()>(pub Params);

impl Default for JustDo<()> {
    fn default() -> (r: Self)
        ensures
            r.0 == (),
    {
        JustDo(())
    }
}

impl<Params> TransferStrategy for JustDo<Params> {
    type Success = ();
}

impl<Params> DestroyStrategy for JustDo<Params> {
    type Success = ();
}

impl<Params> StashStrategy for JustDo<Params> {
    type Success = ();
}

impl<Params> RestoreStrategy for JustDo<Params> {
    type Success = ();
}

/// Raw metadata bytes: inspecting gives `Vec<u8>`, updating takes
/// `Option<&[u8]>` where `None` removes the data. `Request` identifies which
/// bytes of the asset are meant.
pub struct Bytes<Request = ()>(pub Request);

impl Default for Bytes<()> {
    fn default() -> (r: Self)
        ensures
            r.0 == (),
    {
        Bytes(())
    }
}

impl<Request> MetadataInspectStrategy for Bytes<Request> {
    type Value = Vec<u8>;
}

impl<Request> MetadataUpdateStrategy for Bytes<Request> {
    type Update<'u> = Option<&'u [u8]>;

    type Success = ();
}

/// Inspecting the owner of an asset.
pub struct Ownership<Owner>(PhantomData<Owner>);

impl<Owner> Default for Ownership<Owner> {
    fn default() -> Self {
        Ownership(PhantomData)
    }
}

impl<Owner> MetadataInspectStrategy for Ownership<Owner> {
    type Value = Owner;
}

/// The ability to create an asset under `Condition`; inspected and updated
/// as a `bool`.
pub struct CanCreate<Condition = ()>(pub Condition);

impl Default for CanCreate<()> {
    fn default() -> (r: Self)
        ensures
            r.0 == (),
    {
        CanCreate(())
    }
}

impl<Condition> MetadataInspectStrategy for CanCreate<Condition> {
    type Value = bool;
}

impl<Condition> MetadataUpdateStrategy for CanCreate<Condition> {
    type Update<'u> = bool;

    type Success = ();
}

/// The ability to transfer an asset under `Condition`; inspected and
/// updated as a `bool`.
pub struct CanTransfer<Condition = ()>(pub Condition);

impl Default for CanTransfer<()> {
    fn default() -> (r: Self)
        ensures
            r.0 == (),
    {
        CanTransfer(())
    }
}

impl<Condition> MetadataInspectStrategy for CanTransfer<Condition> {
    type Value = bool;
}

impl<Condition> MetadataUpdateStrategy for CanTransfer<Condition> {
    type Update<'u> = bool;

    type Success = ();
}

/// The ability to destroy an asset under `Condition`; inspected and updated
/// as a `bool`.
pub struct CanDestroy<Condition = ()>(pub Condition);

impl Default for CanDestroy<()> {
    fn default() -> (r: Self)
        ensures
            r.0 == (),
    {
        CanDestroy(())
    }
}

impl<Condition> MetadataInspectStrategy for CanDestroy<Condition> {
    type Value = bool;
}

impl<Condition> MetadataUpdateStrategy for CanDestroy<Condition> {
    type Update<'u> = bool;

    type Success = ();
}

/// The ability to update the metadata of an asset, of the given `Flavor`;
/// inspected and updated as a `bool`.
pub struct CanUpdateMetadata<Flavor = ()>(pub Flavor);

impl Default for CanUpdateMetadata<()> {
    fn default() -> (r: Self)
        ensures
            r.0 == (),
    {
        CanUpdateMetadata(())
    }
}

impl<Flavor> MetadataInspectStrategy for CanUpdateMetadata<Flavor> {
    type Value = bool;
}

impl<Flavor> MetadataUpdateStrategy for CanUpdateMetadata<Flavor> {
    type Update<'u> = bool;

    type Success = ();
}

/// An identifier assigned by the creation itself, which reports it.
pub type AutoId<ReportedId> = DeriveAndReportId<(), ReportedId>;

/// An identifier given in advance, which the creation reports back.
pub type PredefinedId<Id> = DeriveAndReportId<Id, Id>;

/// An identifier that the creation derives from `params` and reports (for
/// instance the full identifier of an item derived from its collection).
#[derive(Debug, PartialEq, Eq)]
pub struct DeriveAndReportId<Params, ReportedId> {
    /// The parameters the identifier is derived from.
    pub params: Params,
    /// Marks the types the strategy is about.
    pub _phantom: PhantomData<ReportedId>,
}

impl<ReportedId> DeriveAndReportId<(), ReportedId> {
    /// An automatically assigned identifier.
    pub fn auto() -> (r: AutoId<ReportedId>)
        ensures
            r.params == (),
            r == (DeriveAndReportId::<(), ReportedId> { params: (), _phantom: PhantomData }),
    {
        DeriveAndReportId { params: (), _phantom: PhantomData }
    }
}

impl<Params, ReportedId> DeriveAndReportId<Params, ReportedId> {
    /// An identifier derived from `params`.
    pub fn from(params: Params) -> (r: Self)
        ensures
            r.params == params,
            r == (DeriveAndReportId::<Params, ReportedId> { params, _phantom: PhantomData }),
    {
        DeriveAndReportId { params, _phantom: PhantomData }
    }
}

impl<Params, ReportedId> IdAssignment for DeriveAndReportId<Params, ReportedId> {
    type ReportedId = ReportedId;
}

/// Creation of an owned asset, with an identifier assignment, an optional
/// configuration and an optional witness; reports the assigned identifier.
#[derive(Debug, PartialEq, Eq, Clone)]
pub struct Owned<Owner, Assignment: IdAssignment, Config = (), Witness = ()> {
    /// The owner of the new asset.
    pub owner: Owner,
    /// How the new asset's identifier is assigned.
    pub id_assignment: Assignment,
    /// The configuration of the new asset.
    pub config: Config,
    /// The creation witness.
    pub witness: Witness,
}

impl<Owner, Assignment: IdAssignment> Owned<Owner, Assignment, (), ()> {
    /// Creation owned by `owner`, without configuration or witness.
    pub fn new(owner: Owner, id_assignment: Assignment) -> (r: Self)
        ensures
            r.owner == owner,
            r.id_assignment == id_assignment,
            r == (Owned::<Owner, Assignment, (), ()> { owner, id_assignment, config: (), witness: () }),
    {
        Owned { id_assignment, owner, config: (), witness: () }
    }
}

impl<Owner, Assignment: IdAssignment, Config> Owned<Owner, Assignment, Config, ()> {
    /// Creation owned by `owner` with the configuration `config`.
    pub fn new_configured(owner: Owner, id_assignment: Assignment, config: Config) -> (r: Self)
        ensures
            r.owner == owner,
            r.id_assignment == id_assignment,
            r.config == config,
    {
        Owned { id_assignment, owner, config, witness: () }
    }
}

impl<Owner, Assignment: IdAssignment, Config, Witness> CreateStrategy for Owned<
    Owner,
    Assignment,
    Config,
    Witness,
> {
    type Success = Assignment::ReportedId;
}

/// Creation of an asset with an owner and an admin, an identifier
/// assignment, an optional configuration and an optional witness; reports
/// the assigned identifier.
#[derive(Debug, PartialEq, Eq, Clone)]
pub struct Adminable<Account, Assignment: IdAssignment, Config = (), Witness = ()> {
    /// The owner of the new asset.
    pub owner: Account,
    /// The admin of the new asset.
    pub admin: Account,
    /// How the new asset's identifier is assigned.
    pub id_assignment: Assignment,
    /// The configuration of the new asset.
    pub config: Config,
    /// The creation witness.
    pub witness: Witness,
}

impl<Account, Assignment: IdAssignment> Adminable<Account, Assignment, (), ()> {
    /// Creation with an owner and an admin, without configuration or witness.
    pub fn new(id_assignment: Assignment, owner: Account, admin: Account) -> (r: Self)
        ensures
            r.owner == owner,
            r.admin == admin,
            r.id_assignment == id_assignment,
    {
        Adminable { id_assignment, owner, admin, config: (), witness: () }
    }
}

impl<Account, Assignment: IdAssignment, Config> Adminable<Account, Assignment, Config, ()> {
    /// Creation with an owner, an admin and the configuration `config`.
    pub fn new_configured(
        owner: Account,
        admin: Account,
        id_assignment: Assignment,
        config: Config,
    ) -> (r: Self)
        ensures
            r.owner == owner,
            r.admin == admin,
            r.id_assignment == id_assignment,
            r.config == config,
    {
        Adminable { id_assignment, owner, admin, config, witness: () }
    }
}

impl<Account, Assignment: IdAssignment, Config, Witness> CreateStrategy for Adminable<
    Account,
    Assignment,
    Config,
    Witness,
> {
    type Success = Assignment::ReportedId;
}

/// Transfer from the first owner to the second.
pub struct FromTo<Owner>(pub Owner, pub Owner);

impl<Owner> TransferStrategy for FromTo<Owner> {
    type Success = ();
}

/// Destruction or stashing if the asset is owned by the given owner.
pub struct IfOwnedBy<Owner>(pub Owner);

impl<Owner> DestroyStrategy for IfOwnedBy<Owner> {
    type Success = ();
}

impl<Owner> StashStrategy for IfOwnedBy<Owner> {
    type Success = ();
}

/// Restoration if the asset is restorable, with the given parameters (such
/// as the beneficiary).
pub struct IfRestorable<Params>(pub Params);

impl<Params> RestoreStrategy for IfRestorable<Params> {
    type Success = ();
}

/// Destruction with a witness, which the destruction gives back.
pub struct WithWitness<Witness>(pub Witness);

impl<Witness> DestroyStrategy for WithWitness<Witness> {
    type Success = Witness;
}

/// Destruction with a witness if the asset is owned by the given owner.
pub struct IfOwnedByWithWitness<Owner, Witness> {
    /// The expected owner.
    pub owner: Owner,
    /// The destruction witness.
    pub witness: Witness,
}

impl<Owner, Witness> DestroyStrategy for IfOwnedByWithWitness<Owner, Witness> {
    type Success = Witness;
}

} // verus!
