//! The decisions that the NFT pallet's asset operations make before they
//! act on its storage: who the origin acts as, who may transfer or destroy
//! an item, whether an item can be transferred, which attribute namespace a
//! request addresses, how a collection is created, and which attribute
//! update is performed.

use vstd::prelude::*;

use crate::dispatch::{DispatchError, ModuleError, NftsError};

pub mod metadata_strategy;

verus! {

/// Identifies an account.
pub type AccountId = u64;

/// A block number.
pub type BlockNumber = u64;

/// Identifies a collection.
pub type CollectionId = u32;

/// Identifies an item within a collection.
pub type ItemId = u32;

/// An amount of currency.
pub type Balance = u128;

/// The module error of the NFT pallet.
pub open spec fn nfts_error(e: NftsError) -> DispatchError {
    DispatchError::Module(ModuleError::Nfts(e))
}

/// The origin of a call: whether the force origin accepts it, and the
/// signing account if it is signed.
#[derive(Debug, Clone, Copy, PartialEq, Eq, Structural)]
pub struct NftsOrigin {
    /// The force origin check passes for this origin.
    pub is_force: bool,
    /// The account that signed the call, if any.
    pub signer: Option<AccountId>,
}

/// Who an origin acts as: `Some(None)` for the force origin (no checks),
/// `Some(Some(who))` for a signer, `None` for any other origin.
pub open spec fn spec_check_origin(origin: NftsOrigin) -> Result<Option<AccountId>, DispatchError> {
    if origin.is_force {
        Ok(None)
    } else {
        match origin.signer {
            Some(who) => Ok(Some(who)),
            None => Err(DispatchError::BadOrigin),
        }
    }
}

/// Who an origin acts as: nobody to check for the force origin, the signer
/// for a signed origin; any other origin is refused with `BadOrigin`.
pub fn check_origin(origin: NftsOrigin) -> (r: Result<Option<AccountId>, DispatchError>)
    ensures
        r == spec_check_origin(origin),
{
    if origin.is_force {
        return Ok(None);
    }
    match origin.signer {
        Some(who) => Ok(Some(who)),
        None => Err(DispatchError::BadOrigin),
    }
}

/// Requires the account to be the signer of the origin (a signed origin);
/// refuses any other origin with `BadOrigin`.
pub fn ensure_signed(origin: NftsOrigin) -> (r: Result<AccountId, DispatchError>)
    ensures
        r == match origin.signer {
            Some(who) => Ok::<AccountId, DispatchError>(who),
            None => Err::<AccountId, DispatchError>(DispatchError::BadOrigin),
        },
{
    match origin.signer {
        Some(who) => Ok(who),
        None => Err(DispatchError::BadOrigin),
    }
}

/// Whether `who` may transfer an item owned by `owner`, given `who`'s
/// approval for the item (`None` if not approved; an approval may have a
/// deadline) at block `now`: the owner may; an approved account may until
/// its deadline.
pub open spec fn spec_check_transfer_approval(
    owner: AccountId,
    who: AccountId,
    approval: Option<Option<BlockNumber>>,
    now: BlockNumber,
) -> Result<(), DispatchError> {
    if owner == who {
        Ok(())
    } else {
        match approval {
            None => Err(nfts_error(NftsError::NoPermission)),
            Some(Some(deadline)) => if now <= deadline {
                Ok(())
            } else {
                Err(nfts_error(NftsError::ApprovalExpired))
            },
            Some(None) => Ok(()),
        }
    }
}

/// Checks that `who` may transfer an item owned by `owner`; see
/// `spec_check_transfer_approval`.
pub fn check_transfer_approval(
    owner: AccountId,
    who: AccountId,
    approval: Option<Option<BlockNumber>>,
    now: BlockNumber,
) -> (r: Result<(), DispatchError>)
    ensures
        r == spec_check_transfer_approval(owner, who, approval, now),
{
    if owner != who {
        let deadline = match approval {
            Some(d) => d,
            None => {
                return Err(DispatchError::Module(ModuleError::Nfts(NftsError::NoPermission)));
            },
        };
        if let Some(d) = deadline {
            if !(now <= d) {
                return Err(DispatchError::Module(ModuleError::Nfts(NftsError::ApprovalExpired)));
            }
        }
    }
    Ok(())
}

/// Checks that `who` owns an item owned by `owner`; `NoPermission` if not.
pub fn check_owner(owner: AccountId, who: AccountId) -> (r: Result<(), DispatchError>)
    ensures
        r == if owner == who {
            Ok::<(), DispatchError>(())
        } else {
            Err::<(), DispatchError>(nfts_error(NftsError::NoPermission))
        },
{
    if owner == who {
        Ok(())
    } else {
        Err(DispatchError::Module(ModuleError::Nfts(NftsError::NoPermission)))
    }
}

/// Checks that an item owned by `owner` may be destroyed by the account
/// that the origin acts as (`None`: no check).
pub fn check_destroy(owner: AccountId, maybe_check_origin: Option<AccountId>) -> (r: Result<(), DispatchError>)
    ensures
        r == match maybe_check_origin {
            Some(who) => if owner == who {
                Ok::<(), DispatchError>(())
            } else {
                Err::<(), DispatchError>(nfts_error(NftsError::NoPermission))
            },
            None => Ok::<(), DispatchError>(()),
        },
{
    match maybe_check_origin {
        Some(who) => check_owner(owner, who),
        None => Ok(()),
    }
}

/// A collection setting, as its bit among the disabled settings.
pub enum CollectionSetting {
    /// Items in this collection are transferable.
    TransferableItems,
    /// The metadata of this collection can be modified.
    UnlockedMetadata,
    /// Attributes of this collection can be modified.
    UnlockedAttributes,
    /// The supply of this collection can be modified.
    UnlockedMaxSupply,
    /// When this isn't set then the deposit is required to hold the items.
    DepositRequired,
}

/// The bit of a collection setting.
pub open spec fn spec_collection_setting_bit(s: CollectionSetting) -> u64 {
    match s {
        CollectionSetting::TransferableItems => 1,
        CollectionSetting::UnlockedMetadata => 2,
        CollectionSetting::UnlockedAttributes => 4,
        CollectionSetting::UnlockedMaxSupply => 8,
        CollectionSetting::DepositRequired => 16,
    }
}

/// The bit of a collection setting.
pub fn collection_setting_bit(s: CollectionSetting) -> (r: u64)
    ensures
        r == spec_collection_setting_bit(s),
{
    match s {
        CollectionSetting::TransferableItems => 1,
        CollectionSetting::UnlockedMetadata => 2,
        CollectionSetting::UnlockedAttributes => 4,
        CollectionSetting::UnlockedMaxSupply => 8,
        CollectionSetting::DepositRequired => 16,
    }
}

/// An item setting, as its bit among the disabled settings.
pub enum ItemSetting {
    /// This item is transferable.
    Transferable,
    /// The metadata of this item can be modified.
    UnlockedMetadata,
    /// Attributes of this item can be modified.
    UnlockedAttributes,
}

/// The bit of an item setting.
pub open spec fn spec_item_setting_bit(s: ItemSetting) -> u64 {
    match s {
        ItemSetting::Transferable => 1,
        ItemSetting::UnlockedMetadata => 2,
        ItemSetting::UnlockedAttributes => 4,
    }
}

/// The bit of an item setting.
pub fn item_setting_bit(s: ItemSetting) -> (r: u64)
    ensures
        r == spec_item_setting_bit(s),
{
    match s {
        ItemSetting::Transferable => 1,
        ItemSetting::UnlockedMetadata => 2,
        ItemSetting::UnlockedAttributes => 4,
    }
}

/// The configuration of a collection: the settings it disables.
#[derive(Debug, Clone, Copy, PartialEq, Eq, Structural)]
pub struct CollectionConfig {
    /// The disabled settings, one bit each.
    pub disabled_settings: u64,
}

impl CollectionConfig {
    /// Whether the setting is enabled (its bit is not among the disabled).
    pub fn is_setting_enabled(&self, s: CollectionSetting) -> (r: bool)
        ensures
            r == (self.disabled_settings & spec_collection_setting_bit(s) == 0),
    {
        self.disabled_settings & collection_setting_bit(s) == 0
    }

    /// Whether the setting is disabled.
    pub fn has_disabled_setting(&self, s: CollectionSetting) -> (r: bool)
        ensures
            r == (self.disabled_settings & spec_collection_setting_bit(s) != 0),
    {
        self.disabled_settings & collection_setting_bit(s) != 0
    }
}

/// The configuration of an item: the settings it disables.
#[derive(Debug, Clone, Copy, PartialEq, Eq, Structural)]
pub struct ItemConfig {
    /// The disabled settings, one bit each.
    pub disabled_settings: u64,
}

impl ItemConfig {
    /// Whether the setting is enabled (its bit is not among the disabled).
    pub fn is_setting_enabled(&self, s: ItemSetting) -> (r: bool)
        ensures
            r == (self.disabled_settings & spec_item_setting_bit(s) == 0),
    {
        self.disabled_settings & item_setting_bit(s) == 0
    }
}

/// Whether an item can be transferred: not if the pallet has disabled its
/// transfer (`transfer_disabled`, a lookup that may fail, counting as not
/// disabled); otherwise only if both its collection's and its own
/// configuration exist and allow transfers.
pub open spec fn spec_can_transfer(
    transfer_disabled: Result<bool, DispatchError>,
    collection_config: Option<CollectionConfig>,
    item_config: Option<ItemConfig>,
) -> bool {
    if transfer_disabled == Ok::<bool, DispatchError>(true) {
        false
    } else {
        match (collection_config, item_config) {
            (Some(cc), Some(ic)) => cc.disabled_settings & spec_collection_setting_bit(
                CollectionSetting::TransferableItems,
            ) == 0 && ic.disabled_settings & spec_item_setting_bit(ItemSetting::Transferable) == 0,
            _ => false,
        }
    }
}

/// Whether an item can be transferred; see `spec_can_transfer`.
pub fn can_transfer(
    transfer_disabled: Result<bool, DispatchError>,
    collection_config: Option<CollectionConfig>,
    item_config: Option<ItemConfig>,
) -> (r: bool)
    ensures
        r == spec_can_transfer(transfer_disabled, collection_config, item_config),
{
    match transfer_disabled {
        Ok(true) => {
            return false;
        },
        _ => {},
    }
    match (collection_config, item_config) {
        (Some(cc), Some(ic)) => cc.is_setting_enabled(CollectionSetting::TransferableItems)
            && ic.is_setting_enabled(ItemSetting::Transferable),
        _ => false,
    }
}

/// The key under which the pallet records that an item's transfer is
/// disabled: the encoding of that pallet attribute (its variant index).
pub fn transfer_disabled_key() -> (r: Vec<u8>)
    ensures
        r@ == seq![1u8],
{
    let mut v: Vec<u8> = Vec::new();
    v.push(1u8);
    v
}

/// Setting whether an item can be transferred (`update`): allowing
/// transfers removes the lock attribute; forbidding them sets it to empty
/// bytes, which is refused for an item that is already locked
/// (`ItemLocked`), the lookup's own error being passed on. The result names
/// whether the lock attribute is set (`true`) or removed (`false`); the
/// lookup is only made to lock.
pub open spec fn spec_can_transfer_update(
    update: bool,
    transfer_disabled: Result<bool, DispatchError>,
) -> Result<bool, DispatchError> {
    if !update {
        match transfer_disabled {
            Err(e) => Err(e),
            Ok(true) => Err(nfts_error(NftsError::ItemLocked)),
            Ok(false) => Ok(true),
        }
    } else {
        Ok(false)
    }
}

/// Decides an update of an item's ability to be transferred; see
/// `spec_can_transfer_update`. `Ok(true)`: set the lock attribute;
/// `Ok(false)`: remove it.
pub fn can_transfer_update(update: bool, transfer_disabled: Result<bool, DispatchError>) -> (r: Result<bool, DispatchError>)
    ensures
        r == spec_can_transfer_update(update, transfer_disabled),
{
    if !update {
        let disabled = match transfer_disabled {
            Ok(d) => d,
            Err(e) => {
                return Err(e);
            },
        };
        if disabled {
            return Err(DispatchError::Module(ModuleError::Nfts(NftsError::ItemLocked)));
        }
    }
    Ok(!update)
}

/// Once an update of an item's ability to be transferred succeeds, and the
/// configurations of its collection and of the item allow transfers,
/// inspecting the ability gives what the update set.
pub proof fn transfer_update_then_inspect(
    update: bool,
    transfer_disabled: Result<bool, DispatchError>,
    collection_config: CollectionConfig,
    item_config: ItemConfig,
)
    requires
        spec_can_transfer_update(update, transfer_disabled) is Ok,
        collection_config.disabled_settings & spec_collection_setting_bit(CollectionSetting::TransferableItems) == 0,
        item_config.disabled_settings & spec_item_setting_bit(ItemSetting::Transferable) == 0,
    ensures
        spec_can_transfer(
            Ok(spec_can_transfer_update(update, transfer_disabled)->Ok_0),
            Some(collection_config),
            Some(item_config),
        ) == update,
{
}

/// The namespace of an attribute.
#[derive(Debug, Clone, Copy, PartialEq, Eq, Structural)]
pub enum AttributeNamespace {
    /// An attribute that the pallet sets.
    Pallet,
    /// An attribute that the collection owner sets.
    CollectionOwner,
    /// An attribute that the item owner sets.
    ItemOwner,
    /// An attribute that an account sets.
    Account(AccountId),
}

/// The namespace of an account's custom attribute of an item: the item
/// owner's namespace if the account owns the item, the account's own
/// namespace otherwise.
pub fn custom_attribute_namespace(account: AccountId, owns_item: bool) -> (r: AttributeNamespace)
    ensures
        r == if owns_item {
            AttributeNamespace::ItemOwner
        } else {
            AttributeNamespace::Account(account)
        },
{
    if owns_item {
        AttributeNamespace::ItemOwner
    } else {
        AttributeNamespace::Account(account)
    }
}

/// The bytes, if they fit the bound `limit`; `IncorrectData` otherwise.
pub fn bounded_bytes(bytes: &[u8], limit: u32) -> (r: Result<Vec<u8>, DispatchError>)
    ensures
        bytes@.len() <= limit ==> (r matches Ok(v) && v@ == bytes@),
        bytes@.len() > limit ==> r == Err::<Vec<u8>, DispatchError>(nfts_error(NftsError::IncorrectData)),
{
    if bytes.len() as u64 <= limit as u64 {
        Ok(vstd::slice::slice_to_vec(bytes))
    } else {
        Err(DispatchError::Module(ModuleError::Nfts(NftsError::IncorrectData)))
    }
}

/// The value stored for an asset, or the given error if there is none.
pub fn found_or<T>(found: Option<T>, missing: NftsError) -> (r: Result<T, DispatchError>)
    ensures
        r == match found {
            Some(v) => Ok::<T, DispatchError>(v),
            None => Err::<T, DispatchError>(nfts_error(missing)),
        },
{
    match found {
        Some(v) => Ok(v),
        None => Err(DispatchError::Module(ModuleError::Nfts(missing))),
    }
}

/// The identifier of the next collection: the stored next identifier, else
/// the initial identifier; `UnknownCollection` if there is neither.
pub fn next_collection_id(stored: Option<CollectionId>, initial: Option<CollectionId>) -> (r: Result<CollectionId, DispatchError>)
    ensures
        r == match stored {
            Some(c) => Ok::<CollectionId, DispatchError>(c),
            None => match initial {
                Some(c) => Ok::<CollectionId, DispatchError>(c),
                None => Err::<CollectionId, DispatchError>(nfts_error(NftsError::UnknownCollection)),
            },
        },
{
    match stored {
        Some(c) => Ok(c),
        None => match initial {
            Some(c) => Ok(c),
            None => Err(DispatchError::Module(ModuleError::Nfts(NftsError::UnknownCollection))),
        },
    }
}

/// Creating a collection on behalf of an origin: the force origin creates
/// any collection without a deposit; otherwise the creating origin's check
/// (`create_origin`, its signer or its error) must pass, the signer must be
/// the collection's owner, and the configuration must not disable the
/// deposit; then the collection deposit is taken. The result is the deposit.
pub open spec fn spec_collection_creation_deposit(
    is_force: bool,
    create_origin: Result<AccountId, DispatchError>,
    owner: AccountId,
    config: CollectionConfig,
    collection_deposit: Balance,
) -> Result<Balance, DispatchError> {
    if is_force {
        Ok(0)
    } else {
        match create_origin {
            Err(e) => Err(e),
            Ok(signer) => if signer != owner {
                Err(nfts_error(NftsError::NoPermission))
            } else if config.disabled_settings & spec_collection_setting_bit(
                CollectionSetting::DepositRequired,
            ) != 0 {
                Err(nfts_error(NftsError::WrongSetting))
            } else {
                Ok(collection_deposit)
            },
        }
    }
}

/// Decides the deposit of a collection created on behalf of an origin; see
/// `spec_collection_creation_deposit`.
pub fn collection_creation_deposit(
    is_force: bool,
    create_origin: Result<AccountId, DispatchError>,
    owner: AccountId,
    config: CollectionConfig,
    collection_deposit: Balance,
) -> (r: Result<Balance, DispatchError>)
    ensures
        r == spec_collection_creation_deposit(is_force, create_origin, owner, config, collection_deposit),
{
    if is_force {
        return Ok(0);
    }
    let signer = match create_origin {
        Ok(s) => s,
        Err(e) => {
            return Err(e);
        },
    };
    if signer != owner {
        return Err(DispatchError::Module(ModuleError::Nfts(NftsError::NoPermission)));
    }
    if config.has_disabled_setting(CollectionSetting::DepositRequired) {
        return Err(DispatchError::Module(ModuleError::Nfts(NftsError::WrongSetting)));
    }
    Ok(collection_deposit)
}

/// A collection to be created: its identifier, owner, admin, configuration
/// and the deposit taken from the owner. The identifier is also the one from
/// which the next collection identifier is advanced once it is created.
#[derive(Debug, Clone, Copy, PartialEq, Eq, Structural)]
pub struct CollectionCreation {
    /// The identifier of the new collection.
    pub collection: CollectionId,
    /// The owner, who pays the deposit.
    pub owner: AccountId,
    /// The admin.
    pub admin: AccountId,
    /// The configuration.
    pub config: CollectionConfig,
    /// The deposit taken from the owner.
    pub deposit: Balance,
}

/// The creation of a collection by `owner` with `admin` and `config`: the
/// collection takes the next identifier (the stored one, else the initial
/// one; `UnknownCollection` if neither) and the collection deposit.
pub open spec fn spec_collection_creation(
    stored: Option<CollectionId>,
    initial: Option<CollectionId>,
    owner: AccountId,
    admin: AccountId,
    config: CollectionConfig,
    collection_deposit: Balance,
) -> Result<CollectionCreation, DispatchError> {
    match stored {
        Some(c) => Ok(CollectionCreation { collection: c, owner, admin, config, deposit: collection_deposit }),
        None => match initial {
            Some(c) => Ok(CollectionCreation { collection: c, owner, admin, config, deposit: collection_deposit }),
            None => Err(nfts_error(NftsError::UnknownCollection)),
        },
    }
}

/// Plans the creation of a collection without checks; see
/// `spec_collection_creation`.
pub fn collection_creation(
    stored: Option<CollectionId>,
    initial: Option<CollectionId>,
    owner: AccountId,
    admin: AccountId,
    config: CollectionConfig,
    collection_deposit: Balance,
) -> (r: Result<CollectionCreation, DispatchError>)
    ensures
        r == spec_collection_creation(stored, initial, owner, admin, config, collection_deposit),
{
    match next_collection_id(stored, initial) {
        Ok(collection) => Ok(CollectionCreation { collection, owner, admin, config, deposit: collection_deposit }),
        Err(e) => Err(e),
    }
}

/// The creation of a collection by the collection asset's origin-checked
/// creation: the next identifier is found first (it is what the creating origin is checked against), then
/// the origin and the deposit are decided (see
/// `spec_collection_creation_deposit`).
pub open spec fn spec_checked_collection_creation(
    stored: Option<CollectionId>,
    initial: Option<CollectionId>,
    is_force: bool,
    create_origin: Result<AccountId, DispatchError>,
    owner: AccountId,
    admin: AccountId,
    config: CollectionConfig,
    collection_deposit: Balance,
) -> Result<CollectionCreation, DispatchError> {
    match spec_collection_creation(stored, initial, owner, admin, config, collection_deposit) {
        Err(e) => Err(e),
        Ok(c) => match spec_collection_creation_deposit(is_force, create_origin, owner, config, collection_deposit) {
            Err(e) => Err(e),
            Ok(deposit) => Ok(CollectionCreation { deposit, ..c }),
        },
    }
}

/// Plans the creation of a collection on behalf of an origin; see
/// `spec_checked_collection_creation`. `create_origin` is the creating
/// origin's check against the collection's identifier.
pub fn checked_collection_creation(
    stored: Option<CollectionId>,
    initial: Option<CollectionId>,
    is_force: bool,
    create_origin: Result<AccountId, DispatchError>,
    owner: AccountId,
    admin: AccountId,
    config: CollectionConfig,
    collection_deposit: Balance,
) -> (r: Result<CollectionCreation, DispatchError>)
    ensures
        r == spec_checked_collection_creation(
            stored,
            initial,
            is_force,
            create_origin,
            owner,
            admin,
            config,
            collection_deposit,
        ),
{
    let c = match collection_creation(stored, initial, owner, admin, config, collection_deposit) {
        Ok(c) => c,
        Err(e) => {
            return Err(e);
        },
    };
    match collection_creation_deposit(is_force, create_origin, owner, config, collection_deposit) {
        Ok(deposit) => Ok(CollectionCreation { deposit, ..c }),
        Err(e) => Err(e),
    }
}

/// The creation of a collection through the pallet's own origin-checked
/// creation: the next identifier is found first, then a creating origin
/// other than the force origin must be the owner and must not disable the
/// deposit; once the checks pass, the creation is the creation without
/// checks, deposit included, whatever the origin.
pub open spec fn spec_pallet_checked_collection_creation(
    stored: Option<CollectionId>,
    initial: Option<CollectionId>,
    is_force: bool,
    create_origin: Result<AccountId, DispatchError>,
    owner: AccountId,
    admin: AccountId,
    config: CollectionConfig,
    collection_deposit: Balance,
) -> Result<CollectionCreation, DispatchError> {
    match spec_collection_creation(stored, initial, owner, admin, config, collection_deposit) {
        Err(e) => Err(e),
        Ok(c) => match spec_collection_creation_deposit(is_force, create_origin, owner, config, collection_deposit) {
            Err(e) => Err(e),
            Ok(_) => Ok(c),
        },
    }
}

/// Plans a creation through the pallet's origin-checked creation; see
/// `spec_pallet_checked_collection_creation`.
pub fn pallet_checked_collection_creation(
    stored: Option<CollectionId>,
    initial: Option<CollectionId>,
    is_force: bool,
    create_origin: Result<AccountId, DispatchError>,
    owner: AccountId,
    admin: AccountId,
    config: CollectionConfig,
    collection_deposit: Balance,
) -> (r: Result<CollectionCreation, DispatchError>)
    ensures
        r == spec_pallet_checked_collection_creation(
            stored,
            initial,
            is_force,
            create_origin,
            owner,
            admin,
            config,
            collection_deposit,
        ),
{
    let c = match collection_creation(stored, initial, owner, admin, config, collection_deposit) {
        Ok(c) => c,
        Err(e) => {
            return Err(e);
        },
    };
    match collection_creation_deposit(is_force, create_origin, owner, config, collection_deposit) {
        Ok(_) => Ok(c),
        Err(e) => Err(e),
    }
}

/// A creation through the pallet's origin-checked creation that passes its
/// checks is the creation without checks, for every origin.
pub proof fn pallet_checked_creation_is_unchecked_creation(
    stored: Option<CollectionId>,
    initial: Option<CollectionId>,
    is_force: bool,
    create_origin: Result<AccountId, DispatchError>,
    owner: AccountId,
    admin: AccountId,
    config: CollectionConfig,
    collection_deposit: Balance,
)
    requires
        spec_pallet_checked_collection_creation(
            stored,
            initial,
            is_force,
            create_origin,
            owner,
            admin,
            config,
            collection_deposit,
        ) is Ok,
    ensures
        spec_pallet_checked_collection_creation(
            stored,
            initial,
            is_force,
            create_origin,
            owner,
            admin,
            config,
            collection_deposit,
        ) == spec_collection_creation(stored, initial, owner, admin, config, collection_deposit),
{
}

/// The result of creating a collection once the pallet has stored it
/// (`stored`, the pallet's outcome): the new collection's identifier.
pub fn collection_created(plan: CollectionCreation, stored: Result<(), DispatchError>) -> (r: Result<CollectionId, DispatchError>)
    ensures
        r == match stored {
            Ok(()) => Ok::<CollectionId, DispatchError>(plan.collection),
            Err(e) => Err::<CollectionId, DispatchError>(e),
        },
{
    match stored {
        Ok(()) => Ok(plan.collection),
        Err(e) => Err(e),
    }
}

/// A creation on behalf of a signer that passes the checks is the creation
/// without checks; the force origin's is the same but for the deposit,
/// which is none.
pub proof fn checked_creation_is_unchecked_creation(
    stored: Option<CollectionId>,
    initial: Option<CollectionId>,
    is_force: bool,
    create_origin: Result<AccountId, DispatchError>,
    owner: AccountId,
    admin: AccountId,
    config: CollectionConfig,
    collection_deposit: Balance,
)
    requires
        spec_checked_collection_creation(
            stored,
            initial,
            is_force,
            create_origin,
            owner,
            admin,
            config,
            collection_deposit,
        ) is Ok,
    ensures
        !is_force ==> spec_checked_collection_creation(
            stored,
            initial,
            is_force,
            create_origin,
            owner,
            admin,
            config,
            collection_deposit,
        ) == spec_collection_creation(stored, initial, owner, admin, config, collection_deposit),
        is_force ==> spec_checked_collection_creation(
            stored,
            initial,
            is_force,
            create_origin,
            owner,
            admin,
            config,
            collection_deposit,
        ) == spec_collection_creation(stored, initial, owner, admin, config, 0),
{
}

/// The update of an item's regular attribute that a request makes.
#[derive(Debug, Clone, PartialEq, Eq)]
pub enum AttributeUpdate {
    /// The signer sets the attribute in the collection owner's namespace.
    SetByOwner { who: AccountId, namespace: AttributeNamespace, value: Vec<u8>, collection_owner: AccountId },
    /// The attribute is set in the pallet's namespace without checks.
    ForceSet { namespace: AttributeNamespace, value: Vec<u8> },
    /// The attribute is cleared in the pallet's namespace, checked against
    /// the account if any.
    Clear { maybe_check_origin: Option<AccountId>, namespace: AttributeNamespace },
}

/// Decides how a request of `maybe_check_origin` sets (`Some`) or clears
/// (`None`) an item's regular attribute: a signer sets it as the collection
/// owner's attribute (the collection must exist: `collection_owner`), the
/// force origin sets it as the pallet's; clearing addresses the pallet's.
pub fn regular_attribute_update(
    maybe_check_origin: Option<AccountId>,
    update: Option<Vec<u8>>,
    collection_owner: Option<AccountId>,
) -> (r: Result<AttributeUpdate, DispatchError>)
    ensures
        r == match (maybe_check_origin, update) {
            (Some(who), Some(value)) => match collection_owner {
                Some(o) => Ok::<AttributeUpdate, DispatchError>(AttributeUpdate::SetByOwner {
                    who,
                    namespace: AttributeNamespace::CollectionOwner,
                    value,
                    collection_owner: o,
                }),
                None => Err::<AttributeUpdate, DispatchError>(nfts_error(NftsError::UnknownCollection)),
            },
            (None, Some(value)) => Ok::<AttributeUpdate, DispatchError>(AttributeUpdate::ForceSet {
                namespace: AttributeNamespace::Pallet,
                value,
            }),
            (m, None) => Ok::<AttributeUpdate, DispatchError>(AttributeUpdate::Clear {
                maybe_check_origin: m,
                namespace: AttributeNamespace::Pallet,
            }),
        },
{
    match (maybe_check_origin, update) {
        (Some(who), Some(value)) => match collection_owner {
            Some(o) => Ok(AttributeUpdate::SetByOwner {
                who,
                namespace: AttributeNamespace::CollectionOwner,
                value,
                collection_owner: o,
            }),
            None => Err(DispatchError::Module(ModuleError::Nfts(NftsError::UnknownCollection))),
        },
        (None, Some(value)) => Ok(AttributeUpdate::ForceSet { namespace: AttributeNamespace::Pallet, value }),
        (m, None) => Ok(AttributeUpdate::Clear { maybe_check_origin: m, namespace: AttributeNamespace::Pallet }),
    }
}

/// Who may transfer an item: its owner always; an account approved without
/// a deadline always; an account approved with a deadline at every block up
/// to and including the deadline, and after it the approval has expired;
/// an account without an approval never.
pub proof fn transfer_approval_law(owner: AccountId, who: AccountId, deadline: BlockNumber, now: BlockNumber)
    ensures
        forall|approval: Option<Option<BlockNumber>>| #[trigger]
            spec_check_transfer_approval(owner, owner, approval, now) == Ok::<(), DispatchError>(()),
        who != owner ==> {
            &&& (now <= deadline <==> spec_check_transfer_approval(owner, who, Some(Some(deadline)), now) is Ok)
            &&& (now > deadline ==> spec_check_transfer_approval(owner, who, Some(Some(deadline)), now)
                == Err::<(), DispatchError>(nfts_error(NftsError::ApprovalExpired)))
            &&& spec_check_transfer_approval(owner, who, Some(None), now) == Ok::<(), DispatchError>(())
            &&& spec_check_transfer_approval(owner, who, None, now) == Err::<(), DispatchError>(
                nfts_error(NftsError::NoPermission),
            )
        },
{
}

/// A successful creation of a collection carries exactly the owner, admin,
/// configuration and deposit that it was asked for, and takes the stored
/// next identifier, or the initial one when none is stored; the creation by
/// the pallet's origin-checked creation carries the same, and the creation
/// by the collection asset's origin-checked creation differs only in
/// charging the force origin nothing.
pub proof fn collection_creation_carries_its_request(
    stored: Option<CollectionId>,
    initial: Option<CollectionId>,
    is_force: bool,
    create_origin: Result<AccountId, DispatchError>,
    owner: AccountId,
    admin: AccountId,
    config: CollectionConfig,
    collection_deposit: Balance,
)
    ensures
        spec_collection_creation(stored, initial, owner, admin, config, collection_deposit) matches Ok(c) ==> {
            &&& c.owner == owner
            &&& c.admin == admin
            &&& c.config == config
            &&& c.deposit == collection_deposit
            &&& c.collection == match stored {
                Some(s) => s,
                None => initial->Some_0,
            }
        },
        (stored is Some || initial is Some) <==> spec_collection_creation(
            stored,
            initial,
            owner,
            admin,
            config,
            collection_deposit,
        ) is Ok,
        spec_pallet_checked_collection_creation(
            stored,
            initial,
            is_force,
            create_origin,
            owner,
            admin,
            config,
            collection_deposit,
        ) matches Ok(c) ==> c.owner == owner && c.admin == admin && c.config == config && c.deposit
            == collection_deposit,
        spec_checked_collection_creation(
            stored,
            initial,
            is_force,
            create_origin,
            owner,
            admin,
            config,
            collection_deposit,
        ) matches Ok(c) ==> c.owner == owner && c.admin == admin && c.config == config && c.deposit == (
        if is_force {
            0
        } else {
            collection_deposit
        }),
{
}

/// Who an origin acts as: the force origin acts without checks, a signed
/// origin as its signer, and any other origin is refused.
pub proof fn origin_law(signer: Option<AccountId>)
    ensures
        spec_check_origin(NftsOrigin { is_force: true, signer }) == Ok::<Option<AccountId>, DispatchError>(None),
        signer matches Some(who) ==> spec_check_origin(NftsOrigin { is_force: false, signer })
            == Ok::<Option<AccountId>, DispatchError>(Some(who)),
        signer is None ==> spec_check_origin(NftsOrigin { is_force: false, signer }) == Err::<
            Option<AccountId>,
            DispatchError,
        >(DispatchError::BadOrigin),
{
}

/// An item can be transferred exactly when its transfer is not locked and
/// both its collection and the item exist with transfers enabled; a lookup
/// of the lock that fails does not forbid it.
pub proof fn can_transfer_law(
    transfer_disabled: Result<bool, DispatchError>,
    collection_config: Option<CollectionConfig>,
    item_config: Option<ItemConfig>,
)
    ensures
        spec_can_transfer(transfer_disabled, collection_config, item_config) <==> {
            &&& transfer_disabled != Ok::<bool, DispatchError>(true)
            &&& collection_config matches Some(cc)
            &&& cc.disabled_settings & 1 == 0
            &&& item_config matches Some(ic)
            &&& ic.disabled_settings & 1 == 0
        },
{
}

/// The deposit of a collection created through an origin check: the force
/// origin pays nothing and is never refused; otherwise the origin check's
/// error comes first, then a signer other than the owner is refused, then a
/// configuration without the deposit is refused, and the owner pays the
/// collection deposit.
pub proof fn creation_deposit_law(
    is_force: bool,
    create_origin: Result<AccountId, DispatchError>,
    owner: AccountId,
    config: CollectionConfig,
    collection_deposit: Balance,
)
    ensures
        is_force ==> spec_collection_creation_deposit(is_force, create_origin, owner, config, collection_deposit)
            == Ok::<Balance, DispatchError>(0),
        !is_force ==> match create_origin {
            Err(e) => spec_collection_creation_deposit(is_force, create_origin, owner, config, collection_deposit)
                == Err::<Balance, DispatchError>(e),
            Ok(signer) => spec_collection_creation_deposit(
                is_force,
                create_origin,
                owner,
                config,
                collection_deposit,
            ) == if signer != owner {
                Err::<Balance, DispatchError>(nfts_error(NftsError::NoPermission))
            } else if config.disabled_settings & 16 != 0 {
                Err::<Balance, DispatchError>(nfts_error(NftsError::WrongSetting))
            } else {
                Ok::<Balance, DispatchError>(collection_deposit)
            },
        },
{
}

} // verus!
