//! A store of preimages of hashes, with requests and deposits.
//!
//! Users and the system store the preimage of a hash; byte blobs are kept
//! under their BLAKE2b-256 hash. A preimage noted by a user is held against a
//! ticket (a deposit or other consideration) until it is requested by the
//! system or the user removes it; requested preimages cost nothing to note.
//!
//! Every operation on a hash first migrates a legacy status of that hash, if
//! one is stored, into the current format.

use vstd::prelude::*;

use crate::dispatch::{DispatchError, ModuleError, PreimageError};
use crate::hashing::{blake2_256, spec_blake2_256};
use crate::table::{Table, TableKey};

verus! {

/// Identifies an account.
pub type AccountId = u64;

/// An amount of currency.
pub type Balance = u128;

/// The hash of a preimage.
pub type Hash = [u8; 32];

/// Maximum size of preimage we can store is 4mb.
pub const MAX_SIZE: u32 = 4 * 1024 * 1024;

/// Hard-limit on the number of hashes that can be passed to `ensure_updated`.
pub const MAX_HASH_UPGRADE_BULK_COUNT: u32 = 1024;

/// The amount of storage that a stored item takes: a count of items and
/// their total size in bytes.
#[derive(Debug, Clone, Copy, PartialEq, Eq, Structural)]
pub struct Footprint {
    /// The number of items.
    pub count: u64,
    /// The total size of the items in bytes.
    pub size: u64,
}

impl Footprint {
    /// The footprint of `items` items of total length `len`.
    pub fn from_parts(items: u64, len: u64) -> (r: Footprint)
        ensures
            r == (Footprint { count: items, size: len }),
    {
        Footprint { count: items, size: len }
    }
}

/// What the store needs from the outside: tickets that hold a cost while
/// data is stored, and the release of reserved currency.
pub trait Config {
    /// A means of providing some cost while data is stored.
    type Ticket;

    /// Takes the cost of storing `footprint` from `who`, or fails.
    fn new_ticket(who: &AccountId, footprint: Footprint) -> Result<Self::Ticket, DispatchError>;

    /// Gives back the cost held by `ticket` to `who`.
    fn drop_ticket(ticket: Self::Ticket, who: &AccountId) -> Result<(), DispatchError>;

    /// Releases `amount` of `who`'s reserved currency; returns the amount that
    /// could not be released.
    fn unreserve(who: &AccountId, amount: Balance) -> Balance;
}

/// The request status of a hash, in the legacy format with currency deposits.
#[derive(Debug, Clone, Copy, PartialEq, Eq)]
pub enum OldRequestStatus {
    /// Noted by a user and not requested; the deposit is held.
    Unrequested { deposit: (AccountId, Balance), len: u32 },
    /// Requested `count` times; `len` is the length of the preimage if noted.
    Requested { deposit: Option<(AccountId, Balance)>, count: u32, len: Option<u32> },
}

/// The request status of a hash.
pub enum RequestStatus<Ticket> {
    /// The associated preimage has not yet been requested by the system. The
    /// given ticket is held until either it becomes requested or the user
    /// retracts the preimage.
    Unrequested { ticket: (AccountId, Ticket), len: u32 },
    /// There are a non-zero number of outstanding requests for this hash. If
    /// there is a preimage registered, then `maybe_len` is `Some` and it may
    /// be removed iff this counter becomes zero.
    Requested { maybe_ticket: Option<(AccountId, Ticket)>, count: u32, maybe_len: Option<u32> },
}

/// An event of the store.
#[derive(Debug, Clone, Copy, PartialEq, Eq)]
pub enum Event {
    /// A preimage has been noted.
    Noted { hash: Hash },
    /// A preimage has been requested.
    Requested { hash: Hash },
    /// A preimage has been cleared.
    Cleared { hash: Hash },
}

/// Whether the sender of a call pays a fee for it.
#[derive(Debug, Clone, Copy, PartialEq, Eq, Structural)]
pub enum Pays {
    /// The sender pays.
    Yes,
    /// The sender does not pay.
    No,
}

/// The origin of a call: whether the manager origin accepts it, and the
/// signing account if it is signed.
#[derive(Debug, Clone, Copy, PartialEq, Eq, Structural)]
pub struct CallOrigin {
    /// The manager origin check passes for this origin.
    pub is_manager: bool,
    /// The account that signed the call, if any.
    pub signer: Option<AccountId>,
}

/// The key under which a preimage is stored: its hash and its length.
#[derive(Debug, Clone, Copy, PartialEq, Eq)]
pub struct PreimageKey {
    /// The hash of the preimage.
    pub hash: Hash,
    /// The length of the preimage.
    pub len: u32,
}

impl TableKey for PreimageKey {
    fn key_eq(&self, other: &Self) -> (r: bool) {
        self.hash.key_eq(&other.hash) && self.len == other.len
    }
}

/// A call that the store made into its `Config`, as the store's ledger
/// records it.
pub enum LedgerOp<Ticket> {
    /// `Config::unreserve` of `amount` of `who`'s reserved currency.
    Unreserve { who: AccountId, amount: Balance },
    /// `Config::new_ticket` for `who` and `footprint`, with what it returned.
    NewTicket { who: AccountId, footprint: Footprint, result: Result<Ticket, DispatchError> },
    /// `Config::drop_ticket` of `ticket`, held by `who`.
    DropTicket { who: AccountId, ticket: Ticket },
}

/// The contents of the store.
#[verifier::ext_equal]
pub struct PreimagesView<Ticket> {
    /// The request status of each hash.
    pub status: Map<Hash, RequestStatus<Ticket>>,
    /// The legacy request status of each hash not yet migrated.
    pub old_status: Map<Hash, OldRequestStatus>,
    /// The stored preimages.
    pub preimages: Map<PreimageKey, Seq<u8>>,
    /// The events emitted so far.
    pub events: Seq<Event>,
    /// The calls made into `Config` so far, in order.
    pub ledger: Seq<LedgerOp<Ticket>>,
}

/// The module error of this store.
pub open spec fn preimage_error(e: PreimageError) -> DispatchError {
    DispatchError::Module(ModuleError::Preimage(e))
}

/// The length a status records for its preimage.
pub open spec fn status_len<Ticket>(s: RequestStatus<Ticket>) -> Option<u32> {
    match s {
        RequestStatus::Unrequested { len, .. } => Some(len),
        RequestStatus::Requested { maybe_len, .. } => maybe_len,
    }
}

/// The length a legacy status records for its preimage.
pub open spec fn old_status_len(s: OldRequestStatus) -> Option<u32> {
    match s {
        OldRequestStatus::Unrequested { len, .. } => Some(len),
        OldRequestStatus::Requested { len, .. } => len,
    }
}

/// A requested status counts at least one request.
pub open spec fn status_count_ok<Ticket>(s: RequestStatus<Ticket>) -> bool {
    match s {
        RequestStatus::Unrequested { .. } => true,
        RequestStatus::Requested { count, .. } => count >= 1,
    }
}

/// A requested legacy status counts at least one request.
pub open spec fn old_status_count_ok(s: OldRequestStatus) -> bool {
    match s {
        OldRequestStatus::Unrequested { .. } => true,
        OldRequestStatus::Requested { count, .. } => count >= 1,
    }
}

/// Whether migrating a legacy status takes a new ticket.
pub open spec fn ticket_needed(o: OldRequestStatus) -> bool {
    match o {
        OldRequestStatus::Unrequested { .. } => true,
        OldRequestStatus::Requested { deposit, len, .. } => deposit is Some && len is Some,
    }
}

/// `s` is what the legacy status `o` becomes: the same kind, count and
/// length, with a ticket of the depositor exactly where a ticket is needed.
pub open spec fn migrated_shape<Ticket>(o: OldRequestStatus, s: RequestStatus<Ticket>) -> bool {
    match o {
        OldRequestStatus::Unrequested { deposit, len } => match s {
            RequestStatus::Unrequested { ticket, len: l } => ticket.0 == deposit.0 && l == len,
            RequestStatus::Requested { .. } => false,
        },
        OldRequestStatus::Requested { deposit, count, len } => match s {
            RequestStatus::Unrequested { .. } => false,
            RequestStatus::Requested { maybe_ticket, count: c, maybe_len } => {
                &&& c == count
                &&& maybe_len == len
                &&& match maybe_ticket {
                    Some(t) => deposit is Some && len is Some && t.0 == deposit->Some_0.0,
                    None => !(deposit is Some && len is Some),
                }
            },
        },
    }
}

/// The footprint that a preimage of length `len` is held against.
pub open spec fn deposit_footprint(len: u32) -> Footprint {
    Footprint { count: 1, size: len as u64 }
}

/// What the last ticket call recorded in `l` returned.
pub open spec fn last_ticket_result<Ticket>(l: Seq<LedgerOp<Ticket>>) -> Result<Ticket, DispatchError> {
    l.last()->NewTicket_result
}

/// `l1` is `l0` followed by one call taking a ticket for `who` and `fp`.
pub open spec fn took_ticket<Ticket>(
    l0: Seq<LedgerOp<Ticket>>,
    l1: Seq<LedgerOp<Ticket>>,
    who: AccountId,
    fp: Footprint,
) -> bool {
    l1 == l0.push(LedgerOp::NewTicket { who, footprint: fp, result: last_ticket_result(l1) })
}

/// The calls into `Config` that migrating the legacy status `o` of `h`
/// makes, from `pre` to `post`: the legacy deposit is unreserved in full to
/// its owner, and a ticket for the recorded length is taken from them; the
/// new status holds exactly that ticket, and if taking it failed the status
/// is left as it was.
pub open spec fn migration_calls<Ticket>(
    o: OldRequestStatus,
    pre: PreimagesView<Ticket>,
    h: Hash,
    post: PreimagesView<Ticket>,
) -> bool {
    match o {
        OldRequestStatus::Unrequested { deposit, len } => {
            let res = last_ticket_result(post.ledger);
            &&& took_ticket(
                pre.ledger.push(LedgerOp::Unreserve { who: deposit.0, amount: deposit.1 }),
                post.ledger,
                deposit.0,
                deposit_footprint(len),
            )
            &&& match res {
                Ok(t) => post.status == pre.status.insert(
                    h,
                    RequestStatus::Unrequested { ticket: (deposit.0, t), len },
                ),
                Err(_) => post.status == pre.status,
            }
        },
        OldRequestStatus::Requested { deposit, count, len } => match deposit {
            None => post.ledger == pre.ledger && post.status == pre.status.insert(
                h,
                RequestStatus::Requested { maybe_ticket: None, count, maybe_len: len },
            ),
            Some(dep) => {
                let unreserved = pre.ledger.push(LedgerOp::Unreserve { who: dep.0, amount: dep.1 });
                match len {
                    None => post.ledger == unreserved && post.status == pre.status.insert(
                        h,
                        RequestStatus::Requested { maybe_ticket: None, count, maybe_len: None },
                    ),
                    Some(l) => {
                        &&& took_ticket(unreserved, post.ledger, dep.0, deposit_footprint(l))
                        &&& match last_ticket_result(post.ledger) {
                            Ok(t) => post.status == pre.status.insert(
                                h,
                                RequestStatus::Requested {
                                    maybe_ticket: Some((dep.0, t)),
                                    count,
                                    maybe_len: Some(l),
                                },
                            ),
                            Err(_) => post.status == pre.status,
                        }
                    },
                }
            },
        },
    }
}

/// `post` is `pre` after the legacy status of `h`, if any, is migrated: the
/// legacy status is removed and the new status takes its shape, or, where
/// taking the new ticket failed, the status is left as it was.
pub open spec fn migrates<Ticket>(
    pre: PreimagesView<Ticket>,
    h: Hash,
    post: PreimagesView<Ticket>,
) -> bool {
    &&& post.old_status == pre.old_status.remove(h)
    &&& post.preimages == pre.preimages
    &&& post.events == pre.events
    &&& if pre.old_status.contains_key(h) {
        ||| (post.status == pre.status.insert(h, post.status[h]) && migrated_shape(
            pre.old_status[h],
            post.status[h],
        ))
        ||| (ticket_needed(pre.old_status[h]) && post.status == pre.status)
    } else {
        post.status == pre.status
    }
    &&& if pre.old_status.contains_key(h) {
        migration_calls(pre.old_status[h], pre, h, post)
    } else {
        post.ledger == pre.ledger
    }
}


/// The status that noting a preimage of length `len` gives a hash whose
/// status was `cur`, when no ticket has to be taken.
pub open spec fn noted_status<Ticket>(cur: Option<RequestStatus<Ticket>>, len: u32) -> RequestStatus<Ticket> {
    match cur {
        Some(RequestStatus::Requested { maybe_ticket, count, .. }) => RequestStatus::Requested {
            maybe_ticket,
            count,
            maybe_len: Some(len),
        },
        Some(RequestStatus::Unrequested { ticket, len: l }) => RequestStatus::Requested {
            maybe_ticket: Some(ticket),
            count: 1,
            maybe_len: Some(l),
        },
        None => RequestStatus::Requested { maybe_ticket: None, count: 1, maybe_len: Some(len) },
    }
}

/// What noting the preimage `p` of `h` by `d` does to a store whose legacy
/// status of `h` is already migrated: `m` before, `f` after, `r` the result.
///
/// A user cannot note a preimage that a user already noted. A preimage that
/// nobody requested is held against a ticket of the depositor (if taking it
/// fails, nothing changes); otherwise its length is recorded with the status.
/// The bytes are stored if they fit `MAX_SIZE`.
pub open spec fn note_spec<Ticket>(
    m: PreimagesView<Ticket>,
    h: Hash,
    p: Seq<u8>,
    d: Option<AccountId>,
    f: PreimagesView<Ticket>,
    r: Result<(bool, Hash), DispatchError>,
) -> bool {
    let len = p.len() as u32;
    let cur = m.status.get(h);
    if d is Some && cur matches Some(RequestStatus::Unrequested { .. }) {
        r == Err::<(bool, Hash), DispatchError>(preimage_error(PreimageError::AlreadyNoted)) && f == m
    } else if d is Some && cur is None && last_ticket_result(f.ledger) is Err {
        &&& took_ticket(m.ledger, f.ledger, d->Some_0, deposit_footprint(len))
        &&& r == Err::<(bool, Hash), DispatchError>(last_ticket_result(f.ledger)->Err_0)
        &&& f.status == m.status
        &&& f.old_status == m.old_status
        &&& f.preimages == m.preimages
        &&& f.events == m.events
    } else {
        &&& r == Ok::<(bool, Hash), DispatchError>((f.status[h] is Requested, h))
        &&& f.status == m.status.insert(h, f.status[h])
        &&& if d is Some && cur is None {
            &&& took_ticket(m.ledger, f.ledger, d->Some_0, deposit_footprint(len))
            &&& last_ticket_result(f.ledger) matches Ok(t)
            &&& f.status[h] == RequestStatus::Unrequested { ticket: (d->Some_0, t), len }
        } else {
            &&& f.ledger == m.ledger
            &&& f.status[h] == noted_status(cur, len)
        }
        &&& f.old_status == m.old_status
        &&& f.preimages == if p.len() <= MAX_SIZE {
            m.preimages.insert(PreimageKey { hash: h, len: p.len() as u32 }, p)
        } else {
            m.preimages
        }
        &&& f.events == m.events.push(Event::Noted { hash: h })
    }
}


/// `c` increased by one, saturating at the largest `u32`.
pub open spec fn saturating_inc(c: u32) -> u32 {
    if c == u32::MAX {
        c
    } else {
        (c + 1) as u32
    }
}

/// The status that requesting a hash gives it, when its status was `cur`.
pub open spec fn requested_status<Ticket>(cur: Option<RequestStatus<Ticket>>) -> RequestStatus<Ticket> {
    match cur {
        Some(RequestStatus::Requested { maybe_ticket, count, maybe_len }) => RequestStatus::Requested {
            maybe_ticket,
            count: saturating_inc(count),
            maybe_len,
        },
        Some(RequestStatus::Unrequested { len, .. }) => RequestStatus::Requested {
            maybe_ticket: None,
            count: 1,
            maybe_len: Some(len),
        },
        None => RequestStatus::Requested { maybe_ticket: None, count: 1, maybe_len: None },
    }
}

/// The calls into `Config` that requesting a hash with status `cur` makes:
/// a user's ticket for a preimage they noted is dropped (their deposit is
/// returned); otherwise none.
pub open spec fn request_ledger<Ticket>(
    cur: Option<RequestStatus<Ticket>>,
    l: Seq<LedgerOp<Ticket>>,
) -> Seq<LedgerOp<Ticket>> {
    match cur {
        Some(RequestStatus::Unrequested { ticket, .. }) => l.push(
            LedgerOp::DropTicket { who: ticket.0, ticket: ticket.1 },
        ),
        _ => l,
    }
}

/// What requesting `h` does to a migrated store `m`, giving `f`: the request
/// is counted, the first request of a hash is announced, and a preimage that
/// a user noted is taken out of their hands, their ticket dropped.
pub open spec fn request_spec<Ticket>(m: PreimagesView<Ticket>, h: Hash, f: PreimagesView<Ticket>) -> bool {
    let s = requested_status(m.status.get(h));
    &&& f.status == m.status.insert(h, s)
    &&& f.ledger == request_ledger(m.status.get(h), m.ledger)
    &&& f.old_status == m.old_status
    &&& f.preimages == m.preimages
    &&& f.events == if s->Requested_count == 1 {
        m.events.push(Event::Requested { hash: h })
    } else {
        m.events
    }
}

/// What clearing a request of `h` does to a migrated store `m`, giving `f`
/// and `r`. Only a requested hash can be unrequested. With more than one
/// request the count goes down; with the last one, a preimage noted by a user
/// goes back to them (unrequested), one noted by the system is cleared, and a
/// hash never noted is forgotten.
pub open spec fn unrequest_spec<Ticket>(
    m: PreimagesView<Ticket>,
    h: Hash,
    f: PreimagesView<Ticket>,
    r: Result<(), DispatchError>,
) -> bool {
    match m.status.get(h) {
        Some(RequestStatus::Requested { maybe_ticket, count, maybe_len }) => {
            &&& r == Ok::<(), DispatchError>(())
            &&& f.old_status == m.old_status
            &&& f.ledger == m.ledger
            &&& if count > 1 {
                &&& f.status == m.status.insert(
                    h,
                    RequestStatus::Requested { maybe_ticket, count: (count - 1) as u32, maybe_len },
                )
                &&& f.preimages == m.preimages
                &&& f.events == m.events
            } else {
                match maybe_len {
                    None => {
                        &&& f.status == m.status.remove(h)
                        &&& f.preimages == m.preimages
                        &&& f.events == m.events
                    },
                    Some(len) => match maybe_ticket {
                        None => {
                            &&& f.status == m.status.remove(h)
                            &&& f.preimages == m.preimages.remove(PreimageKey { hash: h, len })
                            &&& f.events == m.events.push(Event::Cleared { hash: h })
                        },
                        Some(ticket) => {
                            &&& f.status == m.status.insert(h, RequestStatus::Unrequested { ticket, len })
                            &&& f.preimages == m.preimages
                            &&& f.events == m.events
                        },
                    },
                }
            }
        },
        _ => r == Err::<(), DispatchError>(preimage_error(PreimageError::NotRequested)) && f == m,
    }
}

/// What removing the preimage of `h` on behalf of `c` (or of the system, if
/// `None`) does to a migrated store `m`, giving `f` and `r`. Only the owner of
/// the ticket (or the system) may do it; the ticket is released, and a
/// preimage that nobody requested is cleared.
pub open spec fn unnote_spec<Ticket>(
    m: PreimagesView<Ticket>,
    h: Hash,
    c: Option<AccountId>,
    f: PreimagesView<Ticket>,
    r: Result<(), DispatchError>,
) -> bool {
    let not_authorized = Err::<(), DispatchError>(preimage_error(PreimageError::NotAuthorized));
    match m.status.get(h) {
        None => r == Err::<(), DispatchError>(preimage_error(PreimageError::NotNoted)) && f == m,
        Some(RequestStatus::Requested { maybe_ticket, count, maybe_len }) => match maybe_ticket {
            Some(ticket) => if c is Some && c->Some_0 != ticket.0 {
                r == not_authorized && f == m
            } else {
                &&& r == Ok::<(), DispatchError>(())
                &&& f.status == m.status.insert(
                    h,
                    RequestStatus::Requested { maybe_ticket: None, count, maybe_len },
                )
                &&& f.old_status == m.old_status
                &&& f.preimages == m.preimages
                &&& f.events == m.events
                &&& f.ledger == m.ledger.push(LedgerOp::DropTicket { who: ticket.0, ticket: ticket.1 })
            },
            None => if c is Some {
                r == not_authorized && f == m
            } else {
                unrequest_spec(m, h, f, r)
            },
        },
        Some(RequestStatus::Unrequested { ticket, len }) => if c is Some && c->Some_0 != ticket.0 {
            r == not_authorized && f == m
        } else {
            &&& r == Ok::<(), DispatchError>(())
            &&& f.status == m.status.remove(h)
            &&& f.old_status == m.old_status
            &&& f.preimages == m.preimages.remove(PreimageKey { hash: h, len })
            &&& f.events == m.events.push(Event::Cleared { hash: h })
            &&& f.ledger == m.ledger.push(LedgerOp::DropTicket { who: ticket.0, ticket: ticket.1 })
        },
    }
}

/// The length of the preimage that the status `cur` records.
pub open spec fn recorded_len<Ticket>(cur: Option<RequestStatus<Ticket>>) -> Option<u32> {
    match cur {
        Some(s) => status_len(s),
        None => None,
    }
}

/// Whether the status `cur` is a request.
pub open spec fn is_requested_status<Ticket>(cur: Option<RequestStatus<Ticket>>) -> bool {
    cur matches Some(RequestStatus::Requested { .. })
}


/// Noting the preimage `p` of `h` by `d`, from `pre` to `post` with result
/// `r`: too long a preimage is refused before anything happens; otherwise
/// the legacy status of `h` is migrated first.
pub open spec fn note_bytes_spec<Ticket>(
    pre: PreimagesView<Ticket>,
    h: Hash,
    p: Seq<u8>,
    d: Option<AccountId>,
    post: PreimagesView<Ticket>,
    r: Result<(bool, Hash), DispatchError>,
) -> bool {
    if p.len() > MAX_SIZE {
        r == Err::<(bool, Hash), DispatchError>(preimage_error(PreimageError::TooBig)) && post == pre
    } else {
        exists|mid: PreimagesView<Ticket>| #[trigger] migrates(pre, h, mid) && note_spec(mid, h, p, d, post, r)
    }
}

/// Requesting `h`, from `pre` to `post`, the legacy status migrated first.
pub open spec fn request_op_spec<Ticket>(pre: PreimagesView<Ticket>, h: Hash, post: PreimagesView<Ticket>) -> bool {
    exists|mid: PreimagesView<Ticket>| #[trigger] migrates(pre, h, mid) && request_spec(mid, h, post)
}

/// Clearing a request of `h`, from `pre` to `post` with result `r`, the
/// legacy status migrated first.
pub open spec fn unrequest_op_spec<Ticket>(
    pre: PreimagesView<Ticket>,
    h: Hash,
    post: PreimagesView<Ticket>,
    r: Result<(), DispatchError>,
) -> bool {
    exists|mid: PreimagesView<Ticket>| #[trigger] migrates(pre, h, mid) && unrequest_spec(mid, h, post, r)
}

/// Removing the preimage of `h` on behalf of `c`, from `pre` to `post` with
/// result `r`, the legacy status migrated first.
pub open spec fn unnote_op_spec<Ticket>(
    pre: PreimagesView<Ticket>,
    h: Hash,
    c: Option<AccountId>,
    post: PreimagesView<Ticket>,
    r: Result<(), DispatchError>,
) -> bool {
    exists|mid: PreimagesView<Ticket>| #[trigger] migrates(pre, h, mid) && unnote_spec(mid, h, c, post, r)
}

/// The number of hashes among `hs` that have a legacy status in `old`, each
/// hash counted once.
pub open spec fn count_migrated(old: Map<Hash, OldRequestStatus>, hs: Seq<Hash>) -> nat
    decreases hs.len(),
{
    if hs.len() == 0 {
        0
    } else {
        let prefix = hs.drop_last();
        count_migrated(old, prefix) + if old.contains_key(hs.last()) && !prefix.contains(hs.last()) {
            1nat
        } else {
            0nat
        }
    }
}

/// The status `after` is what migrating the legacy status `o` makes of the
/// status `before`.
pub open spec fn migrated_entry<Ticket>(
    o: OldRequestStatus,
    before: Option<RequestStatus<Ticket>>,
    after: Option<RequestStatus<Ticket>>,
) -> bool {
    ||| (after is Some && migrated_shape(o, after->Some_0))
    ||| (ticket_needed(o) && after == before)
}

/// `post` is `pre` after the legacy statuses of all hashes of `hs` are
/// migrated.
pub open spec fn migrates_all<Ticket>(
    pre: PreimagesView<Ticket>,
    hs: Seq<Hash>,
    post: PreimagesView<Ticket>,
) -> bool {
    &&& post.old_status == pre.old_status.remove_keys(hs.to_set())
    &&& post.preimages == pre.preimages
    &&& post.events == pre.events
    &&& ledger_extends(pre.ledger, post.ledger)
    &&& migrates_each(pre, hs, post)
    &&& forall|h: Hash|
        #![trigger post.status.get(h)]
        if hs.contains(h) && pre.old_status.contains_key(h) {
            migrated_entry(pre.old_status[h], pre.status.get(h), post.status.get(h))
        } else {
            post.status.get(h) == pre.status.get(h)
        }
}

/// `states` are the store's states as the legacy statuses of the hashes of
/// `hs` are migrated, each hash alone, one after the other, in order.
pub open spec fn migration_chain<Ticket>(states: Seq<PreimagesView<Ticket>>, hs: Seq<Hash>) -> bool {
    &&& states.len() == hs.len() + 1
    &&& forall|i: int| 0 <= i < hs.len() ==> #[trigger] migrates(states[i], hs[i], states[i + 1])
}

/// `post` is `pre` after migrating the legacy status of each hash of `hs`
/// alone, one after the other, in order.
pub open spec fn migrates_each<Ticket>(
    pre: PreimagesView<Ticket>,
    hs: Seq<Hash>,
    post: PreimagesView<Ticket>,
) -> bool {
    exists|states: Seq<PreimagesView<Ticket>>| #[trigger] migration_chain(states, hs) && states[0] == pre && states.last() == post
}

/// Migrating one more hash after a bulk migration is the bulk migration of
/// the longer list.
pub proof fn lemma_migrates_each_step<Ticket>(
    pre: PreimagesView<Ticket>,
    hs: Seq<Hash>,
    mid: PreimagesView<Ticket>,
    h: Hash,
    post: PreimagesView<Ticket>,
)
    requires
        migrates_each(pre, hs, mid),
        migrates(mid, h, post),
    ensures
        migrates_each(pre, hs.push(h), post),
{
    let states = choose|states: Seq<PreimagesView<Ticket>>| #[trigger] migration_chain(states, hs) && states[0] == pre && states.last() == mid;
    let s1 = states.push(post);
    let hs1 = hs.push(h);
    assert forall|i: int| 0 <= i < hs1.len() implies #[trigger] migrates(s1[i], hs1[i], s1[i + 1]) by {
        if i < hs.len() {
            assert(migrates(states[i], hs[i], states[i + 1]));
        }
    }
    assert(migration_chain(s1, hs1));
}

/// Nothing is migrated in an empty bulk.
pub proof fn lemma_migrates_each_empty<Ticket>(pre: PreimagesView<Ticket>, hs: Seq<Hash>)
    requires
        hs.len() == 0,
    ensures
        migrates_each(pre, hs, pre),
{
    assert(migration_chain(seq![pre], hs));
}

/// Migrating a hash other than `h` leaves the status and the legacy status
/// of `h` as they were.
proof fn lemma_migrates_other<Ticket>(x: PreimagesView<Ticket>, g: Hash, y: PreimagesView<Ticket>, h: Hash)
    requires
        migrates(x, g, y),
        g != h,
    ensures
        y.status.get(h) == x.status.get(h),
        y.old_status.get(h) == x.old_status.get(h),
{
    assert(y.old_status.dom().contains(h) == x.old_status.dom().contains(h));
    if x.old_status.contains_key(h) {
        assert(y.old_status[h] == x.old_status[h]);
    }
}

/// Along a chain of migrations of hashes other than `h`, the status and the
/// legacy status of `h` stay, and the ledger only grows.
proof fn lemma_chain_before<Ticket>(states: Seq<PreimagesView<Ticket>>, hs: Seq<Hash>, h: Hash, j: int)
    requires
        migration_chain(states, hs),
        0 <= j <= hs.len(),
        forall|k: int| 0 <= k < j ==> hs[k] != h,
    ensures
        states[j].status.get(h) == states[0].status.get(h),
        states[j].old_status.get(h) == states[0].old_status.get(h),
        ledger_extends(states[0].ledger, states[j].ledger),
    decreases j,
{
    if j == 0 {
        assert(states[0].ledger.subrange(0, states[0].ledger.len() as int) =~= states[0].ledger);
    } else {
        lemma_chain_before(states, hs, h, j - 1);
        let m = j - 1;
        assert(0 <= m < hs.len());
        assert(migrates(states[m], hs[m], states[m + 1]));
        assert(m + 1 == j);
        lemma_migrates_other(states[j - 1], hs[j - 1], states[j], h);
        lemma_migrates_extends_ledger(states[j - 1], hs[j - 1], states[j]);
        lemma_ledger_extends_trans(states[0].ledger, states[j - 1].ledger, states[j].ledger);
    }
}

/// Once `h` has no legacy status, further migrations leave its status, and
/// the ledger only grows.
proof fn lemma_chain_after<Ticket>(states: Seq<PreimagesView<Ticket>>, hs: Seq<Hash>, h: Hash, j: int, k: int)
    requires
        migration_chain(states, hs),
        0 <= j <= k <= hs.len(),
        !states[j].old_status.contains_key(h),
    ensures
        states[k].status.get(h) == states[j].status.get(h),
        !states[k].old_status.contains_key(h),
        ledger_extends(states[j].ledger, states[k].ledger),
    decreases k - j,
{
    if k == j {
        assert(states[j].ledger.subrange(0, states[j].ledger.len() as int) =~= states[j].ledger);
    } else {
        lemma_chain_after(states, hs, h, j, k - 1);
        let m = k - 1;
        let x = states[m];
        let y = states[k];
        assert(0 <= m < hs.len());
        assert(migrates(states[m], hs[m], states[m + 1]));
        assert(m + 1 == k);
        assert(migrates(x, hs[k - 1], y));
        if hs[k - 1] == h {
            lemma_migrates_without_legacy(x, h, y);
        } else {
            lemma_migrates_other(x, hs[k - 1], y, h);
        }
        lemma_migrates_extends_ledger(x, hs[k - 1], y);
        lemma_ledger_extends_trans(states[j].ledger, x.ledger, y.ledger);
    }
}

/// In a bulk migration each hash, at its first place in the list, is
/// migrated exactly as if it were migrated alone: from its status and
/// legacy status before the bulk, with its calls into `Config` made in
/// turn, and its status after the bulk is the one that migration gives.
pub proof fn bulk_migration_migrates_each_hash_alone<Ticket>(
    pre: PreimagesView<Ticket>,
    hs: Seq<Hash>,
    post: PreimagesView<Ticket>,
    i: int,
)
    requires
        migrates_all(pre, hs, post),
        0 <= i < hs.len(),
        forall|k: int| 0 <= k < i ==> hs[k] != hs[i],
    ensures
        exists|a: PreimagesView<Ticket>, b: PreimagesView<Ticket>| #[trigger] migrates(a, hs[i], b)
            && a.status.get(hs[i]) == pre.status.get(hs[i])
            && a.old_status.get(hs[i]) == pre.old_status.get(hs[i])
            && post.status.get(hs[i]) == b.status.get(hs[i])
            && ledger_extends(pre.ledger, a.ledger)
            && ledger_extends(b.ledger, post.ledger),
{
    let h = hs[i];
    let states = choose|states: Seq<PreimagesView<Ticket>>| #[trigger] migration_chain(states, hs) && states[0] == pre && states.last() == post;
    lemma_chain_before(states, hs, h, i);
    let a = states[i];
    let b = states[i + 1];
    assert(migrates(a, h, b));
    assert(!b.old_status.contains_key(h));
    lemma_chain_after(states, hs, h, i + 1, hs.len() as int);
    assert(states[hs.len() as int] == post);
}

/// In a bulk migration, a hash whose legacy status is an unrequested
/// preimage held against a deposit has that deposit unreserved in full to
/// its owner and a ticket for the preimage's length taken from them, in
/// this order; if the ticket is granted, the hash ends unrequested, held
/// against exactly that ticket for the owner, with the same length; only if
/// it is refused does the hash keep the status it had.
pub proof fn bulk_migration_converts_unrequested_deposit<Ticket>(
    pre: PreimagesView<Ticket>,
    hs: Seq<Hash>,
    post: PreimagesView<Ticket>,
    i: int,
    who: AccountId,
    amount: Balance,
    len: u32,
)
    requires
        migrates_all(pre, hs, post),
        0 <= i < hs.len(),
        forall|k: int| 0 <= k < i ==> hs[k] != hs[i],
        pre.old_status.get(hs[i]) == Some(OldRequestStatus::Unrequested { deposit: (who, amount), len }),
    ensures
        exists|k: int| #![trigger post.ledger[k]]
            pre.ledger.len() <= k && k + 1 < post.ledger.len()
            && post.ledger[k] == (LedgerOp::<Ticket>::Unreserve { who, amount })
            && post.ledger[k + 1] == (LedgerOp::NewTicket {
                who,
                footprint: Footprint { count: 1, size: len as u64 },
                result: post.ledger[k + 1]->NewTicket_result,
            })
            && match post.ledger[k + 1]->NewTicket_result {
                Ok(t) => post.status.get(hs[i]) == Some(RequestStatus::Unrequested { ticket: (who, t), len }),
                Err(_) => post.status.get(hs[i]) == pre.status.get(hs[i]),
            },
{
    let h = hs[i];
    let states = choose|states: Seq<PreimagesView<Ticket>>| #[trigger] migration_chain(states, hs) && states[0] == pre && states.last() == post;
    lemma_chain_before(states, hs, h, i);
    let a = states[i];
    let b = states[i + 1];
    assert(migrates(a, h, b));
    assert(a.old_status.contains_key(h));
    assert(a.old_status[h] == OldRequestStatus::Unrequested { deposit: (who, amount), len });
    assert(!b.old_status.contains_key(h));
    lemma_chain_after(states, hs, h, i + 1, hs.len() as int);
    assert(states[hs.len() as int] == post);
    let k = a.ledger.len() as int;
    assert(b.ledger[k] == post.ledger.subrange(0, b.ledger.len() as int)[k]);
    assert(b.ledger[k + 1] == post.ledger.subrange(0, b.ledger.len() as int)[k + 1]);
    assert(post.ledger[k] == b.ledger[k]);
    assert(post.ledger[k + 1] == b.ledger[k + 1]);
    if b.status.contains_key(h) || a.status.contains_key(h) {
        assert(b.status.get(h) == post.status.get(h));
    }
}

/// `l1` is `l0` followed by further calls.
pub open spec fn ledger_extends<Ticket>(l0: Seq<LedgerOp<Ticket>>, l1: Seq<LedgerOp<Ticket>>) -> bool {
    l0.len() <= l1.len() && l1.subrange(0, l0.len() as int) == l0
}

/// A migration only adds calls to the ledger.
pub proof fn lemma_migrates_extends_ledger<Ticket>(pre: PreimagesView<Ticket>, h: Hash, post: PreimagesView<Ticket>)
    requires
        migrates(pre, h, post),
    ensures
        ledger_extends(pre.ledger, post.ledger),
{
    assert(post.ledger.subrange(0, pre.ledger.len() as int) =~= pre.ledger);
}

/// Adding calls twice adds calls.
pub proof fn lemma_ledger_extends_trans<Ticket>(
    l0: Seq<LedgerOp<Ticket>>,
    l1: Seq<LedgerOp<Ticket>>,
    l2: Seq<LedgerOp<Ticket>>,
)
    requires
        ledger_extends(l0, l1),
        ledger_extends(l1, l2),
    ensures
        ledger_extends(l0, l2),
{
    assert(l2.subrange(0, l0.len() as int) =~= l1.subrange(0, l0.len() as int));
}

/// Whether the sender of a bulk migration pays: exactly when fewer than 90%
/// of the `n` hashes were migrated.
pub open spec fn bulk_pays(updated: nat, n: nat) -> Pays {
    if 10 * updated < 9 * n {
        Pays::Yes
    } else {
        Pays::No
    }
}

/// The sender that an origin notes preimages as: `Some(None)` for the
/// manager, `Some(Some(who))` for a signer, `None` for any other origin.
pub open spec fn sender_of(o: CallOrigin) -> Option<Option<AccountId>> {
    if o.is_manager {
        Some(None)
    } else {
        match o.signer {
            Some(who) => Some(Some(who)),
            None => None,
        }
    }
}

/// The fee that noting a preimage costs its sender: nothing if the
/// preimage is requested or the sender is the manager.
pub open spec fn note_pays(r: Result<(bool, Hash), DispatchError>, sender: Option<AccountId>) -> Result<Pays, DispatchError> {
    match r {
        Ok((requested, _)) => Ok(if requested || sender is None {
            Pays::No
        } else {
            Pays::Yes
        }),
        Err(e) => Err(e),
    }
}

/// The bytes of an optional vector.
pub open spec fn bytes_option_view(o: Option<Vec<u8>>) -> Option<Seq<u8>> {
    match o {
        Some(v) => Some(v@),
        None => None,
    }
}

/// Reading the preimage of `h`, from `pre` to `post` with result `r`: the
/// legacy status of `h` is migrated first; then the preimage of the recorded
/// length is given, if stored.
pub open spec fn get_preimage_spec<Ticket>(
    pre: PreimagesView<Ticket>,
    h: Hash,
    post: PreimagesView<Ticket>,
    r: Option<Seq<u8>>,
) -> bool {
    &&& migrates(pre, h, post)
    &&& match recorded_len(post.status.get(h)) {
        Some(l) => {
            let k = PreimageKey { hash: h, len: l };
            match r {
                Some(v) => post.preimages.contains_key(k) && v == post.preimages[k],
                None => !post.preimages.contains_key(k),
            }
        },
        None => r is None,
    }
}

/// Migrating a hash without a legacy status changes nothing.
pub proof fn lemma_migrates_without_legacy<Ticket>(pre: PreimagesView<Ticket>, h: Hash, post: PreimagesView<Ticket>)
    requires
        !pre.old_status.contains_key(h),
        migrates(pre, h, post),
    ensures
        post == pre,
{
    assert(post.old_status =~= pre.old_status);
    assert(post =~= pre);
}

/// A preimage that was noted successfully is stored under its hash and its
/// length, and its hash has a recorded length.
pub proof fn noted_preimage_is_stored<Ticket>(
    pre: PreimagesView<Ticket>,
    p: Seq<u8>,
    d: Option<AccountId>,
    post: PreimagesView<Ticket>,
    r: Result<(bool, Hash), DispatchError>,
)
    requires
        note_bytes_spec(pre, spec_blake2_256(p), p, d, post, r),
        r is Ok,
    ensures
        p.len() <= MAX_SIZE,
        post.preimages.contains_key(PreimageKey { hash: spec_blake2_256(p), len: p.len() as u32 }),
        post.preimages[PreimageKey { hash: spec_blake2_256(p), len: p.len() as u32 }] == p,
        recorded_len(post.status.get(spec_blake2_256(p))) is Some,
{
    let h = spec_blake2_256(p);
    let mid = choose|mid: PreimagesView<Ticket>| #[trigger] migrates(pre, h, mid) && note_spec(mid, h, p, d, post, r);
    assert(post.status.contains_key(h));
}

/// A preimage noted for a hash that has no legacy status and does not hold
/// a user's unrequested preimage (so with no status, or requested before)
/// is read back as the very bytes that were noted.
pub proof fn noted_preimage_is_read_back<Ticket>(
    pre: PreimagesView<Ticket>,
    p: Seq<u8>,
    d: Option<AccountId>,
    mid: PreimagesView<Ticket>,
    nr: Result<(bool, Hash), DispatchError>,
    post: PreimagesView<Ticket>,
    r: Option<Seq<u8>>,
)
    requires
        !pre.old_status.contains_key(spec_blake2_256(p)),
        !(pre.status.get(spec_blake2_256(p)) matches Some(RequestStatus::Unrequested { .. })),
        note_bytes_spec(pre, spec_blake2_256(p), p, d, mid, nr),
        nr is Ok,
        get_preimage_spec(mid, spec_blake2_256(p), post, r),
    ensures
        r == Some(p),
{
    let h = spec_blake2_256(p);
    assert(p.len() <= MAX_SIZE);
    let m1 = choose|m1: PreimagesView<Ticket>| #[trigger] migrates(pre, h, m1) && note_spec(m1, h, p, d, mid, nr);
    lemma_migrates_without_legacy(pre, h, m1);
    assert(!mid.old_status.contains_key(h));
    lemma_migrates_without_legacy(mid, h, post);
    assert(recorded_len(post.status.get(h)) == Some(p.len() as u32));
}

/// Clearing a request of a requested hash: with more than one request the
/// count goes down by one; with the last one, a preimage that still holds a
/// user's ticket goes back to that user, unrequested with the same ticket
/// and length and still stored; a preimage noted without an owner is
/// cleared with its bytes; a hash never noted is forgotten. No call into
/// `Config` is made.
pub proof fn unrequest_gives_back_or_clears<Ticket>(
    pre: PreimagesView<Ticket>,
    h: Hash,
    maybe_ticket: Option<(AccountId, Ticket)>,
    count: u32,
    maybe_len: Option<u32>,
    post: PreimagesView<Ticket>,
    r: Result<(), DispatchError>,
)
    requires
        !pre.old_status.contains_key(h),
        pre.status.get(h) == Some(RequestStatus::Requested { maybe_ticket, count, maybe_len }),
        count >= 1,
        unrequest_op_spec(pre, h, post, r),
    ensures
        r == Ok::<(), DispatchError>(()),
        post.ledger == pre.ledger,
        post.old_status == pre.old_status,
        count > 1 ==> post.status.get(h) == Some(
            RequestStatus::Requested { maybe_ticket, count: (count - 1) as u32, maybe_len },
        ) && post.preimages == pre.preimages && post.events == pre.events,
        count == 1 ==> match (maybe_ticket, maybe_len) {
            (Some(t), Some(len)) => post.status.get(h) == Some(RequestStatus::Unrequested { ticket: t, len })
                && post.preimages == pre.preimages && post.events == pre.events,
            (None, Some(len)) => post.status.get(h) is None
                && !post.preimages.contains_key(PreimageKey { hash: h, len })
                && post.events == pre.events.push(Event::Cleared { hash: h }),
            (_, None) => post.status.get(h) is None && post.preimages == pre.preimages && post.events == pre.events,
        },
        forall|g: Hash| g != h ==> post.status.get(g) == pre.status.get(g),
{
    let m = choose|m: PreimagesView<Ticket>| #[trigger] migrates(pre, h, m) && unrequest_spec(m, h, post, r);
    lemma_migrates_without_legacy(pre, h, m);
}

/// A preimage that a user noted and the system then noted as well is given
/// back to the user when the system's request is cleared: unrequested, held
/// against the user's ticket, with its bytes still readable.
pub proof fn user_preimage_survives_system_unrequest<Ticket>(
    pre: PreimagesView<Ticket>,
    p: Seq<u8>,
    d: AccountId,
    s1: PreimagesView<Ticket>,
    r1: Result<(bool, Hash), DispatchError>,
    s2: PreimagesView<Ticket>,
    r2: Result<(bool, Hash), DispatchError>,
    post: PreimagesView<Ticket>,
    r: Result<(), DispatchError>,
)
    requires
        !pre.old_status.contains_key(spec_blake2_256(p)),
        !pre.status.contains_key(spec_blake2_256(p)),
        note_bytes_spec(pre, spec_blake2_256(p), p, Some(d), s1, r1),
        r1 is Ok,
        note_bytes_spec(s1, spec_blake2_256(p), p, None, s2, r2),
        unrequest_op_spec(s2, spec_blake2_256(p), post, r),
    ensures
        r == Ok::<(), DispatchError>(()),
        last_ticket_result(s1.ledger) is Ok,
        post.status.get(spec_blake2_256(p)) == Some(
            RequestStatus::Unrequested {
                ticket: (d, last_ticket_result(s1.ledger)->Ok_0),
                len: p.len() as u32,
            },
        ),
        post.preimages.contains_key(PreimageKey { hash: spec_blake2_256(p), len: p.len() as u32 }),
        post.preimages[PreimageKey { hash: spec_blake2_256(p), len: p.len() as u32 }] == p,
        post.ledger == s1.ledger,
{
    let h = spec_blake2_256(p);
    let m1 = choose|m: PreimagesView<Ticket>| #[trigger] migrates(pre, h, m) && note_spec(m, h, p, Some(d), s1, r1);
    lemma_migrates_without_legacy(pre, h, m1);
    assert(p.len() <= MAX_SIZE);
    assert(!s1.old_status.contains_key(h));
    assert(note_bytes_spec(s1, h, p, None, s2, r2));
    let m2 = choose|m: PreimagesView<Ticket>| #[trigger] migrates(s1, h, m) && note_spec(m, h, p, None, s2, r2);
    lemma_migrates_without_legacy(s1, h, m2);
    assert(!s2.old_status.contains_key(h));
    let m3 = choose|m: PreimagesView<Ticket>| #[trigger] migrates(s2, h, m) && unrequest_spec(m, h, post, r);
    lemma_migrates_without_legacy(s2, h, m3);
}

/// The fee of a bulk migration of `n` hashes of which `updated` migrated:
/// waived exactly when at least nine in ten migrated.
pub proof fn bulk_fee_law(updated: nat, n: nat)
    ensures
        (bulk_pays(updated, n) == Pays::No) <==> 10 * updated >= 9 * n,
        updated == n ==> bulk_pays(updated, n) == Pays::No,
{
}

/// The fee of noting a preimage: the manager never pays; a signer pays
/// unless the preimage was requested; a failed noting passes its error on.
pub proof fn note_fee_law(requested: bool, h: Hash, who: AccountId, e: DispatchError)
    ensures
        sender_of(CallOrigin { is_manager: true, signer: Some(who) }) == Some(None::<AccountId>),
        sender_of(CallOrigin { is_manager: false, signer: Some(who) }) == Some(Some(who)),
        sender_of(CallOrigin { is_manager: false, signer: None }) is None,
        note_pays(Ok((requested, h)), None) == Ok::<Pays, DispatchError>(Pays::No),
        note_pays(Ok((requested, h)), Some(who)) == Ok::<Pays, DispatchError>(
            if requested {
                Pays::No
            } else {
                Pays::Yes
            },
        ),
        note_pays(Err(e), Some(who)) == Err::<Pays, DispatchError>(e),
{
}

/// Requesting a hash and then clearing that request gives the hash back the
/// status it had, keeps every preimage and makes no call into `Config` (for
/// a hash without a legacy status, not holding a user's unrequested
/// preimage, whose request count can still grow).
pub proof fn request_then_unrequest_restores<Ticket>(
    pre: PreimagesView<Ticket>,
    h: Hash,
    mid: PreimagesView<Ticket>,
    post: PreimagesView<Ticket>,
    r: Result<(), DispatchError>,
)
    requires
        pre.inv(),
        !pre.old_status.contains_key(h),
        pre.status.contains_key(h) ==> (pre.status[h] matches RequestStatus::Requested { count, .. } && count < u32::MAX),
        request_op_spec(pre, h, mid),
        unrequest_op_spec(mid, h, post, r),
    ensures
        r == Ok::<(), DispatchError>(()),
        post.status == pre.status,
        post.old_status == pre.old_status,
        post.preimages == pre.preimages,
        post.ledger == pre.ledger,
{
    let m1 = choose|m1: PreimagesView<Ticket>| #[trigger] migrates(pre, h, m1) && request_spec(m1, h, mid);
    lemma_migrates_without_legacy(pre, h, m1);
    let m2 = choose|m2: PreimagesView<Ticket>| #[trigger] migrates(mid, h, m2) && unrequest_spec(m2, h, post, r);
    assert(!mid.old_status.contains_key(h));
    lemma_migrates_without_legacy(mid, h, m2);
    if pre.status.contains_key(h) {
        assert(status_count_ok(pre.status[h]));
        assert(post.status =~= pre.status);
    } else {
        assert(post.status =~= pre.status);
    }
}

/// A preimage that a user noted and then removed leaves the store as it
/// was, but for the preimage's slot, which is emptied; the ticket taken for
/// it from the user is the one dropped.
pub proof fn note_then_unnote_restores<Ticket>(
    pre: PreimagesView<Ticket>,
    p: Seq<u8>,
    d: AccountId,
    mid: PreimagesView<Ticket>,
    nr: Result<(bool, Hash), DispatchError>,
    post: PreimagesView<Ticket>,
    r: Result<(), DispatchError>,
)
    requires
        !pre.old_status.contains_key(spec_blake2_256(p)),
        !pre.status.contains_key(spec_blake2_256(p)),
        note_bytes_spec(pre, spec_blake2_256(p), p, Some(d), mid, nr),
        nr is Ok,
        unnote_op_spec(mid, spec_blake2_256(p), Some(d), post, r),
    ensures
        p.len() <= MAX_SIZE,
        r == Ok::<(), DispatchError>(()),
        post.status == pre.status,
        post.old_status == pre.old_status,
        post.preimages == pre.preimages.remove(PreimageKey { hash: spec_blake2_256(p), len: p.len() as u32 }),
        last_ticket_result(mid.ledger) is Ok,
        post.ledger == pre.ledger.push(
            LedgerOp::NewTicket {
                who: d,
                footprint: deposit_footprint(p.len() as u32),
                result: last_ticket_result(mid.ledger),
            },
        ).push(LedgerOp::DropTicket { who: d, ticket: last_ticket_result(mid.ledger)->Ok_0 }),
{
    let h = spec_blake2_256(p);
    let key = PreimageKey { hash: h, len: p.len() as u32 };
    let m1 = choose|m1: PreimagesView<Ticket>| #[trigger] migrates(pre, h, m1) && note_spec(m1, h, p, Some(d), mid, nr);
    lemma_migrates_without_legacy(pre, h, m1);
    let m2 = choose|m2: PreimagesView<Ticket>| #[trigger] migrates(mid, h, m2) && unnote_spec(m2, h, Some(d), post, r);
    assert(!mid.old_status.contains_key(h));
    lemma_migrates_without_legacy(mid, h, m2);
    assert(mid.status[h] is Unrequested);
    assert(post.status =~= pre.status);
    assert(post.preimages =~= pre.preimages.remove(key));
}

/// A signed user who notes a preimage that is already requested pays no fee
/// and no ticket is taken from them.
pub proof fn noting_requested_preimage_is_free<Ticket>(
    pre: PreimagesView<Ticket>,
    p: Seq<u8>,
    who: AccountId,
    post: PreimagesView<Ticket>,
    nr: Result<(bool, Hash), DispatchError>,
)
    requires
        !pre.old_status.contains_key(spec_blake2_256(p)),
        is_requested_status(pre.status.get(spec_blake2_256(p))),
        p.len() <= MAX_SIZE,
        note_bytes_spec(pre, spec_blake2_256(p), p, Some(who), post, nr),
    ensures
        note_pays(nr, Some(who)) == Ok::<Pays, DispatchError>(Pays::No),
        post.ledger == pre.ledger,
        post.status[spec_blake2_256(p)] matches RequestStatus::Requested { maybe_ticket, .. }
            && maybe_ticket == pre.status[spec_blake2_256(p)]->Requested_maybe_ticket,
{
    let h = spec_blake2_256(p);
    let m1 = choose|m1: PreimagesView<Ticket>| #[trigger] migrates(pre, h, m1) && note_spec(m1, h, p, Some(who), post, nr);
    lemma_migrates_without_legacy(pre, h, m1);
}

/// Once a preimage is requested it leaves its noter's control: the request
/// drops the noter's ticket (returning their deposit), and the noter can no
/// longer remove the preimage, which stays stored and requested.
pub proof fn requested_preimage_leaves_owner_control<Ticket>(
    pre: PreimagesView<Ticket>,
    h: Hash,
    owner: AccountId,
    ticket: Ticket,
    len: u32,
    mid: PreimagesView<Ticket>,
    post: PreimagesView<Ticket>,
    r: Result<(), DispatchError>,
)
    requires
        !pre.old_status.contains_key(h),
        pre.status.get(h) == Some(RequestStatus::Unrequested { ticket: (owner, ticket), len }),
        request_op_spec(pre, h, mid),
        unnote_op_spec(mid, h, Some(owner), post, r),
    ensures
        mid.ledger == pre.ledger.push(LedgerOp::DropTicket { who: owner, ticket }),
        mid.status[h] == (RequestStatus::<Ticket>::Requested { maybe_ticket: None, count: 1, maybe_len: Some(len) }),
        r == Err::<(), DispatchError>(preimage_error(PreimageError::NotAuthorized)),
        post == mid,
        post.preimages == pre.preimages,
{
    let m1 = choose|m1: PreimagesView<Ticket>| #[trigger] migrates(pre, h, m1) && request_spec(m1, h, mid);
    lemma_migrates_without_legacy(pre, h, m1);
    let m2 = choose|m2: PreimagesView<Ticket>| #[trigger] migrates(mid, h, m2) && unnote_spec(m2, h, Some(owner), post, r);
    assert(!mid.old_status.contains_key(h));
    lemma_migrates_without_legacy(mid, h, m2);
}

impl<Ticket> PreimagesView<Ticket> {
    /// The store is consistent: every recorded length has its preimage
    /// stored, every stored preimage has the length and the hash of its key,
    /// and every requested status counts at least one request.
    pub open spec fn inv(self) -> bool {
        &&& forall|h: Hash| #[trigger]
            self.status.contains_key(h) ==> status_count_ok(self.status[h]) && (status_len(
                self.status[h],
            ) matches Some(l) ==> self.preimages.contains_key(PreimageKey { hash: h, len: l }))
        &&& forall|h: Hash| #[trigger]
            self.old_status.contains_key(h) ==> old_status_count_ok(self.old_status[h]) && (
            old_status_len(self.old_status[h]) matches Some(l) ==> self.preimages.contains_key(
                PreimageKey { hash: h, len: l },
            ))
        &&& forall|k: PreimageKey| #[trigger]
            self.preimages.contains_key(k) ==> self.preimages[k].len() == k.len
                && spec_blake2_256(self.preimages[k]) == k.hash
    }
}

/// The store of preimages.
pub struct Preimages<T: Config> {
    request_status_for: Table<Hash, RequestStatus<T::Ticket>>,
    status_for: Table<Hash, OldRequestStatus>,
    preimage_for: Table<PreimageKey, Vec<u8>>,
    events: Vec<Event>,
    ledger: Ghost<Seq<LedgerOp<T::Ticket>>>,
}

impl<T: Config> View for Preimages<T> {
    type V = PreimagesView<T::Ticket>;

    closed spec fn view(&self) -> PreimagesView<T::Ticket> {
        PreimagesView {
            status: self.request_status_for@,
            old_status: self.status_for@,
            preimages: self.preimage_for@.map_values(|v: Vec<u8>| v@),
            events: self.events@,
            ledger: self.ledger@,
        }
    }
}

impl<T: Config> Preimages<T> {
    /// The tables of the store are well formed.
    pub closed spec fn wf(&self) -> bool {
        &&& self.request_status_for.wf()
        &&& self.status_for.wf()
        &&& self.preimage_for.wf()
    }

    /// An empty store.
    pub fn new() -> (r: Self)
        ensures
            r.wf(),
            r@.status == Map::<Hash, RequestStatus<T::Ticket>>::empty(),
            r@.old_status == Map::<Hash, OldRequestStatus>::empty(),
            r@.preimages == Map::<PreimageKey, Seq<u8>>::empty(),
            r@.events == Seq::<Event>::empty(),
            r@.ledger == Seq::<LedgerOp<T::Ticket>>::empty(),
            r@.inv(),
    {
        let r = Preimages {
            request_status_for: Table::new(),
            status_for: Table::new(),
            preimage_for: Table::new(),
            events: Vec::new(),
            ledger: Ghost(Seq::empty()),
        };
        assert(r@.preimages =~= Map::<PreimageKey, Seq<u8>>::empty());
        r
    }

    fn insert_preimage(&mut self, hash: &Hash, preimage: &[u8])
        requires
            old(self).wf(),
        ensures
            final(self).wf(),
            final(self)@.status == old(self)@.status,
            final(self)@.old_status == old(self)@.old_status,
            final(self)@.events == old(self)@.events,
            final(self)@.ledger == old(self)@.ledger,
            final(self)@.preimages == if preimage@.len() <= MAX_SIZE {
                old(self)@.preimages.insert(
                    PreimageKey { hash: *hash, len: preimage@.len() as u32 },
                    preimage@,
                )
            } else {
                old(self)@.preimages
            },
    {
        let ghost pre = self@;
        if preimage.len() <= MAX_SIZE as usize {
            let bytes = vstd::slice::slice_to_vec(preimage);
            let key = PreimageKey { hash: *hash, len: preimage.len() as u32 };
            self.preimage_for.insert(key, bytes);
            assert(self@.preimages =~= pre.preimages.insert(key, preimage@));
        }
    }

    fn remove_preimage(&mut self, hash: &Hash, len: u32)
        requires
            old(self).wf(),
        ensures
            final(self).wf(),
            final(self)@.status == old(self)@.status,
            final(self)@.old_status == old(self)@.old_status,
            final(self)@.events == old(self)@.events,
            final(self)@.ledger == old(self)@.ledger,
            final(self)@.preimages == old(self)@.preimages.remove(PreimageKey { hash: *hash, len }),
    {
        let ghost pre = self@;
        let key = PreimageKey { hash: *hash, len };
        self.preimage_for.remove(&key);
        assert(self@.preimages =~= pre.preimages.remove(key));
    }

    fn unreserve_deposit(&mut self, who: AccountId, amount: Balance)
        requires
            old(self).wf(),
        ensures
            final(self).wf(),
            final(self)@.status == old(self)@.status,
            final(self)@.old_status == old(self)@.old_status,
            final(self)@.preimages == old(self)@.preimages,
            final(self)@.events == old(self)@.events,
            final(self)@.ledger == old(self)@.ledger.push(LedgerOp::Unreserve { who, amount }),
    {
        T::unreserve(&who, amount);
        self.ledger = Ghost(self.ledger@.push(LedgerOp::Unreserve { who, amount }));
    }

    fn take_ticket(&mut self, who: AccountId, footprint: Footprint) -> (r: Result<T::Ticket, DispatchError>)
        requires
            old(self).wf(),
        ensures
            final(self).wf(),
            final(self)@.status == old(self)@.status,
            final(self)@.old_status == old(self)@.old_status,
            final(self)@.preimages == old(self)@.preimages,
            final(self)@.events == old(self)@.events,
            final(self)@.ledger == old(self)@.ledger.push(LedgerOp::NewTicket { who, footprint, result: r }),
    {
        let r = T::new_ticket(&who, footprint);
        self.ledger = Ghost(self.ledger@.push(LedgerOp::NewTicket { who, footprint, result: r }));
        r
    }

    fn release_ticket(&mut self, who: AccountId, ticket: T::Ticket)
        requires
            old(self).wf(),
        ensures
            final(self).wf(),
            final(self)@.status == old(self)@.status,
            final(self)@.old_status == old(self)@.old_status,
            final(self)@.preimages == old(self)@.preimages,
            final(self)@.events == old(self)@.events,
            final(self)@.ledger == old(self)@.ledger.push(LedgerOp::DropTicket { who, ticket }),
    {
        let ghost g = ticket;
        let _ = T::drop_ticket(ticket, &who);
        self.ledger = Ghost(self.ledger@.push(LedgerOp::DropTicket { who, ticket: g }));
    }

    fn note_migrated(&mut self, hash: Hash, preimage: &[u8], maybe_depositor: Option<AccountId>, len: u32) -> (r: Result<(bool, Hash), DispatchError>)
        requires
            old(self).wf(),
            len == preimage@.len(),
            len <= MAX_SIZE,
        ensures
            final(self).wf(),
            note_spec(old(self)@, hash, preimage@, maybe_depositor, final(self)@, r),
            old(self)@.inv() && spec_blake2_256(preimage@) == hash
                ==> final(self)@.inv(),
    {
        let ghost pre = self@;
        let cur = self.request_status_for.remove(&hash);
        let status = match (cur, maybe_depositor) {
            (Some(RequestStatus::Requested { maybe_ticket, count, .. }), _) => {
                RequestStatus::Requested { maybe_ticket, count, maybe_len: Some(len) }
            },
            (Some(RequestStatus::Unrequested { ticket, len: l }), Some(_)) => {
                self.request_status_for.insert(hash, RequestStatus::Unrequested { ticket, len: l });
                assert(self@ =~= pre);
                return Err(DispatchError::Module(ModuleError::Preimage(PreimageError::AlreadyNoted)));
            },
            (Some(RequestStatus::Unrequested { ticket, len: l }), None) => {
                RequestStatus::Requested { maybe_ticket: Some(ticket), count: 1, maybe_len: Some(l) }
            },
            (None, None) => RequestStatus::Requested { maybe_ticket: None, count: 1, maybe_len: Some(len) },
            (None, Some(depositor)) => {
                match self.take_ticket(depositor, Footprint::from_parts(1, len as u64)) {
                    Ok(ticket) => RequestStatus::Unrequested { ticket: (depositor, ticket), len },
                    Err(e) => {
                        assert(self@.status =~= pre.status);
                        return Err(e);
                    },
                }
            },
        };
        let was_requested = matches!(status, RequestStatus::Requested { .. });
        self.request_status_for.insert(hash, status);
        self.insert_preimage(&hash, preimage);
        self.events.push(Event::Noted { hash });
        proof {
            assert(self@.status =~= pre.status.insert(hash, self@.status[hash]));
            if pre.inv() && spec_blake2_256(preimage@) == hash {
                assert(len == preimage@.len());
                let post = self@;
                assert forall|h: Hash| #[trigger] post.status.contains_key(h) implies status_count_ok(post.status[h]) && (status_len(
                    post.status[h],
                ) matches Some(l) ==> post.preimages.contains_key(PreimageKey { hash: h, len: l })) by {
                    if h != hash {
                        assert(pre.status.contains_key(h));
                    } else {
                        assert(status_count_ok(post.status[h]));
                        assert(status_len(post.status[h]) matches Some(l) ==> post.preimages.contains_key(PreimageKey { hash: h, len: l }));
                    }
                }
                assert forall|k: PreimageKey| #[trigger] post.preimages.contains_key(k) implies post.preimages[k].len() == k.len
                    && spec_blake2_256(post.preimages[k]) == k.hash by {
                    if k != (PreimageKey { hash: hash, len: preimage@.len() as u32 }) {
                        assert(pre.preimages.contains_key(k));
                    }
                }
                assert(post.inv());
                assert forall|h: Hash| #[trigger] post.old_status.contains_key(h) implies old_status_count_ok(post.old_status[h]) && (
                    old_status_len(post.old_status[h]) matches Some(l) ==> post.preimages.contains_key(
                    PreimageKey { hash: h, len: l })) by {
                    assert(pre.old_status.contains_key(h));
                }
            }
        }
        Ok((was_requested, hash))
    }

    /// Stores the preimage `preimage` of `hash`; `maybe_depositor` is the user
    /// who notes it, or `None` when the system does (which also requests it).
    ///
    /// A preimage longer than `MAX_SIZE` is refused with `TooBig`. Returns
    /// whether the preimage is requested, and its hash.
    pub fn note_bytes_hashed(&mut self, hash: Hash, preimage: &[u8], maybe_depositor: Option<AccountId>) -> (r: Result<(bool, Hash), DispatchError>)
        requires
            old(self).wf(),
        ensures
            final(self).wf(),
            note_bytes_spec(old(self)@, hash, preimage@, maybe_depositor, final(self)@, r),
            old(self)@.inv() && spec_blake2_256(preimage@) == hash
                ==> final(self)@.inv(),
    {
        if preimage.len() > MAX_SIZE as usize {
            return Err(DispatchError::Module(ModuleError::Preimage(PreimageError::TooBig)));
        }
        let len: u32 = preimage.len() as u32;
        let ghost pre = self@;
        self.do_ensure_updated(&hash);
        let ghost mid = self@;
        let r = self.note_migrated(hash, preimage, maybe_depositor, len);
        assert(migrates(pre, hash, mid));
        r
    }

    /// Stores `preimage` under its BLAKE2b-256 hash; see `note_bytes_hashed`.
    pub fn note_bytes(&mut self, preimage: &[u8], maybe_depositor: Option<AccountId>) -> (r: Result<(bool, Hash), DispatchError>)
        requires
            old(self).wf(),
        ensures
            final(self).wf(),
            note_bytes_spec(old(self)@, spec_blake2_256(preimage@), preimage@, maybe_depositor, final(self)@, r),
            old(self)@.inv() ==> final(self)@.inv(),
    {
        let hash = blake2_256(preimage);
        self.note_bytes_hashed(hash, preimage, maybe_depositor)
    }

    /// Requests the preimage of `hash`: the request is counted, and a
    /// preimage that a user noted leaves their control, their ticket dropped
    /// (their deposit returned).
    pub fn do_request_preimage(&mut self, hash: &Hash)
        requires
            old(self).wf(),
        ensures
            final(self).wf(),
            request_op_spec(old(self)@, *hash, final(self)@),
            old(self)@.inv() ==> final(self)@.inv(),
    {
        let ghost pre = self@;
        self.do_ensure_updated(hash);
        let ghost mid = self@;
        let cur = self.request_status_for.remove(hash);
        let (count, maybe_len, maybe_ticket) = match cur {
            Some(RequestStatus::Requested { maybe_ticket, count, maybe_len }) => {
                let c = if count < u32::MAX {
                    count + 1
                } else {
                    count
                };
                (c, maybe_len, maybe_ticket)
            },
            Some(RequestStatus::Unrequested { ticket: (owner, ticket), len }) => {
                self.release_ticket(owner, ticket);
                (1, Some(len), None)
            },
            None => (1, None, None),
        };
        self.request_status_for.insert(*hash, RequestStatus::Requested { maybe_ticket, count, maybe_len });
        if count == 1 {
            self.events.push(Event::Requested { hash: *hash });
        }
        proof {
            assert(self@.status =~= mid.status.insert(*hash, requested_status(mid.status.get(*hash))));
            assert(migrates(pre, *hash, mid));
            if mid.inv() {
                let post = self@;
                assert forall|h: Hash| #[trigger] post.status.contains_key(h) implies status_count_ok(post.status[h]) && (status_len(
                    post.status[h],
                ) matches Some(l) ==> post.preimages.contains_key(PreimageKey { hash: h, len: l })) by {
                    if h != *hash {
                        assert(mid.status.contains_key(h));
                    } else if mid.status.contains_key(h) {
                        assert(status_count_ok(mid.status[h]));
                    }
                }
                assert forall|h: Hash| #[trigger] post.old_status.contains_key(h) implies old_status_count_ok(post.old_status[h]) && (
                    old_status_len(post.old_status[h]) matches Some(l) ==> post.preimages.contains_key(
                    PreimageKey { hash: h, len: l })) by {
                    assert(mid.old_status.contains_key(h));
                }
            }
        }
    }

    fn unrequest_migrated(&mut self, hash: &Hash) -> (r: Result<(), DispatchError>)
        requires
            old(self).wf(),
            !old(self)@.old_status.contains_key(*hash),
        ensures
            final(self).wf(),
            unrequest_spec(old(self)@, *hash, final(self)@, r),
            old(self)@.inv() ==> final(self)@.inv(),
    {
        let ghost pre = self@;
        let cur = self.request_status_for.remove(hash);
        match cur {
            None => {
                assert(self@ =~= pre);
                return Err(DispatchError::Module(ModuleError::Preimage(PreimageError::NotRequested)));
            },
            Some(RequestStatus::Unrequested { ticket, len }) => {
                self.request_status_for.insert(*hash, RequestStatus::Unrequested { ticket, len });
                assert(self@ =~= pre);
                return Err(DispatchError::Module(ModuleError::Preimage(PreimageError::NotRequested)));
            },
            Some(RequestStatus::Requested { maybe_ticket, count, maybe_len }) => {
                if count > 1 {
                    self.request_status_for.insert(
                        *hash,
                        RequestStatus::Requested { maybe_ticket, count: count - 1, maybe_len },
                    );
                    assert(self@.status =~= pre.status.insert(*hash, self@.status[*hash]));
                } else {
                    match maybe_len {
                        None => {},
                        Some(len) => match maybe_ticket {
                            None => {
                                self.remove_preimage(hash, len);
                                self.events.push(Event::Cleared { hash: *hash });
                            },
                            Some(ticket) => {
                                self.request_status_for.insert(
                                    *hash,
                                    RequestStatus::Unrequested { ticket, len },
                                );
                                assert(self@.status =~= pre.status.insert(*hash, self@.status[*hash]));
                            },
                        },
                    }
                }
            },
        }
        proof {
            if pre.inv() {
                let post = self@;
                assert forall|h: Hash| #[trigger] post.status.contains_key(h) implies status_count_ok(post.status[h]) && (status_len(
                    post.status[h],
                ) matches Some(l) ==> post.preimages.contains_key(PreimageKey { hash: h, len: l })) by {
                    assert(pre.status.contains_key(h));
                }
                assert forall|h: Hash| #[trigger] post.old_status.contains_key(h) implies old_status_count_ok(post.old_status[h]) && (
                    old_status_len(post.old_status[h]) matches Some(l) ==> post.preimages.contains_key(
                    PreimageKey { hash: h, len: l })) by {
                    assert(pre.old_status.contains_key(h));
                }
                assert forall|k: PreimageKey| #[trigger] post.preimages.contains_key(k) implies post.preimages[k].len() == k.len
                    && spec_blake2_256(post.preimages[k]) == k.hash by {
                    assert(pre.preimages.contains_key(k));
                }
            }
        }
        Ok(())
    }

    /// Clears a request of the preimage of `hash`; fails with `NotRequested`
    /// if the hash is not requested.
    pub fn do_unrequest_preimage(&mut self, hash: &Hash) -> (r: Result<(), DispatchError>)
        requires
            old(self).wf(),
        ensures
            final(self).wf(),
            unrequest_op_spec(old(self)@, *hash, final(self)@, r),
            old(self)@.inv() ==> final(self)@.inv(),
    {
        let ghost pre = self@;
        self.do_ensure_updated(hash);
        let ghost mid = self@;
        assert(!mid.old_status.contains_key(*hash));
        let r = self.unrequest_migrated(hash);
        assert(migrates(pre, *hash, mid));
        r
    }

    fn unnote_migrated(&mut self, hash: &Hash, maybe_check_owner: Option<AccountId>) -> (r: Result<(), DispatchError>)
        requires
            old(self).wf(),
            !old(self)@.old_status.contains_key(*hash),
        ensures
            final(self).wf(),
            unnote_spec(old(self)@, *hash, maybe_check_owner, final(self)@, r),
            old(self)@.inv() ==> final(self)@.inv(),
    {
        let ghost pre = self@;
        let cur = self.request_status_for.remove(hash);
        match cur {
            None => {
                assert(self@ =~= pre);
                Err(DispatchError::Module(ModuleError::Preimage(PreimageError::NotNoted)))
            },
            Some(RequestStatus::Requested { maybe_ticket: Some((owner, ticket)), count, maybe_len }) => {
                let authorized = match maybe_check_owner {
                    Some(c) => c == owner,
                    None => true,
                };
                if !authorized {
                    self.request_status_for.insert(
                        *hash,
                        RequestStatus::Requested { maybe_ticket: Some((owner, ticket)), count, maybe_len },
                    );
                    assert(self@ =~= pre);
                    return Err(DispatchError::Module(ModuleError::Preimage(PreimageError::NotAuthorized)));
                }
                self.release_ticket(owner, ticket);
                self.request_status_for.insert(
                    *hash,
                    RequestStatus::Requested { maybe_ticket: None, count, maybe_len },
                );
                proof {
                    assert(self@.status =~= pre.status.insert(*hash, self@.status[*hash]));
                    if pre.inv() {
                        let post = self@;
                        assert forall|h: Hash| #[trigger] post.status.contains_key(h) implies status_count_ok(post.status[h]) && (status_len(
                            post.status[h],
                        ) matches Some(l) ==> post.preimages.contains_key(PreimageKey { hash: h, len: l })) by {
                            assert(pre.status.contains_key(h));
                        }
                    }
                }
                Ok(())
            },
            Some(RequestStatus::Requested { maybe_ticket: None, count, maybe_len }) => {
                self.request_status_for.insert(
                    *hash,
                    RequestStatus::Requested { maybe_ticket: None, count, maybe_len },
                );
                assert(self@ =~= pre);
                if maybe_check_owner.is_some() {
                    return Err(DispatchError::Module(ModuleError::Preimage(PreimageError::NotAuthorized)));
                }
                let r = self.do_unrequest_preimage(hash);
                proof {
                    let mid = choose|mid: PreimagesView<T::Ticket>| #[trigger] migrates(pre, *hash, mid)
                        && unrequest_spec(mid, *hash, self@, r);
                    lemma_migrates_without_legacy(pre, *hash, mid);
                }
                r
            },
            Some(RequestStatus::Unrequested { ticket: (owner, ticket), len }) => {
                let authorized = match maybe_check_owner {
                    Some(c) => c == owner,
                    None => true,
                };
                if !authorized {
                    self.request_status_for.insert(
                        *hash,
                        RequestStatus::Unrequested { ticket: (owner, ticket), len },
                    );
                    assert(self@ =~= pre);
                    return Err(DispatchError::Module(ModuleError::Preimage(PreimageError::NotAuthorized)));
                }
                self.release_ticket(owner, ticket);
                self.remove_preimage(hash, len);
                self.events.push(Event::Cleared { hash: *hash });
                proof {
                    if pre.inv() {
                        let post = self@;
                        assert forall|h: Hash| #[trigger] post.status.contains_key(h) implies status_count_ok(post.status[h]) && (status_len(
                            post.status[h],
                        ) matches Some(l) ==> post.preimages.contains_key(PreimageKey { hash: h, len: l })) by {
                            assert(pre.status.contains_key(h));
                        }
                        assert forall|h: Hash| #[trigger] post.old_status.contains_key(h) implies old_status_count_ok(post.old_status[h]) && (
                            old_status_len(post.old_status[h]) matches Some(l) ==> post.preimages.contains_key(
                            PreimageKey { hash: h, len: l })) by {
                            assert(pre.old_status.contains_key(h));
                        }
                        assert forall|k: PreimageKey| #[trigger] post.preimages.contains_key(k) implies post.preimages[k].len() == k.len
                            && spec_blake2_256(post.preimages[k]) == k.hash by {
                            assert(pre.preimages.contains_key(k));
                        }
                    }
                }
                Ok(())
            },
        }
    }

    /// Removes the preimage of `hash` on behalf of `maybe_check_owner`, or of
    /// the system if `None`, releasing the ticket held for it.
    pub fn do_unnote_preimage(&mut self, hash: &Hash, maybe_check_owner: Option<AccountId>) -> (r: Result<(), DispatchError>)
        requires
            old(self).wf(),
        ensures
            final(self).wf(),
            unnote_op_spec(old(self)@, *hash, maybe_check_owner, final(self)@, r),
            old(self)@.inv() ==> final(self)@.inv(),
    {
        let ghost pre = self@;
        self.do_ensure_updated(hash);
        let ghost mid = self@;
        let r = self.unnote_migrated(hash, maybe_check_owner);
        assert(migrates(pre, *hash, mid));
        r
    }

    /// The length of the preimage of `hash`, if it is noted.
    pub fn len(&mut self, hash: &Hash) -> (r: Option<u32>)
        requires
            old(self).wf(),
        ensures
            final(self).wf(),
            migrates(old(self)@, *hash, final(self)@),
            r == recorded_len(final(self)@.status.get(*hash)),
            old(self)@.inv() ==> final(self)@.inv(),
    {
        self.do_ensure_updated(hash);
        match self.request_status_for.get(hash) {
            Some(RequestStatus::Requested { maybe_len: Some(len), .. }) => Some(*len),
            Some(RequestStatus::Unrequested { len, .. }) => Some(*len),
            _ => None,
        }
    }

    /// Whether the preimage of `hash` is noted.
    pub fn have(&mut self, hash: &Hash) -> (r: bool)
        requires
            old(self).wf(),
        ensures
            final(self).wf(),
            migrates(old(self)@, *hash, final(self)@),
            r == recorded_len(final(self)@.status.get(*hash)) is Some,
            old(self)@.inv() ==> final(self)@.inv(),
    {
        self.len(hash).is_some()
    }

    /// The preimage of `hash` with length `len`; without a length, the
    /// recorded length of the noted preimage. `Unavailable` if none is stored.
    pub fn fetch(&mut self, hash: &Hash, len: Option<u32>) -> (r: Result<Vec<u8>, DispatchError>)
        requires
            old(self).wf(),
        ensures
            final(self).wf(),
            len is Some ==> final(self)@ == old(self)@,
            len is None ==> migrates(old(self)@, *hash, final(self)@),
            ({
                let l = if len is Some {
                    len
                } else {
                    recorded_len(final(self)@.status.get(*hash))
                };
                match l {
                    Some(l) => {
                        let k = PreimageKey { hash: *hash, len: l };
                        match r {
                            Ok(v) => final(self)@.preimages.contains_key(k) && v@ == final(self)@.preimages[k],
                            Err(e) => !final(self)@.preimages.contains_key(k) && e == DispatchError::Unavailable,
                        }
                    },
                    None => r == Err::<Vec<u8>, DispatchError>(DispatchError::Unavailable),
                }
            }),
            old(self)@.inv() ==> final(self)@.inv(),
    {
        let l = match len {
            Some(l) => l,
            None => match self.len(hash) {
                Some(l) => l,
                None => {
                    return Err(DispatchError::Unavailable);
                },
            },
        };
        let key = PreimageKey { hash: *hash, len: l };
        match self.preimage_for.get(&key) {
            Some(v) => Ok(vstd::slice::slice_to_vec(v.as_slice())),
            None => Err(DispatchError::Unavailable),
        }
    }

    /// The preimage of `hash`, if it is noted and stored.
    pub fn get_preimage(&mut self, hash: &Hash) -> (r: Option<Vec<u8>>)
        requires
            old(self).wf(),
        ensures
            final(self).wf(),
            get_preimage_spec(old(self)@, *hash, final(self)@, bytes_option_view(r)),
            old(self)@.inv() ==> final(self)@.inv(),
    {
        match self.fetch(hash, None) {
            Ok(v) => Some(v),
            Err(_) => None,
        }
    }

    /// Whether the preimage of `hash` is requested.
    pub fn is_requested(&mut self, hash: &Hash) -> (r: bool)
        requires
            old(self).wf(),
        ensures
            final(self).wf(),
            migrates(old(self)@, *hash, final(self)@),
            r == is_requested_status(final(self)@.status.get(*hash)),
            old(self)@.inv() ==> final(self)@.inv(),
    {
        self.do_ensure_updated(hash);
        matches!(self.request_status_for.get(hash), Some(RequestStatus::Requested { .. }))
    }

    fn migrate_all(&mut self, hashes: &[Hash]) -> (updated: u32)
        requires
            old(self).wf(),
            hashes@.len() <= MAX_HASH_UPGRADE_BULK_COUNT,
        ensures
            final(self).wf(),
            migrates_all(old(self)@, hashes@, final(self)@),
            updated == count_migrated(old(self)@.old_status, hashes@),
            updated <= hashes@.len(),
            old(self)@.inv() ==> final(self)@.inv(),
    {
        let ghost pre = self@;
        let mut updated: u32 = 0;
        let mut i: usize = 0;
        proof {
            assert(pre.ledger.subrange(0, pre.ledger.len() as int) =~= pre.ledger);
            lemma_migrates_each_empty(pre, hashes@.subrange(0, 0));
            assert(hashes@.subrange(0, 0).to_set() =~= Set::<Hash>::empty());
            assert(pre.old_status.remove_keys(Set::<Hash>::empty()) =~= pre.old_status);
        }
        while i < hashes.len()
            invariant
                self.wf(),
                0 <= i <= hashes@.len(),
                hashes@.len() <= MAX_HASH_UPGRADE_BULK_COUNT,
                migrates_all(pre, hashes@.subrange(0, i as int), self@),
                updated == count_migrated(pre.old_status, hashes@.subrange(0, i as int)),
                updated <= i,
                pre.inv() ==> self@.inv(),
            decreases hashes@.len() - i,
        {
            let ghost s0 = self@;
            let ghost p0 = hashes@.subrange(0, i as int);
            let h = hashes[i];
            let r = self.do_ensure_updated(&h);
            if r {
                updated = updated + 1;
            }
            i = i + 1;
            proof {
                lemma_migrates_extends_ledger(s0, h, self@);
                lemma_ledger_extends_trans(pre.ledger, s0.ledger, self@.ledger);
                let p1 = hashes@.subrange(0, i as int);
                assert(p1.drop_last() =~= p0);
                assert(p1.last() == h);
                assert(migrates_each(pre, p0, s0));
                assert(migrates(s0, h, self@));
                assert(p0.push(h) =~= p1);
                lemma_migrates_each_step(pre, p0, s0, h, self@);
                assert(p1.to_set() =~= p0.to_set().insert(h));
                assert(p0.contains(h) == p0.to_set().contains(h));
                assert(self@.old_status =~= pre.old_status.remove_keys(p1.to_set()));
                assert forall|hh: Hash|
                    #![trigger self@.status.get(hh)]
                    if p1.contains(hh) && pre.old_status.contains_key(hh) {
                        migrated_entry(pre.old_status[hh], pre.status.get(hh), self@.status.get(hh))
                    } else {
                        self@.status.get(hh) == pre.status.get(hh)
                    } by {
                    assert(p1.contains(hh) == (p0.contains(hh) || hh == h)) by {
                        if hh == h {
                            assert(p1[p1.len() - 1] == hh);
                        }
                        if p0.contains(hh) {
                            let j = choose|j: int| 0 <= j < p0.len() && p0[j] == hh;
                            assert(p1[j] == hh);
                        }
                        if p1.contains(hh) && hh != h {
                            let j = choose|j: int| 0 <= j < p1.len() && p1[j] == hh;
                            assert(j < p0.len());
                            assert(p0[j] == hh);
                        }
                    }
                    assert(s0.status.get(hh) == pre.status.get(hh) || (p0.contains(hh)
                        && pre.old_status.contains_key(hh))) by {
                        assert(s0.status.get(hh) == s0.status.get(hh));
                    }
                    if hh != h {
                        assert(self@.status.get(hh) == s0.status.get(hh));
                    } else if !s0.old_status.contains_key(hh) {
                        assert(self@.status.get(hh) == s0.status.get(hh));
                    }
                }
            }
        }
        proof {
            assert(hashes@.subrange(0, hashes@.len() as int) =~= hashes@);
        }
        updated
    }

    /// Migrates the legacy statuses of a bulk of hashes, on behalf of a
    /// signed origin. The sender pays no fee if at least 90% of the hashes
    /// had a legacy status.
    pub fn ensure_updated(&mut self, origin: CallOrigin, hashes: &[Hash]) -> (r: Result<Pays, DispatchError>)
        requires
            old(self).wf(),
        ensures
            final(self).wf(),
            origin.signer is None ==> r == Err::<Pays, DispatchError>(DispatchError::BadOrigin),
            origin.signer is Some && hashes@.len() == 0 ==> r == Err::<Pays, DispatchError>(
                preimage_error(PreimageError::TooFew),
            ),
            origin.signer is Some && hashes@.len() > MAX_HASH_UPGRADE_BULK_COUNT ==> r == Err::<Pays, DispatchError>(
                preimage_error(PreimageError::TooMany),
            ),
            r is Err ==> final(self)@ == old(self)@,
            origin.signer is Some && 0 < hashes@.len() <= MAX_HASH_UPGRADE_BULK_COUNT ==> {
                &&& migrates_all(old(self)@, hashes@, final(self)@)
                &&& r == Ok::<Pays, DispatchError>(bulk_pays(count_migrated(old(self)@.old_status, hashes@), hashes@.len()))
            },
            old(self)@.inv() ==> final(self)@.inv(),
    {
        if origin.signer.is_none() {
            return Err(DispatchError::BadOrigin);
        }
        if hashes.len() == 0 {
            return Err(DispatchError::Module(ModuleError::Preimage(PreimageError::TooFew)));
        }
        if hashes.len() > MAX_HASH_UPGRADE_BULK_COUNT as usize {
            return Err(DispatchError::Module(ModuleError::Preimage(PreimageError::TooMany)));
        }
        let updated = self.migrate_all(hashes);
        let n: u32 = hashes.len() as u32;
        if 10 * updated < 9 * n {
            Ok(Pays::Yes)
        } else {
            Ok(Pays::No)
        }
    }

    /// The request status of `hash`, as stored.
    pub fn request_status(&self, hash: &Hash) -> (r: Option<&RequestStatus<T::Ticket>>)
        requires
            self.wf(),
        ensures
            r is Some == self@.status.contains_key(*hash),
            r matches Some(s) ==> *s == self@.status[*hash],
    {
        self.request_status_for.get(hash)
    }

    /// The legacy request status of `hash`, as stored.
    pub fn legacy_status(&self, hash: &Hash) -> (r: Option<OldRequestStatus>)
        requires
            self.wf(),
        ensures
            r == self@.old_status.get(*hash),
    {
        match self.status_for.get(hash) {
            Some(s) => Some(*s),
            None => None,
        }
    }

    /// Stores a legacy request status of `hash`, as a store written in the
    /// legacy format holds it.
    pub fn insert_legacy_status(&mut self, hash: Hash, status: OldRequestStatus)
        requires
            old(self).wf(),
        ensures
            final(self).wf(),
            final(self)@.old_status == old(self)@.old_status.insert(hash, status),
            final(self)@.status == old(self)@.status,
            final(self)@.preimages == old(self)@.preimages,
            final(self)@.events == old(self)@.events,
    {
        self.status_for.insert(hash, status);
    }

    /// The stored preimage of `hash` of length `len`.
    pub fn preimage_for(&self, hash: &Hash, len: u32) -> (r: Option<&Vec<u8>>)
        requires
            self.wf(),
        ensures
            r is Some == self@.preimages.contains_key(PreimageKey { hash: *hash, len }),
            r matches Some(v) ==> v@ == self@.preimages[PreimageKey { hash: *hash, len }],
    {
        self.preimage_for.get(&PreimageKey { hash: *hash, len })
    }

    /// The events emitted so far.
    pub fn events(&self) -> (r: &Vec<Event>)
        ensures
            r@ == self@.events,
    {
        &self.events
    }

    /// The sender an origin acts as: `None` for the manager origin, the
    /// signer otherwise; `BadOrigin` if the origin is neither.
    pub fn ensure_signed_or_manager(origin: CallOrigin) -> (r: Result<Option<AccountId>, DispatchError>)
        ensures
            match sender_of(origin) {
                Some(s) => r == Ok::<Option<AccountId>, DispatchError>(s),
                None => r == Err::<Option<AccountId>, DispatchError>(DispatchError::BadOrigin),
            },
    {
        if origin.is_manager {
            return Ok(None);
        }
        match origin.signer {
            Some(who) => Ok(Some(who)),
            None => Err(DispatchError::BadOrigin),
        }
    }

    /// Registers a preimage on behalf of a signed origin or the manager.
    ///
    /// If the preimage was previously requested, or the manager notes it, no
    /// fee is paid (`Pays::No`) and no ticket taken; otherwise the signer
    /// holds a ticket for it.
    ///
    /// On an error after the legacy status of the hash was migrated, the
    /// migration and the calls into `Config` that it made stay: undoing them
    /// is the work of the storage layer that the runtime runs each call in,
    /// which this store does not hold.
    pub fn note_preimage(&mut self, origin: CallOrigin, bytes: &[u8]) -> (r: Result<Pays, DispatchError>)
        requires
            old(self).wf(),
        ensures
            final(self).wf(),
            match sender_of(origin) {
                None => r == Err::<Pays, DispatchError>(DispatchError::BadOrigin) && final(self)@ == old(self)@,
                Some(sender) => exists|nr: Result<(bool, Hash), DispatchError>| #[trigger] note_bytes_spec(
                    old(self)@,
                    spec_blake2_256(bytes@),
                    bytes@,
                    sender,
                    final(self)@,
                    nr,
                ) && r == note_pays(nr, sender),
            },
            old(self)@.inv() ==> final(self)@.inv(),
    {
        let maybe_sender = match Self::ensure_signed_or_manager(origin) {
            Ok(s) => s,
            Err(e) => {
                return Err(e);
            },
        };
        let nr = self.note_bytes(bytes, maybe_sender);
        match nr {
            Ok((system_requested, _)) => {
                if system_requested || maybe_sender.is_none() {
                    Ok(Pays::No)
                } else {
                    Ok(Pays::Yes)
                }
            },
            Err(e) => Err(e),
        }
    }

    /// Clears an unrequested preimage on behalf of its owner, or of the
    /// manager.
    ///
    /// On an error after the legacy status of the hash was migrated, the
    /// migration and the calls into `Config` that it made stay: undoing them
    /// is the work of the storage layer that the runtime runs each call in,
    /// which this store does not hold.
    pub fn unnote_preimage(&mut self, origin: CallOrigin, hash: Hash) -> (r: Result<(), DispatchError>)
        requires
            old(self).wf(),
        ensures
            final(self).wf(),
            match sender_of(origin) {
                None => r == Err::<(), DispatchError>(DispatchError::BadOrigin) && final(self)@ == old(self)@,
                Some(sender) => unnote_op_spec(old(self)@, hash, sender, final(self)@, r),
            },
            old(self)@.inv() ==> final(self)@.inv(),
    {
        let maybe_sender = match Self::ensure_signed_or_manager(origin) {
            Ok(s) => s,
            Err(e) => {
                return Err(e);
            },
        };
        self.do_unnote_preimage(&hash, maybe_sender)
    }

    /// Requests a preimage, on behalf of the manager.
    pub fn request_preimage(&mut self, origin: CallOrigin, hash: Hash) -> (r: Result<(), DispatchError>)
        requires
            old(self).wf(),
        ensures
            final(self).wf(),
            !origin.is_manager ==> r == Err::<(), DispatchError>(DispatchError::BadOrigin) && final(self)@ == old(self)@,
            origin.is_manager ==> r == Ok::<(), DispatchError>(()) && request_op_spec(old(self)@, hash, final(self)@),
            old(self)@.inv() ==> final(self)@.inv(),
    {
        if !origin.is_manager {
            return Err(DispatchError::BadOrigin);
        }
        self.do_request_preimage(&hash);
        Ok(())
    }

    /// Clears a previously made request for a preimage, on behalf of the
    /// manager.
    ///
    /// On an error after the legacy status of the hash was migrated, the
    /// migration and the calls into `Config` that it made stay: undoing them
    /// is the work of the storage layer that the runtime runs each call in,
    /// which this store does not hold.
    pub fn unrequest_preimage(&mut self, origin: CallOrigin, hash: Hash) -> (r: Result<(), DispatchError>)
        requires
            old(self).wf(),
        ensures
            final(self).wf(),
            !origin.is_manager ==> r == Err::<(), DispatchError>(DispatchError::BadOrigin) && final(self)@ == old(self)@,
            origin.is_manager ==> unrequest_op_spec(old(self)@, hash, final(self)@, r),
            old(self)@.inv() ==> final(self)@.inv(),
    {
        if !origin.is_manager {
            return Err(DispatchError::BadOrigin);
        }
        self.do_unrequest_preimage(&hash)
    }

    /// Stores `bytes` as a preimage noted by the system, giving its hash;
    /// too long a preimage is refused with `Exhausted`.
    pub fn note(&mut self, bytes: &[u8]) -> (r: Result<Hash, DispatchError>)
        requires
            old(self).wf(),
        ensures
            final(self).wf(),
            bytes@.len() > MAX_SIZE ==> r == Err::<Hash, DispatchError>(DispatchError::Exhausted)
                && final(self)@ == old(self)@,
            bytes@.len() <= MAX_SIZE ==> r == Ok::<Hash, DispatchError>(spec_blake2_256(bytes@))
                && note_bytes_spec(
                old(self)@,
                spec_blake2_256(bytes@),
                bytes@,
                None,
                final(self)@,
                Ok::<(bool, Hash), DispatchError>((true, spec_blake2_256(bytes@))),
            ),
            old(self)@.inv() ==> final(self)@.inv(),
    {
        let nr = self.note_bytes(bytes, None);
        proof {
            if bytes@.len() <= MAX_SIZE {
                let h = spec_blake2_256(bytes@);
                let mid = choose|mid: PreimagesView<T::Ticket>| #[trigger] migrates(old(self)@, h, mid)
                    && note_spec(mid, h, bytes@, None, self@, nr);
                assert(self@.status[h] is Requested);
            }
        }
        match nr {
            Ok((_, h)) => Ok(h),
            Err(DispatchError::Module(ModuleError::Preimage(PreimageError::TooBig))) => Err(DispatchError::Exhausted),
            Err(e) => Err(e),
        }
    }

    /// Removes the preimage of `hash` on behalf of the system; the result of
    /// the removal is discarded.
    pub fn unnote(&mut self, hash: &Hash)
        requires
            old(self).wf(),
        ensures
            final(self).wf(),
            exists|r: Result<(), DispatchError>| #[trigger] unnote_op_spec(old(self)@, *hash, None, final(self)@, r),
            old(self)@.inv() ==> final(self)@.inv(),
    {
        let _ = self.do_unnote_preimage(hash, None);
    }

    /// Requests the preimage of `hash` (see `do_request_preimage`).
    pub fn request(&mut self, hash: &Hash)
        requires
            old(self).wf(),
        ensures
            final(self).wf(),
            request_op_spec(old(self)@, *hash, final(self)@),
            old(self)@.inv() ==> final(self)@.inv(),
    {
        self.do_request_preimage(hash)
    }

    /// Clears a request of the preimage of `hash`; the result of the
    /// clearing is discarded.
    pub fn unrequest(&mut self, hash: &Hash)
        requires
            old(self).wf(),
        ensures
            final(self).wf(),
            exists|r: Result<(), DispatchError>| #[trigger] unrequest_op_spec(old(self)@, *hash, final(self)@, r),
            old(self)@.inv() ==> final(self)@.inv(),
    {
        let _ = self.do_unrequest_preimage(hash);
    }

    /// Migrates the legacy status of `hash`, if any, into the current format:
    /// its deposit is unreserved and a ticket is taken for it instead.
    /// Returns whether a legacy status was found.
    pub fn do_ensure_updated(&mut self, hash: &Hash) -> (r: bool)
        requires
            old(self).wf(),
        ensures
            final(self).wf(),
            r == old(self)@.old_status.contains_key(*hash),
            migrates(old(self)@, *hash, final(self)@),
            old(self)@.inv() ==> final(self)@.inv(),
    {
        let ghost pre = self@;
        let o = match self.status_for.remove(hash) {
            Some(o) => o,
            None => {
                assert(self@.old_status =~= pre.old_status);
                return false;
            },
        };
        let n = match o {
            OldRequestStatus::Unrequested { deposit: (who, amount), len } => {
                self.unreserve_deposit(who, amount);
                match self.take_ticket(who, Footprint::from_parts(1, len as u64)) {
                    Ok(ticket) => RequestStatus::Unrequested { ticket: (who, ticket), len },
                    Err(_) => {
                        return true;
                    },
                }
            },
            OldRequestStatus::Requested { deposit, count, len } => {
                let maybe_ticket = match deposit {
                    Some((who, amount)) => {
                        self.unreserve_deposit(who, amount);
                        match len {
                            Some(l) => match self.take_ticket(who, Footprint::from_parts(1, l as u64)) {
                                Ok(ticket) => Some((who, ticket)),
                                Err(_) => {
                                    return true;
                                },
                            },
                            None => None,
                        }
                    },
                    None => None,
                };
                RequestStatus::Requested { maybe_ticket, count, maybe_len: len }
            },
        };
        self.request_status_for.insert(*hash, n);
        proof {
            assert(self@.status =~= pre.status.insert(*hash, self@.status[*hash]));
            if pre.inv() {
                let post = self@;
                assert forall|h: Hash| #[trigger] post.status.contains_key(h) implies status_count_ok(post.status[h]) && (status_len(
                    post.status[h],
                ) matches Some(l) ==> post.preimages.contains_key(PreimageKey { hash: h, len: l })) by {
                    if h != *hash {
                        assert(pre.status.contains_key(h));
                    } else {
                        assert(pre.old_status.contains_key(h));
                        assert(old_status_count_ok(pre.old_status[h]));
                    }
                }
                assert forall|h: Hash| #[trigger] post.old_status.contains_key(h) implies old_status_count_ok(post.old_status[h]) && (
                    old_status_len(post.old_status[h]) matches Some(l) ==> post.preimages.contains_key(
                    PreimageKey { hash: h, len: l })) by {
                    assert(pre.old_status.contains_key(h));
                }
                assert forall|k: PreimageKey| #[trigger] post.preimages.contains_key(k) implies post.preimages[k].len() == k.len
                    && spec_blake2_256(post.preimages[k]) == k.hash by {
                    assert(pre.preimages.contains_key(k));
                }
                assert(post.inv());
            }
        }
        true
    }
}

} // verus!
