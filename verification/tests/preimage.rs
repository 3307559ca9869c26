use frame_assets::dispatch::{DispatchError, ModuleError, PreimageError};
use frame_assets::preimage::{
    AccountId, Balance, CallOrigin, Config, Event, Footprint, OldRequestStatus, Pays,
    Preimages, RequestStatus, MAX_HASH_UPGRADE_BULK_COUNT, MAX_SIZE,
};

/// An account that cannot pay for a ticket.
const POOR: AccountId = 99;

/// Tickets that record the footprint they were taken for.
struct Deposits;

impl Config for Deposits {
    type Ticket = Footprint;

    fn new_ticket(who: &AccountId, footprint: Footprint) -> Result<Footprint, DispatchError> {
        if *who == POOR {
            Err(DispatchError::Other)
        } else {
            Ok(footprint)
        }
    }

    fn drop_ticket(_ticket: Footprint, _who: &AccountId) -> Result<(), DispatchError> {
        Ok(())
    }

    fn unreserve(_who: &AccountId, _amount: Balance) -> Balance {
        0
    }
}

fn signed(who: AccountId) -> CallOrigin {
    CallOrigin { is_manager: false, signer: Some(who) }
}

fn manager() -> CallOrigin {
    CallOrigin { is_manager: true, signer: None }
}

fn unsigned() -> CallOrigin {
    CallOrigin { is_manager: false, signer: None }
}

fn blake2_256(bytes: &[u8]) -> [u8; 32] {
    let h = blake2b_simd::Params::new().hash_length(32).hash(bytes);
    let mut out = [0u8; 32];
    out.copy_from_slice(h.as_bytes());
    out
}

fn preimage_err(e: PreimageError) -> DispatchError {
    DispatchError::Module(ModuleError::Preimage(e))
}

#[test]
fn system_note_hashes_with_blake2_256() {
    let mut s = Preimages::<Deposits>::new();
    let h = s.note(b"").unwrap();
    let expected: [u8; 32] = [
        0x0e, 0x57, 0x51, 0xc0, 0x26, 0xe5, 0x43, 0xb2, 0xe8, 0xab, 0x2e, 0xb0, 0x60, 0x99, 0xda,
        0xa1, 0xd1, 0xe5, 0xdf, 0x47, 0x77, 0x8f, 0x77, 0x87, 0xfa, 0xab, 0x45, 0xcd, 0xf1, 0x2f,
        0xe3, 0xa8,
    ];
    assert_eq!(h, expected);
    let h2 = s.note(b"hello").unwrap();
    assert_eq!(h2, blake2_256(b"hello"));
    assert_ne!(h2, [0u8; 32]);
}

#[test]
fn signed_note_takes_a_ticket_and_pays() {
    let mut s = Preimages::<Deposits>::new();
    assert_eq!(s.note_preimage(signed(1), b"abc"), Ok(Pays::Yes));
    let h = blake2_256(b"abc");
    match s.request_status(&h) {
        Some(RequestStatus::Unrequested { ticket, len }) => {
            assert_eq!(ticket.0, 1);
            assert_eq!(ticket.1, Footprint { count: 1, size: 3 });
            assert_eq!(*len, 3);
        },
        _ => panic!("expected an unrequested status"),
    }
    assert_eq!(s.preimage_for(&h, 3), Some(&b"abc".to_vec()));
    assert_eq!(s.events(), &vec![Event::Noted { hash: h }]);
    assert!(s.have(&h));
    assert_eq!(s.len(&h), Some(3));
    assert!(!s.is_requested(&h));
    assert_eq!(s.get_preimage(&h), Some(b"abc".to_vec()));
}

#[test]
fn noting_twice_is_refused() {
    let mut s = Preimages::<Deposits>::new();
    assert_eq!(s.note_preimage(signed(1), b"abc"), Ok(Pays::Yes));
    assert_eq!(s.note_preimage(signed(2), b"abc"), Err(preimage_err(PreimageError::AlreadyNoted)));
    assert_eq!(s.events().len(), 1);
}

#[test]
fn manager_notes_for_free_without_a_ticket() {
    let mut s = Preimages::<Deposits>::new();
    assert_eq!(s.note_preimage(manager(), b"abcd"), Ok(Pays::No));
    let h = blake2_256(b"abcd");
    match s.request_status(&h) {
        Some(RequestStatus::Requested { maybe_ticket, count, maybe_len }) => {
            assert!(maybe_ticket.is_none());
            assert_eq!(*count, 1);
            assert_eq!(*maybe_len, Some(4));
        },
        _ => panic!("expected a requested status"),
    }
    assert!(s.is_requested(&h));
}

#[test]
fn unsigned_origin_is_refused() {
    let mut s = Preimages::<Deposits>::new();
    let h = blake2_256(b"x");
    assert_eq!(s.note_preimage(unsigned(), b"x"), Err(DispatchError::BadOrigin));
    assert_eq!(s.unnote_preimage(unsigned(), h), Err(DispatchError::BadOrigin));
    assert_eq!(s.request_preimage(signed(1), h), Err(DispatchError::BadOrigin));
    assert_eq!(s.unrequest_preimage(signed(1), h), Err(DispatchError::BadOrigin));
    assert!(s.events().is_empty());
    assert!(s.request_status(&h).is_none());
}

#[test]
fn ensure_signed_or_manager_decides_the_sender() {
    assert_eq!(Preimages::<Deposits>::ensure_signed_or_manager(manager()), Ok(None));
    assert_eq!(Preimages::<Deposits>::ensure_signed_or_manager(signed(7)), Ok(Some(7)));
    assert_eq!(
        Preimages::<Deposits>::ensure_signed_or_manager(unsigned()),
        Err(DispatchError::BadOrigin)
    );
}

#[test]
fn noting_a_requested_preimage_is_free() {
    let mut s = Preimages::<Deposits>::new();
    let h = blake2_256(b"wanted");
    assert_eq!(s.request_preimage(manager(), h), Ok(()));
    assert_eq!(s.note_preimage(signed(3), b"wanted"), Ok(Pays::No));
    match s.request_status(&h) {
        Some(RequestStatus::Requested { maybe_ticket, count, maybe_len }) => {
            assert!(maybe_ticket.is_none());
            assert_eq!(*count, 1);
            assert_eq!(*maybe_len, Some(6));
        },
        _ => panic!("expected a requested status"),
    }
    assert_eq!(s.events(), &vec![Event::Requested { hash: h }, Event::Noted { hash: h }]);
    assert_eq!(s.get_preimage(&h), Some(b"wanted".to_vec()));
    assert_eq!(s.fetch(&h, Some(6)), Ok(b"wanted".to_vec()));
}

#[test]
fn owner_unnotes_and_others_cannot() {
    let mut s = Preimages::<Deposits>::new();
    assert_eq!(s.note_preimage(signed(1), b"mine"), Ok(Pays::Yes));
    let h = blake2_256(b"mine");
    assert_eq!(s.unnote_preimage(signed(2), h), Err(preimage_err(PreimageError::NotAuthorized)));
    assert!(s.have(&h));
    assert_eq!(s.unnote_preimage(signed(1), h), Ok(()));
    assert!(s.request_status(&h).is_none());
    assert!(s.preimage_for(&h, 4).is_none());
    assert!(!s.have(&h));
    assert_eq!(s.events(), &vec![Event::Noted { hash: h }, Event::Cleared { hash: h }]);
}

#[test]
fn unnoting_an_unknown_preimage_is_refused() {
    let mut s = Preimages::<Deposits>::new();
    let h = blake2_256(b"nothing");
    assert_eq!(s.unnote_preimage(manager(), h), Err(preimage_err(PreimageError::NotNoted)));
}

#[test]
fn unrequesting_an_unrequested_hash_is_refused() {
    let mut s = Preimages::<Deposits>::new();
    let h = blake2_256(b"nothing");
    assert_eq!(s.unrequest_preimage(manager(), h), Err(preimage_err(PreimageError::NotRequested)));
    assert_eq!(s.note_preimage(signed(1), b"nothing"), Ok(Pays::Yes));
    assert_eq!(s.unrequest_preimage(manager(), h), Err(preimage_err(PreimageError::NotRequested)));
}

#[test]
fn request_then_unrequest_forgets_the_hash() {
    let mut s = Preimages::<Deposits>::new();
    let h = blake2_256(b"later");
    assert_eq!(s.request_preimage(manager(), h), Ok(()));
    assert!(s.is_requested(&h));
    assert!(!s.have(&h));
    assert_eq!(s.unrequest_preimage(manager(), h), Ok(()));
    assert!(s.request_status(&h).is_none());
    assert_eq!(s.events(), &vec![Event::Requested { hash: h }]);
}

#[test]
fn requests_are_counted() {
    let mut s = Preimages::<Deposits>::new();
    let h = blake2_256(b"counted");
    s.request(&h);
    s.request(&h);
    match s.request_status(&h) {
        Some(RequestStatus::Requested { count, .. }) => assert_eq!(*count, 2),
        _ => panic!("expected a requested status"),
    }
    assert_eq!(s.events(), &vec![Event::Requested { hash: h }]);
    s.unrequest(&h);
    assert!(s.is_requested(&h));
    s.unrequest(&h);
    assert!(!s.is_requested(&h));
    assert!(s.request_status(&h).is_none());
}

#[test]
fn requesting_a_user_preimage_takes_it_from_them() {
    let mut s = Preimages::<Deposits>::new();
    assert_eq!(s.note_preimage(signed(4), b"back"), Ok(Pays::Yes));
    let h = blake2_256(b"back");
    s.request(&h);
    match s.request_status(&h) {
        Some(RequestStatus::Requested { maybe_ticket, count, maybe_len }) => {
            assert!(maybe_ticket.is_none());
            assert_eq!(*count, 1);
            assert_eq!(*maybe_len, Some(4));
        },
        _ => panic!("expected a requested status"),
    }
    assert_eq!(s.get_preimage(&h), Some(b"back".to_vec()));
    s.unrequest(&h);
    assert!(s.request_status(&h).is_none());
    assert!(s.preimage_for(&h, 4).is_none());
    assert_eq!(
        s.events(),
        &vec![Event::Noted { hash: h }, Event::Requested { hash: h }, Event::Cleared { hash: h }]
    );
}

#[test]
fn a_requested_preimage_leaves_its_owner_control() {
    let mut s = Preimages::<Deposits>::new();
    assert_eq!(s.note_preimage(signed(5), b"kept"), Ok(Pays::Yes));
    let h = blake2_256(b"kept");
    assert_eq!(s.request_preimage(manager(), h), Ok(()));
    assert_eq!(s.unnote_preimage(signed(5), h), Err(preimage_err(PreimageError::NotAuthorized)));
    match s.request_status(&h) {
        Some(RequestStatus::Requested { maybe_ticket, count, maybe_len }) => {
            assert!(maybe_ticket.is_none());
            assert_eq!(*count, 1);
            assert_eq!(*maybe_len, Some(4));
        },
        _ => panic!("expected a requested status"),
    }
    assert_eq!(s.fetch(&h, None), Ok(b"kept".to_vec()));
    assert_eq!(s.unnote_preimage(manager(), h), Ok(()));
    assert!(s.request_status(&h).is_none());
    assert!(s.preimage_for(&h, 4).is_none());
}

#[test]
fn system_note_then_unnote_clears() {
    let mut s = Preimages::<Deposits>::new();
    let h = s.note(b"sys").unwrap();
    assert!(s.is_requested(&h));
    s.unnote(&h);
    assert!(s.request_status(&h).is_none());
    assert!(s.preimage_for(&h, 3).is_none());
    assert_eq!(s.events(), &vec![Event::Noted { hash: h }, Event::Cleared { hash: h }]);
}

#[test]
fn too_big_preimages_are_refused() {
    let mut s = Preimages::<Deposits>::new();
    let big = vec![0u8; MAX_SIZE as usize + 1];
    assert_eq!(s.note_preimage(signed(1), &big), Err(preimage_err(PreimageError::TooBig)));
    assert_eq!(s.note(&big), Err(DispatchError::Exhausted));
    assert!(s.events().is_empty());
    let fits = vec![1u8; MAX_SIZE as usize];
    let h = s.note(&fits).unwrap();
    assert_eq!(s.len(&h), Some(MAX_SIZE));
}

#[test]
fn fetch_by_length_and_by_recorded_length() {
    let mut s = Preimages::<Deposits>::new();
    let h = s.note(b"fetch me").unwrap();
    assert_eq!(s.fetch(&h, Some(8)), Ok(b"fetch me".to_vec()));
    assert_eq!(s.fetch(&h, Some(7)), Err(DispatchError::Unavailable));
    assert_eq!(s.fetch(&h, None), Ok(b"fetch me".to_vec()));
    let unknown = blake2_256(b"unknown");
    assert_eq!(s.fetch(&unknown, None), Err(DispatchError::Unavailable));
    assert_eq!(s.get_preimage(&unknown), None);
    assert_eq!(s.len(&unknown), None);
}

#[test]
fn a_legacy_status_is_migrated_on_first_use() {
    let mut s = Preimages::<Deposits>::new();
    let h = blake2_256(b"old");
    s.insert_legacy_status(h, OldRequestStatus::Unrequested { deposit: (6, 100), len: 3 });
    assert_eq!(s.legacy_status(&h), Some(OldRequestStatus::Unrequested { deposit: (6, 100), len: 3 }));
    assert_eq!(s.len(&h), Some(3));
    assert_eq!(s.legacy_status(&h), None);
    match s.request_status(&h) {
        Some(RequestStatus::Unrequested { ticket, len }) => {
            assert_eq!(ticket.0, 6);
            assert_eq!(ticket.1, Footprint { count: 1, size: 3 });
            assert_eq!(*len, 3);
        },
        _ => panic!("expected an unrequested status"),
    }
}

#[test]
fn a_requested_legacy_status_keeps_its_count() {
    let mut s = Preimages::<Deposits>::new();
    let h = blake2_256(b"old requested");
    s.insert_legacy_status(
        h,
        OldRequestStatus::Requested { deposit: Some((8, 10)), count: 3, len: Some(13) },
    );
    assert!(s.do_ensure_updated(&h));
    assert!(!s.do_ensure_updated(&h));
    match s.request_status(&h) {
        Some(RequestStatus::Requested { maybe_ticket, count, maybe_len }) => {
            let t = maybe_ticket.as_ref().unwrap();
            assert_eq!(t.0, 8);
            assert_eq!(t.1, Footprint { count: 1, size: 13 });
            assert_eq!(*count, 3);
            assert_eq!(*maybe_len, Some(13));
        },
        _ => panic!("expected a requested status"),
    }
}

#[test]
fn a_legacy_status_without_a_new_ticket_is_dropped() {
    let mut s = Preimages::<Deposits>::new();
    let h = blake2_256(b"poor");
    s.insert_legacy_status(h, OldRequestStatus::Unrequested { deposit: (POOR, 100), len: 4 });
    assert!(s.do_ensure_updated(&h));
    assert_eq!(s.legacy_status(&h), None);
    assert!(s.request_status(&h).is_none());
}

#[test]
fn bulk_update_checks_its_origin_and_size() {
    let mut s = Preimages::<Deposits>::new();
    let h = blake2_256(b"one");
    assert_eq!(s.ensure_updated(unsigned(), &[h]), Err(DispatchError::BadOrigin));
    assert_eq!(s.ensure_updated(signed(1), &[]), Err(preimage_err(PreimageError::TooFew)));
    let many = vec![h; MAX_HASH_UPGRADE_BULK_COUNT as usize + 1];
    assert_eq!(s.ensure_updated(signed(1), &many), Err(preimage_err(PreimageError::TooMany)));
    let most = vec![h; MAX_HASH_UPGRADE_BULK_COUNT as usize];
    assert_eq!(s.ensure_updated(signed(1), &most), Ok(Pays::Yes));
}

#[test]
fn bulk_update_is_free_when_nine_tenths_migrate() {
    let mut s = Preimages::<Deposits>::new();
    let hashes: Vec<[u8; 32]> = (0u8..10).map(|i| blake2_256(&[i])).collect();
    for h in hashes.iter().take(9) {
        s.insert_legacy_status(*h, OldRequestStatus::Requested { deposit: None, count: 1, len: None });
    }
    assert_eq!(s.ensure_updated(signed(1), &hashes), Ok(Pays::No));
    for h in hashes.iter() {
        assert_eq!(s.legacy_status(h), None);
    }
    assert!(s.is_requested(&hashes[0]));
    assert!(!s.is_requested(&hashes[9]));
}

#[test]
fn bulk_update_is_paid_below_nine_tenths() {
    let mut s = Preimages::<Deposits>::new();
    let hashes: Vec<[u8; 32]> = (0u8..10).map(|i| blake2_256(&[i])).collect();
    for h in hashes.iter().take(8) {
        s.insert_legacy_status(*h, OldRequestStatus::Requested { deposit: None, count: 2, len: None });
    }
    assert_eq!(s.ensure_updated(signed(1), &hashes), Ok(Pays::Yes));
    match s.request_status(&hashes[3]) {
        Some(RequestStatus::Requested { count, .. }) => assert_eq!(*count, 2),
        _ => panic!("expected a requested status"),
    }
}

#[test]
fn footprint_is_made_of_its_parts() {
    assert_eq!(Footprint::from_parts(2, 30), Footprint { count: 2, size: 30 });
}
