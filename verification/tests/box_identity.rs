use cryptobox::cbox::{adopt, open_identity, open_identity_with, reconcile, CBox};
use cryptobox::error::CBoxError;
use cryptobox::identity::{Identity, IdentityMode};
use cryptobox::keys::{IdentityKey, IdentityKeyPair};
use cryptobox::memory::MemStore;
use cryptobox::store::Store;

fn pair(seed: u8) -> IdentityKeyPair {
    let key = IdentityKey::new(vec![seed; 32], vec![0x41, seed]);
    IdentityKeyPair::new(key, vec![0x42, seed, seed])
}

fn stored(store: &MemStore) -> Option<Identity> {
    store.load_identity().unwrap()
}

fn is_sec_of(id: &Option<Identity>, seed: u8) -> bool {
    match id {
        Some(Identity::Sec(p)) => p.public_key.key == vec![seed; 32] && p.encoded == vec![0x42, seed, seed],
        _ => false,
    }
}

fn is_pub_of(id: &Option<Identity>, seed: u8) -> bool {
    match id {
        Some(Identity::Pub(k)) => k.key == vec![seed; 32] && k.encoded == vec![0x41, seed],
        _ => false,
    }
}

#[test]
fn open_mints_an_identity_for_an_empty_store() {
    let cbox = CBox::open(MemStore::new(), pair(1)).unwrap();
    assert_eq!(cbox.identity().public_key.key, vec![1u8; 32]);
    assert_eq!(cbox.fingerprint(), "01".repeat(32));
    assert!(is_sec_of(&stored(cbox.store()), 1));
}

#[test]
fn open_twice_yields_the_same_identity() {
    let first = CBox::open(MemStore::new(), pair(1)).unwrap();
    let key = first.identity().public_key.key.clone();
    let fingerprint = first.fingerprint();
    let second = CBox::open(first.into_store(), pair(2)).unwrap();
    assert_eq!(second.identity().public_key.key, key);
    assert_eq!(second.identity().encoded, vec![0x42, 1, 1]);
    assert_eq!(second.fingerprint(), fingerprint);
    assert!(is_sec_of(&stored(second.store()), 1));
}

#[test]
fn open_refuses_a_store_with_a_public_key_only() {
    let mut store = MemStore::new();
    store.save_identity(&Identity::Pub(pair(1).public_key)).unwrap();
    assert!(matches!(CBox::open(store, pair(2)), Err(CBoxError::IdentityError)));
}

#[test]
fn open_identity_leaves_a_refused_store_alone() {
    let mut store = MemStore::new();
    store.save_identity(&Identity::Pub(pair(1).public_key)).unwrap();
    assert!(matches!(open_identity(&mut store, pair(2)), Err(CBoxError::IdentityError)));
    assert!(is_pub_of(&stored(&store), 1));
}

#[test]
fn adopt_takes_the_stored_pair_or_the_fresh_one() {
    assert_eq!(adopt(None, pair(2)).unwrap().encoded, vec![0x42, 2, 2]);
    assert_eq!(adopt(Some(Identity::Sec(pair(1))), pair(2)).unwrap().encoded, vec![0x42, 1, 1]);
    assert!(matches!(
        adopt(Some(Identity::Pub(pair(1).public_key)), pair(2)),
        Err(CBoxError::IdentityError)
    ));
}

#[test]
fn open_with_writes_the_asked_form_into_an_empty_store() {
    let cbox = CBox::open_with(MemStore::new(), pair(3), IdentityMode::Complete).unwrap();
    assert!(is_sec_of(&stored(cbox.store()), 3));
    assert_eq!(cbox.identity().encoded, vec![0x42, 3, 3]);
    let cbox = CBox::open_with(MemStore::new(), pair(3), IdentityMode::Public).unwrap();
    assert!(is_pub_of(&stored(cbox.store()), 3));
    assert_eq!(cbox.identity().encoded, vec![0x42, 3, 3]);
}

#[test]
fn open_with_cuts_a_stored_pair_down_for_public_mode() {
    let cbox = CBox::open(MemStore::new(), pair(3)).unwrap();
    let cbox = CBox::open_with(cbox.into_store(), pair(3), IdentityMode::Public).unwrap();
    assert!(is_pub_of(&stored(cbox.store()), 3));
}

#[test]
fn open_with_keeps_a_stored_pair_for_complete_mode() {
    let cbox = CBox::open(MemStore::new(), pair(3)).unwrap();
    let cbox = CBox::open_with(cbox.into_store(), pair(3), IdentityMode::Complete).unwrap();
    assert!(is_sec_of(&stored(cbox.store()), 3));
}

#[test]
fn open_with_fills_a_stored_public_key_up_for_complete_mode() {
    let cbox = CBox::open_with(MemStore::new(), pair(3), IdentityMode::Public).unwrap();
    let cbox = CBox::open_with(cbox.into_store(), pair(3), IdentityMode::Complete).unwrap();
    assert!(is_sec_of(&stored(cbox.store()), 3));
}

#[test]
fn open_with_keeps_a_stored_public_key_for_public_mode() {
    let cbox = CBox::open_with(MemStore::new(), pair(3), IdentityMode::Public).unwrap();
    let cbox = CBox::open_with(cbox.into_store(), pair(3), IdentityMode::Public).unwrap();
    assert!(is_pub_of(&stored(cbox.store()), 3));
}

#[test]
fn open_with_refuses_another_identity() {
    let cbox = CBox::open(MemStore::new(), pair(1)).unwrap();
    let r = CBox::open_with(cbox.into_store(), pair(2), IdentityMode::Complete);
    assert!(matches!(r, Err(CBoxError::IdentityError)));
    let cbox = CBox::open_with(MemStore::new(), pair(1), IdentityMode::Public).unwrap();
    let r = CBox::open_with(cbox.into_store(), pair(2), IdentityMode::Public);
    assert!(matches!(r, Err(CBoxError::IdentityError)));
}

#[test]
fn identity_mismatch_on_open_with_leaves_the_store_as_it_was() {
    // the store takes the identity I
    let cbox = CBox::open(MemStore::new(), pair(1)).unwrap();
    let mut store = cbox.into_store();
    // J is refused, in either form
    let r = open_identity_with(&mut store, &pair(2), IdentityMode::Complete);
    assert!(matches!(r, Err(CBoxError::IdentityError)));
    assert!(is_sec_of(&stored(&store), 1));
    let r = open_identity_with(&mut store, &pair(2), IdentityMode::Public);
    assert!(matches!(r, Err(CBoxError::IdentityError)));
    assert!(is_sec_of(&stored(&store), 1));
    // and the store still opens under I
    let cbox = CBox::open(store, pair(9)).unwrap();
    assert_eq!(cbox.identity().public_key.key, vec![1u8; 32]);
}

#[test]
fn only_the_public_key_counts_when_identities_are_compared() {
    // the same public key under another encoding
    let other = IdentityKeyPair::new(IdentityKey::new(vec![1u8; 32], vec![0x00]), vec![0x01]);
    let stored = Some(Identity::Sec(pair(1)));
    assert!(matches!(reconcile(&stored, &other, IdentityMode::Complete), Ok(None)));
    let other = IdentityKeyPair::new(IdentityKey::new(vec![1u8; 31], vec![0x41, 1]), vec![0x42, 1, 1]);
    assert!(matches!(
        reconcile(&stored, &other, IdentityMode::Complete),
        Err(CBoxError::IdentityError)
    ));
}

#[test]
fn reconcile_says_what_to_write() {
    let w = reconcile(&None, &pair(4), IdentityMode::Complete).unwrap();
    assert!(is_sec_of(&w, 4));
    let w = reconcile(&None, &pair(4), IdentityMode::Public).unwrap();
    assert!(is_pub_of(&w, 4));
    let w = reconcile(&Some(Identity::Sec(pair(4))), &pair(4), IdentityMode::Public).unwrap();
    assert!(is_pub_of(&w, 4));
    let w = reconcile(&Some(Identity::Pub(pair(4).public_key)), &pair(4), IdentityMode::Complete)
        .unwrap();
    assert!(is_sec_of(&w, 4));
    let w = reconcile(&Some(Identity::Pub(pair(4).public_key)), &pair(4), IdentityMode::Public)
        .unwrap();
    assert!(w.is_none());
}
