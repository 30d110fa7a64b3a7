//! The contract of a durable store: one identity record, the prekeys by id,
//! and the sessions by name.

use vstd::prelude::*;
use crate::error::StorageError;
use crate::identity::{Identity, IdentityView};
use crate::keys::{PreKey, PreKeyId, MAX_PREKEY_ID};

verus! {

/// What a store holds.
pub struct StoreState {
    /// The identity record, if one was written.
    pub identity: Option<IdentityView>,
    /// The saved state of each session, by the session's name.
    pub sessions: Map<Seq<char>, Seq<u8>>,
    /// The encoding of each prekey, by its id.
    pub prekeys: Map<u16, Seq<u8>>,
}

/// What `m` holds under `k`, if anything.
pub open spec fn lookup<K, V>(m: Map<K, V>, k: K) -> Option<V> {
    if m.contains_key(k) {
        Some(m[k])
    } else {
        None
    }
}

/// The bytes of a value that may be absent.
pub open spec fn bytes_of(v: Option<Vec<u8>>) -> Option<Seq<u8>> {
    match v {
        Some(b) => Some(b@),
        None => None,
    }
}

/// The encoding of a prekey that may be absent.
pub open spec fn encoding_of(v: Option<PreKey>) -> Option<Seq<u8>> {
    match v {
        Some(k) => Some(k@.encoded),
        None => None,
    }
}

/// The view of an identity that may be absent.
pub open spec fn identity_of(v: Option<Identity>) -> Option<IdentityView> {
    match v {
        Some(i) => Some(i@),
        None => None,
    }
}

/// The prekeys that are left when `id` is deleted: the last-resort prekey
/// stays whatever is asked.
pub open spec fn without_prekey(prekeys: Map<u16, Seq<u8>>, id: u16) -> Map<u16, Seq<u8>> {
    if id == MAX_PREKEY_ID {
        prekeys
    } else {
        prekeys.remove(id)
    }
}

/// A durable store. Each operation either takes effect as a whole or fails
/// and leaves the store as it was.
pub trait Store {
    /// What the store holds.
    spec fn state(&self) -> StoreState;

    /// The saved state of the session `id`, or `None` where there is none.
    fn load_session(&self, id: &str) -> (r: Result<Option<Vec<u8>>, StorageError>)
        ensures
            r matches Ok(found) ==> bytes_of(found) == lookup(self.state().sessions, id@),
    ;

    /// Writes the state of the session `id` over what was there.
    fn save_session(&mut self, id: &str, s: &[u8]) -> (r: Result<(), StorageError>)
        ensures
            r is Ok ==> final(self).state() == (StoreState {
                sessions: old(self).state().sessions.insert(id@, s@),
                ..old(self).state()
            }),
            r is Err ==> final(self).state() == old(self).state(),
    ;

    /// Deletes the session `id`. That there is none is no failure.
    fn delete_session(&mut self, id: &str) -> (r: Result<(), StorageError>)
        ensures
            r is Ok ==> final(self).state() == (StoreState {
                sessions: old(self).state().sessions.remove(id@),
                ..old(self).state()
            }),
            r is Err ==> final(self).state() == old(self).state(),
    ;

    /// The identity record, or `None` where none was written.
    fn load_identity(&self) -> (r: Result<Option<Identity>, StorageError>)
        ensures
            r matches Ok(found) ==> identity_of(found) == self.state().identity,
    ;

    /// Writes the identity record over what was there.
    fn save_identity(&mut self, id: &Identity) -> (r: Result<(), StorageError>)
        ensures
            r is Ok ==> final(self).state() == (StoreState {
                identity: Some(id@),
                ..old(self).state()
            }),
            r is Err ==> final(self).state() == old(self).state(),
    ;

    /// The prekey `id`, or `None` where there is none.
    fn load_prekey(&self, id: PreKeyId) -> (r: Result<Option<PreKey>, StorageError>)
        ensures
            r matches Ok(found) ==> encoding_of(found) == lookup(self.state().prekeys, id.0),
            r matches Ok(Some(k)) ==> k.key_id == id,
    ;

    /// Writes a prekey under its id, over what was there.
    fn add_prekey(&mut self, key: &PreKey) -> (r: Result<(), StorageError>)
        ensures
            r is Ok ==> final(self).state() == (StoreState {
                prekeys: old(self).state().prekeys.insert(key@.key_id, key@.encoded),
                ..old(self).state()
            }),
            r is Err ==> final(self).state() == old(self).state(),
    ;

    /// Deletes the prekey `id`. That there is none is no failure, and the
    /// last-resort prekey is left where it is.
    fn delete_prekey(&mut self, id: PreKeyId) -> (r: Result<(), StorageError>)
        ensures
            r is Ok ==> final(self).state() == (StoreState {
                prekeys: without_prekey(old(self).state().prekeys, id.0),
                ..old(self).state()
            }),
            r is Err ==> final(self).state() == old(self).state(),
    ;
}

} // verus!
