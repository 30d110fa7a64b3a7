//! A store that keeps everything in memory. It never fails, and what it
//! holds is gone with it.

use vstd::prelude::*;
use vstd::hash_map::StringHashMap;
use std::collections::HashMap;
use crate::bytes::copy_bytes;
use crate::error::StorageError;
use crate::identity::Identity;
use crate::keys::{PreKey, PreKeyId};
use crate::store::{identity_of, Store, StoreState};

verus! {

broadcast use vstd::std_specs::hash::group_hash_axioms;

/// The bytes of every value of a map.
pub open spec fn contents<K>(m: Map<K, Vec<u8>>) -> Map<K, Seq<u8>> {
    m.map_values(|v: Vec<u8>| v@)
}

proof fn lemma_contents_insert<K>(m: Map<K, Vec<u8>>, k: K, v: Vec<u8>)
    ensures
        contents(m.insert(k, v)) == contents(m).insert(k, v@),
{
    assert(contents(m.insert(k, v)) =~= contents(m).insert(k, v@));
}

proof fn lemma_contents_remove<K>(m: Map<K, Vec<u8>>, k: K)
    ensures
        contents(m.remove(k)) == contents(m).remove(k),
{
    assert(contents(m.remove(k)) =~= contents(m).remove(k));
}

/// A store in memory.
pub struct MemStore {
    identity: Option<Identity>,
    sessions: StringHashMap<Vec<u8>>,
    prekeys: HashMap<u16, Vec<u8>>,
}

impl MemStore {
    /// A store that holds nothing.
    pub fn new() -> (store: MemStore)
        ensures
            store.state() == (StoreState {
                identity: None,
                sessions: Map::empty(),
                prekeys: Map::empty(),
            }),
    {
        let store = MemStore {
            identity: None,
            sessions: StringHashMap::new(),
            prekeys: HashMap::new(),
        };
        proof {
            assert(contents(store.sessions@) =~= Map::<Seq<char>, Seq<u8>>::empty());
            assert(contents(store.prekeys@) =~= Map::<u16, Seq<u8>>::empty());
        }
        store
    }
}

impl Store for MemStore {
    closed spec fn state(&self) -> StoreState {
        StoreState {
            identity: identity_of(self.identity),
            sessions: contents(self.sessions@),
            prekeys: contents(self.prekeys@),
        }
    }

    fn load_session(&self, id: &str) -> (r: Result<Option<Vec<u8>>, StorageError>)
        ensures
            r is Ok,
    {
        match self.sessions.get(id) {
            Some(state) => Ok(Some(copy_bytes(state))),
            None => Ok(None),
        }
    }

    fn save_session(&mut self, id: &str, s: &[u8]) -> (r: Result<(), StorageError>)
        ensures
            r is Ok,
    {
        let state = copy_bytes(s);
        proof {
            lemma_contents_insert(self.sessions@, id@, state);
        }
        self.sessions.insert(id.to_owned(), state);
        Ok(())
    }

    fn delete_session(&mut self, id: &str) -> (r: Result<(), StorageError>)
        ensures
            r is Ok,
    {
        proof {
            lemma_contents_remove(self.sessions@, id@);
        }
        self.sessions.remove(id);
        Ok(())
    }

    fn load_identity(&self) -> (r: Result<Option<Identity>, StorageError>)
        ensures
            r is Ok,
    {
        match &self.identity {
            Some(id) => Ok(Some(id.clone())),
            None => Ok(None),
        }
    }

    fn save_identity(&mut self, id: &Identity) -> (r: Result<(), StorageError>)
        ensures
            r is Ok,
    {
        self.identity = Some(id.clone());
        Ok(())
    }

    fn load_prekey(&self, id: PreKeyId) -> (r: Result<Option<PreKey>, StorageError>)
        ensures
            r is Ok,
    {
        let n: u16 = id.value();
        match self.prekeys.get(&n) {
            Some(encoded) => Ok(Some(PreKey::new(id, copy_bytes(encoded)))),
            None => Ok(None),
        }
    }

    fn add_prekey(&mut self, key: &PreKey) -> (r: Result<(), StorageError>)
        ensures
            r is Ok,
    {
        let encoded = copy_bytes(&key.encoded);
        proof {
            lemma_contents_insert(self.prekeys@, key.key_id.0, encoded);
        }
        self.prekeys.insert(key.key_id.value(), encoded);
        Ok(())
    }

    fn delete_prekey(&mut self, id: PreKeyId) -> (r: Result<(), StorageError>)
        ensures
            r is Ok,
    {
        if !id.is_last_resort() {
            proof {
                lemma_contents_remove(self.prekeys@, id.0);
            }
            let n: u16 = id.value();
            self.prekeys.remove(&n);
        }
        Ok(())
    }
}

} // verus!
