//! One session with a peer: its name, its ratchet, and the prekeys that the
//! ratchet has used up since the session was last saved.
//!
//! A ratchet that reads a first message asks for one of the local prekeys and
//! then declares it used. That declaration must not reach the store before
//! the session itself does: were the prekey deleted first and the session
//! then lost, the peer's message could never be read again. So a session
//! keeps the ids of used prekeys to itself, answers as if they were gone, and
//! hands them to the store only when it is saved.

use vstd::prelude::*;
use crate::error::{CBoxError, DecryptError, EncodeFailure, StorageError};
use crate::keys::{PreKey, PreKeyId, MAX_PREKEY_ID};
use crate::store::{encoding_of, lookup, without_prekey, Store, StoreState};

verus! {

/// The numbers of a list of prekey ids.
pub open spec fn numbers(ids: Seq<PreKeyId>) -> Seq<u16> {
    ids.map_values(|id: PreKeyId| id.0)
}

/// What a session sees of the prekey `id`: nothing once it has used the
/// prekey up, else what the store holds.
pub open spec fn visible(used: Seq<u16>, prekeys: Map<u16, Seq<u8>>, id: u16) -> Option<Seq<u8>> {
    if used.contains(id) {
        None
    } else {
        lookup(prekeys, id)
    }
}

/// The prekeys of a store as one session sees them: those of the store,
/// without the ones that the session has used up. Using one up changes
/// nothing in the store.
#[derive(Debug)]
pub struct ReadOnlyStore {
    removed: Vec<PreKeyId>,
}

impl View for ReadOnlyStore {
    type V = Seq<u16>;

    /// The ids used up so far, oldest first.
    closed spec fn view(&self) -> Seq<u16> {
        numbers(self.removed@)
    }
}

impl Clone for ReadOnlyStore {
    fn clone(&self) -> (r: ReadOnlyStore)
        ensures
            r@ == self@,
    {
        let mut removed: Vec<PreKeyId> = Vec::new();
        let mut i: usize = 0;
        while i < self.removed.len()
            invariant
                i <= self.removed.len(),
                removed@ == self.removed@.take(i as int),
            decreases self.removed.len() - i,
        {
            removed.push(self.removed[i]);
            proof {
                assert(self.removed@.take(i + 1) == self.removed@.take(i as int).push(
                    self.removed@[i as int],
                ));
            }
            i = i + 1;
        }
        proof {
            assert(self.removed@.take(i as int) == self.removed@);
        }
        ReadOnlyStore { removed }
    }
}

impl ReadOnlyStore {
    /// A view in which nothing is used up yet.
    pub fn new() -> (r: ReadOnlyStore)
        ensures
            r@ == Seq::<u16>::empty(),
    {
        let r = ReadOnlyStore { removed: Vec::new() };
        proof {
            assert(numbers(r.removed@) =~= Seq::<u16>::empty());
        }
        r
    }

    /// Whether `id` was used up.
    pub fn is_removed(&self, id: PreKeyId) -> (r: bool)
        ensures
            r == self@.contains(id.0),
    {
        let mut i: usize = 0;
        while i < self.removed.len()
            invariant
                i <= self.removed.len(),
                forall|j: int| 0 <= j < i ==> numbers(self.removed@)[j] != id.0,
            decreases self.removed.len() - i,
        {
            if self.removed[i].value() == id.value() {
                proof {
                    assert(numbers(self.removed@)[i as int] == id.0);
                }
                return true;
            }
            i = i + 1;
        }
        false
    }

    /// The prekey `id` as the session sees it. A prekey that was used up is
    /// gone, and the store is not asked; else the store answers.
    pub fn prekey<S: Store>(&self, store: &S, id: PreKeyId) -> (r: Result<
        Option<PreKey>,
        StorageError,
    >)
        ensures
            r matches Ok(found) ==> encoding_of(found) == visible(
                self@,
                store.state().prekeys,
                id.0,
            ),
            r matches Ok(Some(k)) ==> k.key_id == id,
            self@.contains(id.0) ==> r is Ok,
    {
        if self.is_removed(id) {
            Ok(None)
        } else {
            store.load_prekey(id)
        }
    }

    /// Notes that `id` was used up. This cannot fail.
    pub fn remove(&mut self, id: PreKeyId) -> (r: Result<(), StorageError>)
        ensures
            r is Ok,
            final(self)@ == old(self)@.push(id.0),
    {
        self.removed.push(id);
        proof {
            assert(numbers(self.removed@) =~= numbers(old(self).removed@).push(id.0));
        }
        Ok(())
    }
}

/// The ids that leave the store when a session that used up `used` is saved:
/// all of them but that of the last-resort prekey.
pub open spec fn consumed(used: Seq<u16>) -> Set<u16> {
    Set::new(|id: u16| used.contains(id) && id != MAX_PREKEY_ID)
}

/// The store after the session `name` was saved with the state `state`,
/// having used up the prekeys `used`.
pub open spec fn saved(st: StoreState, name: Seq<char>, state: Seq<u8>, used: Seq<u16>) -> StoreState {
    StoreState {
        identity: st.identity,
        sessions: st.sessions.insert(name, state),
        prekeys: st.prekeys.remove_keys(consumed(used)),
    }
}

/// What a [`CBoxSession`] holds.
pub struct CBoxSessionView<R> {
    /// The name that the caller gave to the session.
    pub name: Seq<char>,
    /// The ids of the prekeys used up since the session was last saved.
    pub pending: Seq<u16>,
    /// The state of the ratchet.
    pub ratchet: R,
}

/// A session with a peer. `R` is the ratchet, which this crate carries and
/// never looks into.
pub struct CBoxSession<R> {
    sident: String,
    store: ReadOnlyStore,
    session: R,
}

impl<R> View for CBoxSession<R> {
    type V = CBoxSessionView<R>;

    closed spec fn view(&self) -> CBoxSessionView<R> {
        CBoxSessionView { name: self.sident@, pending: self.store@, ratchet: self.session }
    }
}

/// Makes a session of the name `id` from a ratchet and the view of the
/// prekeys that the ratchet was set up with.
pub fn new_session<R>(id: String, store: ReadOnlyStore, s: R) -> (r: CBoxSession<R>)
    ensures
        r@ == (CBoxSessionView { name: id@, pending: store@, ratchet: s }),
{
    CBoxSession { sident: id, store, session: s }
}

proof fn lemma_consumed_step(prekeys: Map<u16, Seq<u8>>, used: Seq<u16>, i: int)
    requires
        0 <= i < used.len(),
    ensures
        without_prekey(prekeys.remove_keys(consumed(used.take(i))), used[i])
            == prekeys.remove_keys(consumed(used.take(i + 1))),
{
    let before = used.take(i);
    let after = used.take(i + 1);
    assert(after == before.push(used[i]));
    assert forall|id: u16| after.contains(id) <==> (before.contains(id) || id == used[i]) by {
        if after.contains(id) {
            let j = choose|j: int| 0 <= j < after.len() && after[j] == id;
            if j < i {
                assert(before[j] == id);
            }
        }
        if before.contains(id) {
            let j = choose|j: int| 0 <= j < before.len() && before[j] == id;
            assert(after[j] == id);
        }
        if id == used[i] {
            assert(after[i] == id);
        }
    }
    assert(without_prekey(prekeys.remove_keys(consumed(before)), used[i])
        =~= prekeys.remove_keys(consumed(after)));
}

impl<R> CBoxSession<R> {
    /// The name that the caller gave to the session.
    pub fn identifier(&self) -> (id: &str)
        ensures
            id@ == self@.name,
    {
        self.sident.as_str()
    }

    /// The ratchet.
    pub fn session(&self) -> (r: &R)
        ensures
            *r == self@.ratchet,
    {
        &self.session
    }

    /// Gives up the session for its ratchet.
    pub fn into_session(self) -> (r: R)
        ensures
            r == self@.ratchet,
    {
        self.session
    }

    /// The ratchet, for one step. Whatever the step does to it, the session
    /// keeps its name and counts the same prekeys as used.
    pub fn session_mut(&mut self) -> (r: &mut R)
        ensures
            *r == old(self)@.ratchet,
            final(self)@ == (CBoxSessionView { ratchet: *final(r), ..old(self)@ }),
    {
        &mut self.session
    }

    /// A copy of the session's view of the prekeys, for the ratchet to ask
    /// and to mark while it reads a message. What it marks counts only once
    /// the message is read: see [`CBoxSession::decrypt`].
    pub fn prekeys(&self) -> (view: ReadOnlyStore)
        ensures
            view@ == self@.pending,
    {
        self.store.clone()
    }

    /// Takes in what the ratchet made of a text to send: the sealed message,
    /// or the reason why it could not be written out.
    pub fn encrypt(&self, outcome: Result<Vec<u8>, EncodeFailure>) -> (r: Result<Vec<u8>, CBoxError>)
        ensures
            r == match outcome {
                Ok(cipher) => Ok::<Vec<u8>, CBoxError>(cipher),
                Err(e) => Err(CBoxError::EncodeError(e)),
            },
    {
        match outcome {
            Ok(cipher) => Ok(cipher),
            Err(e) => Err(CBoxError::EncodeError(e)),
        }
    }

    /// Takes in what the ratchet made of a message, having worked on the
    /// copy `view` of the session's view of the prekeys. Where it read the
    /// message, the prekeys that it marked now count as used. Where it
    /// refused the message, the session counts what it counted before.
    pub fn decrypt(&mut self, view: ReadOnlyStore, outcome: Result<Vec<u8>, DecryptError>) -> (r:
        Result<Vec<u8>, CBoxError>)
        ensures
            r == match outcome {
                Ok(plain) => Ok::<Vec<u8>, CBoxError>(plain),
                Err(e) => Err(CBoxError::DecryptError(e)),
            },
            final(self)@ == (CBoxSessionView {
                pending: if outcome is Ok {
                    view@
                } else {
                    old(self)@.pending
                },
                ..old(self)@
            }),
    {
        match outcome {
            Ok(plain) => {
                self.store = view;
                Ok(plain)
            },
            Err(e) => Err(CBoxError::DecryptError(e)),
        }
    }

    /// Takes the ids of the prekeys used up out of the session, oldest
    /// first. The session then counts none as used.
    pub fn removed_prekeys(&mut self) -> (ids: Vec<PreKeyId>)
        ensures
            numbers(ids@) == old(self)@.pending,
            final(self)@ == (CBoxSessionView { pending: Seq::<u16>::empty(), ..old(self)@ }),
    {
        let mut ids: Vec<PreKeyId> = Vec::new();
        std::mem::swap(&mut ids, &mut self.store.removed);
        proof {
            assert(numbers(self.store.removed@) =~= Seq::<u16>::empty());
        }
        ids
    }

    /// Saves the session: writes `state`, the encoding of its ratchet, under
    /// the session's name, and then deletes from the store every prekey that
    /// the session used up, but never the last-resort prekey.
    ///
    /// The state is written first. Where the store fails, the session still
    /// counts the same prekeys as used, so that saving again finishes what
    /// was begun; the store is then either untouched or holds the state and
    /// lacks the first few of the prekeys.
    pub fn save<S: Store>(&mut self, store: &mut S, state: &[u8]) -> (r: Result<(), CBoxError>)
        ensures
            final(self)@.name == old(self)@.name,
            final(self)@.ratchet == old(self)@.ratchet,
            r is Ok ==> final(store).state() == saved(
                old(store).state(),
                old(self)@.name,
                state@,
                old(self)@.pending,
            ),
            r is Ok ==> final(self)@.pending == Seq::<u16>::empty(),
            r is Err ==> r matches Err(CBoxError::StorageError(_)),
            r is Err ==> final(self)@.pending == old(self)@.pending,
            r is Err ==> final(store).state() == old(store).state() || exists|k: int|
                0 <= k < old(self)@.pending.len() && final(store).state() == saved(
                    old(store).state(),
                    old(self)@.name,
                    state@,
                    old(self)@.pending.take(k),
                ),
    {
        let ghost before = store.state();
        let ghost used = self@.pending;
        match store.save_session(self.sident.as_str(), state) {
            Ok(()) => {},
            Err(e) => {
                return Err(CBoxError::StorageError(e));
            },
        }
        proof {
            assert(consumed(used.take(0)) =~= Set::<u16>::empty());
            assert(before.prekeys.remove_keys(Set::<u16>::empty()) =~= before.prekeys);
        }
        let mut i: usize = 0;
        while i < self.store.removed.len()
            invariant
                i <= self.store.removed.len(),
                self.store.removed == old(self).store.removed,
                self.sident == old(self).sident,
                self.session == old(self).session,
                used == numbers(self.store.removed@),
                used == old(self)@.pending,
                before == old(store).state(),
                store.state() == saved(before, self.sident@, state@, used.take(i as int)),
            decreases self.store.removed.len() - i,
        {
            let id = self.store.removed[i];
            if !id.is_last_resort() {
                match store.delete_prekey(id) {
                    Ok(()) => {},
                    Err(e) => {
                        proof {
                            let k = i as int;
                            assert(0 <= k < used.len() && store.state() == saved(
                                before,
                                self.sident@,
                                state@,
                                used.take(k),
                            ));
                        }
                        return Err(CBoxError::StorageError(e));
                    },
                }
            }
            proof {
                lemma_consumed_step(before.prekeys, used, i as int);
            }
            i = i + 1;
        }
        proof {
            assert(used.take(i as int) == used);
        }
        self.store.removed.clear();
        proof {
            assert(numbers(self.store.removed@) =~= Seq::<u16>::empty());
        }
        Ok(())
    }
}

} // verus!
