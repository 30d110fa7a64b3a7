//! The manager of one local identity: it opens a store, settles which
//! identity the store belongs to, and keeps prekeys and sessions in it.

use vstd::prelude::*;
use crate::error::{CBoxError, DecryptError};
use crate::identity::{Identity, IdentityMode, IdentityView};
use crate::keys::{IdentityKeyPair, IdentityKeyPairView, PreKey, PreKeyId, MAX_PREKEY_ID};
use crate::session::{
    consumed, new_session, saved, visible, CBoxSession, CBoxSessionView, ReadOnlyStore,
};
use crate::store::{encoding_of, identity_of, lookup, Store, StoreState};
use crate::text::hex;

verus! {

/// The key pair to work under when a store is opened with no identity at
/// hand: the stored pair, or `fresh` where nothing is stored. `None` where
/// the store holds a public key only, since the secret one is then missing.
pub open spec fn adopted(stored: Option<IdentityView>, fresh: IdentityKeyPairView) -> Option<
    IdentityKeyPairView,
> {
    match stored {
        Some(IdentityView::Sec(pair)) => Some(pair),
        Some(IdentityView::Pub(_)) => None,
        None => Some(fresh),
    }
}

/// The store after it was opened with no identity at hand: an empty one has
/// taken `fresh` as its key pair.
pub open spec fn opened(st: StoreState, fresh: IdentityKeyPairView) -> StoreState {
    match st.identity {
        None => StoreState { identity: Some(IdentityView::Sec(fresh)), ..st },
        Some(_) => st,
    }
}

/// What is to be done with the identity record when a store is opened with
/// an identity at hand.
pub enum Reconciliation {
    /// The store belongs to another identity.
    Refuse,
    /// The record is as asked for.
    Keep,
    /// The record is to be written anew.
    Write(IdentityView),
}

/// Settles a stored record with the identity `supplied`, to be kept in the
/// form `mode`. A stored public key must be that of `supplied`. A stored key
/// pair is cut down to its public key for `Public`, a stored public key is
/// filled up to the pair for `Complete`, and an empty store takes the form
/// asked for.
pub open spec fn reconciliation(
    stored: Option<IdentityView>,
    supplied: IdentityKeyPairView,
    mode: IdentityMode,
) -> Reconciliation {
    match stored {
        Some(local) => if local.public_key().key != supplied.public_key.key {
            Reconciliation::Refuse
        } else {
            match (local, mode) {
                (IdentityView::Sec(_), IdentityMode::Public) => Reconciliation::Write(
                    IdentityView::Pub(supplied.public_key),
                ),
                (IdentityView::Pub(_), IdentityMode::Complete) => Reconciliation::Write(
                    IdentityView::Sec(supplied),
                ),
                _ => Reconciliation::Keep,
            }
        },
        None => match mode {
            IdentityMode::Public => Reconciliation::Write(IdentityView::Pub(supplied.public_key)),
            IdentityMode::Complete => Reconciliation::Write(IdentityView::Sec(supplied)),
        },
    }
}

/// The store after its record was settled with `supplied`; unchanged where
/// the record is kept or the identity refused.
pub open spec fn opened_with(st: StoreState, supplied: IdentityKeyPairView, mode: IdentityMode) -> StoreState {
    match reconciliation(st.identity, supplied, mode) {
        Reconciliation::Write(id) => StoreState { identity: Some(id), ..st },
        _ => st,
    }
}

/// Picks the key pair to work under: see [`adopted`].
pub fn adopt(stored: Option<Identity>, fresh: IdentityKeyPair) -> (r: Result<
    IdentityKeyPair,
    CBoxError,
>)
    ensures
        match adopted(identity_of(stored), fresh@) {
            Some(pair) => r matches Ok(i) && i@ == pair,
            None => r matches Err(CBoxError::IdentityError),
        },
{
    match stored {
        Some(Identity::Sec(pair)) => Ok(pair),
        Some(Identity::Pub(_)) => Err(CBoxError::IdentityError),
        None => Ok(fresh),
    }
}

/// Settles a stored record with the identity at hand: see
/// [`reconciliation`]. Returns the record to write, if one is to be written.
pub fn reconcile(stored: &Option<Identity>, ident: &IdentityKeyPair, mode: IdentityMode) -> (r:
    Result<Option<Identity>, CBoxError>)
    ensures
        match reconciliation(identity_of(*stored), ident@, mode) {
            Reconciliation::Refuse => r matches Err(CBoxError::IdentityError),
            Reconciliation::Keep => r matches Ok(None),
            Reconciliation::Write(id) => r matches Ok(Some(w)) && w@ == id,
        },
{
    match stored {
        Some(Identity::Sec(local)) => {
            if !ident.public_key.same_key(&local.public_key) {
                return Err(CBoxError::IdentityError);
            }
            match mode {
                IdentityMode::Public => Ok(Some(Identity::Pub(ident.public_key.clone()))),
                IdentityMode::Complete => Ok(None),
            }
        },
        Some(Identity::Pub(local)) => {
            if !ident.public_key.same_key(local) {
                return Err(CBoxError::IdentityError);
            }
            match mode {
                IdentityMode::Complete => Ok(Some(Identity::Sec(ident.clone()))),
                IdentityMode::Public => Ok(None),
            }
        },
        None => match mode {
            IdentityMode::Public => Ok(Some(Identity::Pub(ident.public_key.clone()))),
            IdentityMode::Complete => Ok(Some(Identity::Sec(ident.clone()))),
        },
    }
}

/// Finds the key pair that `store` belongs to, and gives an empty store the
/// pair `fresh`. A store that fails or is refused is left as it was.
pub fn open_identity<S: Store>(store: &mut S, fresh: IdentityKeyPair) -> (r: Result<
    IdentityKeyPair,
    CBoxError,
>)
    ensures
        r matches Ok(i) ==> adopted(old(store).state().identity, fresh@) == Some(i@)
            && final(store).state() == opened(old(store).state(), fresh@),
        r is Err ==> final(store).state() == old(store).state(),
        r matches Err(e) ==> e is IdentityError || e is StorageError,
        r matches Err(CBoxError::IdentityError) ==> adopted(
            old(store).state().identity,
            fresh@,
        ) is None,
        adopted(old(store).state().identity, fresh@) is None ==> r is Err,
{
    let stored = match store.load_identity() {
        Ok(found) => found,
        Err(e) => {
            return Err(CBoxError::StorageError(e));
        },
    };
    let write = stored.is_none();
    let ident = adopt(stored, fresh)?;
    if write {
        let record = Identity::Sec(ident.clone());
        match store.save_identity(&record) {
            Ok(()) => {},
            Err(e) => {
                return Err(CBoxError::StorageError(e));
            },
        }
    }
    Ok(ident)
}

/// Settles the record of `store` with the identity at hand. A store that
/// fails or belongs to another identity is left as it was.
pub fn open_identity_with<S: Store>(store: &mut S, ident: &IdentityKeyPair, mode: IdentityMode) -> (r:
    Result<(), CBoxError>)
    ensures
        r is Ok ==> final(store).state() == opened_with(old(store).state(), ident@, mode),
        r is Ok ==> !(reconciliation(old(store).state().identity, ident@, mode) is Refuse),
        r is Err ==> final(store).state() == old(store).state(),
        r matches Err(e) ==> e is IdentityError || e is StorageError,
        r matches Err(CBoxError::IdentityError) ==> reconciliation(
            old(store).state().identity,
            ident@,
            mode,
        ) is Refuse,
        reconciliation(old(store).state().identity, ident@, mode) is Refuse ==> r is Err,
{
    let stored = match store.load_identity() {
        Ok(found) => found,
        Err(e) => {
            return Err(CBoxError::StorageError(e));
        },
    };
    match reconcile(&stored, ident, mode)? {
        Some(record) => match store.save_identity(&record) {
            Ok(()) => Ok(()),
            Err(e) => Err(CBoxError::StorageError(e)),
        },
        None => Ok(()),
    }
}

/// What a [`CBox`] holds.
pub struct CBoxView {
    /// The key pair that the box works under.
    pub identity: IdentityKeyPairView,
    /// What its store holds.
    pub store: StoreState,
}

/// The manager of one local identity over the store `S`.
pub struct CBox<S> {
    ident: IdentityKeyPair,
    store: S,
}

impl<S: Store> View for CBox<S> {
    type V = CBoxView;

    closed spec fn view(&self) -> CBoxView {
        CBoxView { identity: self.ident@, store: self.store.state() }
    }
}

impl<S: Store> CBox<S> {
    /// Opens `store` with no identity at hand. The box works under the key
    /// pair that the store holds; an empty store takes `fresh`, a pair newly
    /// minted by the caller. A store that holds a public key only is refused.
    pub fn open(store: S, fresh: IdentityKeyPair) -> (r: Result<CBox<S>, CBoxError>)
        ensures
            r matches Ok(b) ==> adopted(store.state().identity, fresh@) == Some(b@.identity)
                && b@.store == opened(store.state(), fresh@),
            r matches Err(e) ==> e is IdentityError || e is StorageError,
            r matches Err(CBoxError::IdentityError) ==> adopted(
                store.state().identity,
                fresh@,
            ) is None,
            adopted(store.state().identity, fresh@) is None ==> r is Err,
    {
        let mut store = store;
        let ident = open_identity(&mut store, fresh)?;
        Ok(CBox { ident, store })
    }

    /// Opens `store` under the identity `ident`, to be kept there in the
    /// form `mode`. A store that belongs to another identity is refused.
    pub fn open_with(store: S, ident: IdentityKeyPair, mode: IdentityMode) -> (r: Result<
        CBox<S>,
        CBoxError,
    >)
        ensures
            r matches Ok(b) ==> b@ == (CBoxView {
                identity: ident@,
                store: opened_with(store.state(), ident@, mode),
            }) && !(reconciliation(store.state().identity, ident@, mode) is Refuse),
            r matches Err(e) ==> e is IdentityError || e is StorageError,
            r matches Err(CBoxError::IdentityError) ==> reconciliation(
                store.state().identity,
                ident@,
                mode,
            ) is Refuse,
            reconciliation(store.state().identity, ident@, mode) is Refuse ==> r is Err,
    {
        let mut store = store;
        open_identity_with(&mut store, &ident, mode)?;
        Ok(CBox { ident, store })
    }

    /// Closes the box and hands its store back.
    pub fn into_store(self) -> (store: S)
        ensures
            store.state() == self@.store,
    {
        self.store
    }

    /// The store.
    pub fn store(&self) -> (store: &S)
        ensures
            store.state() == self@.store,
    {
        &self.store
    }

    /// The key pair that the box works under.
    pub fn identity(&self) -> (ident: &IdentityKeyPair)
        ensures
            ident@ == self@.identity,
    {
        &self.ident
    }

    /// The local public key in lower-case hexadecimal.
    pub fn fingerprint(&self) -> (s: String)
        ensures
            s@ == hex(self@.identity.public_key.key),
    {
        self.ident.public_key.fingerprint()
    }

    /// Stores a prekey that the caller has minted, over any prekey of the
    /// same id.
    pub fn new_prekey(&mut self, key: &PreKey) -> (r: Result<(), CBoxError>)
        ensures
            final(self)@.identity == old(self)@.identity,
            r is Ok ==> final(self)@.store == (StoreState {
                prekeys: old(self)@.store.prekeys.insert(key@.key_id, key@.encoded),
                ..old(self)@.store
            }),
            r is Err ==> r matches Err(CBoxError::StorageError(_)),
            r is Err ==> final(self)@.store == old(self)@.store,
    {
        match self.store.add_prekey(key) {
            Ok(()) => Ok(()),
            Err(e) => Err(CBoxError::StorageError(e)),
        }
    }

    /// The prekey `id` as the store holds it.
    pub fn load_prekey(&self, id: PreKeyId) -> (r: Result<Option<PreKey>, CBoxError>)
        ensures
            r matches Ok(found) ==> encoding_of(found) == lookup(self@.store.prekeys, id.0),
            r matches Ok(Some(k)) ==> k.key_id == id,
            r is Err ==> r matches Err(CBoxError::StorageError(_)),
    {
        match self.store.load_prekey(id) {
            Ok(found) => Ok(found),
            Err(e) => Err(CBoxError::StorageError(e)),
        }
    }

    /// Takes in what the primitive made of a peer's prekey bundle: the
    /// ratchet of a new session, which gets the name `sid` and has used up no
    /// prekey. The store is not touched.
    pub fn session_from_prekey<R>(&self, sid: String, outcome: Result<R, DecryptError>) -> (r:
        Result<CBoxSession<R>, CBoxError>)
        ensures
            match outcome {
                Ok(ratchet) => r matches Ok(s) && s@ == (CBoxSessionView {
                    name: sid@,
                    pending: Seq::<u16>::empty(),
                    ratchet,
                }),
                Err(e) => r == Err::<CBoxSession<R>, CBoxError>(CBoxError::DecryptError(e)),
            },
    {
        match outcome {
            Ok(ratchet) => Ok(new_session(sid, ReadOnlyStore::new(), ratchet)),
            Err(e) => Err(CBoxError::DecryptError(e)),
        }
    }

    /// Takes in what the primitive made of a peer's first message, having
    /// asked `view` for the prekey: the ratchet of a new session and the
    /// text of the message. The session gets the name `sid` and counts as
    /// used what `view` has marked. The store is not touched: the prekey
    /// leaves it when the session is saved.
    pub fn session_from_message<R>(
        &self,
        sid: String,
        view: ReadOnlyStore,
        outcome: Result<(R, Vec<u8>), DecryptError>,
    ) -> (r: Result<(CBoxSession<R>, Vec<u8>), CBoxError>)
        ensures
            match outcome {
                Ok((ratchet, plain)) => r matches Ok((s, p)) && p == plain && s@ == (
                CBoxSessionView { name: sid@, pending: view@, ratchet }),
                Err(e) => r == Err::<(CBoxSession<R>, Vec<u8>), CBoxError>(
                    CBoxError::DecryptError(e),
                ),
            },
    {
        match outcome {
            Ok((ratchet, plain)) => Ok((new_session(sid, view, ratchet), plain)),
            Err(e) => Err(CBoxError::DecryptError(e)),
        }
    }

    /// The session `sid` as it was last saved: its ratchet in encoded form,
    /// and no prekey counted as used. `None` where no such session is stored.
    pub fn session_load(&self, sid: &str) -> (r: Result<Option<CBoxSession<Vec<u8>>>, CBoxError>)
        ensures
            r matches Ok(Some(s)) ==> s@.name == sid@ && s@.pending == Seq::<u16>::empty()
                && lookup(self@.store.sessions, sid@) == Some(s@.ratchet@),
            r matches Ok(None) ==> lookup(self@.store.sessions, sid@) is None,
            r is Err ==> r matches Err(CBoxError::StorageError(_)),
    {
        match self.store.load_session(sid) {
            Ok(None) => Ok(None),
            Ok(Some(state)) => Ok(Some(new_session(sid.to_owned(), ReadOnlyStore::new(), state))),
            Err(e) => Err(CBoxError::StorageError(e)),
        }
    }

    /// Saves a session with `state`, the encoding of its ratchet, and deletes
    /// the prekeys that it used up: see [`CBoxSession::save`].
    pub fn session_save<R>(&mut self, s: &mut CBoxSession<R>, state: &[u8]) -> (r: Result<
        (),
        CBoxError,
    >)
        ensures
            final(self)@.identity == old(self)@.identity,
            final(s)@.name == old(s)@.name,
            final(s)@.ratchet == old(s)@.ratchet,
            r is Ok ==> final(self)@.store == saved(
                old(self)@.store,
                old(s)@.name,
                state@,
                old(s)@.pending,
            ),
            r is Ok ==> final(s)@.pending == Seq::<u16>::empty(),
            r is Err ==> r matches Err(CBoxError::StorageError(_)),
            r is Err ==> final(s)@.pending == old(s)@.pending,
            r is Err ==> final(self)@.store == old(self)@.store || exists|k: int|
                0 <= k < old(s)@.pending.len() && final(self)@.store == saved(
                    old(self)@.store,
                    old(s)@.name,
                    state@,
                    old(s)@.pending.take(k),
                ),
    {
        s.save(&mut self.store, state)
    }

    /// Deletes the stored session `sid`. That there is none is no failure.
    pub fn session_delete(&mut self, sid: &str) -> (r: Result<(), CBoxError>)
        ensures
            final(self)@.identity == old(self)@.identity,
            r is Ok ==> final(self)@.store == (StoreState {
                sessions: old(self)@.store.sessions.remove(sid@),
                ..old(self)@.store
            }),
            r is Err ==> r matches Err(CBoxError::StorageError(_)),
            r is Err ==> final(self)@.store == old(self)@.store,
    {
        match self.store.delete_session(sid) {
            Ok(()) => Ok(()),
            Err(e) => Err(CBoxError::StorageError(e)),
        }
    }
}

/// A store that was opened once opens again under the same key pair, so
/// under the same public key and fingerprint, whatever pair the caller has
/// minted for the second time.
pub proof fn lemma_open_again(st: StoreState, first: IdentityKeyPairView, second: IdentityKeyPairView)
    requires
        adopted(st.identity, first) is Some,
    ensures
        adopted(opened(st, first).identity, second) == adopted(st.identity, first),
        opened(opened(st, first), second) == opened(st, first),
{
}

/// An identity whose public key is not the stored one is refused, in either
/// form, and the store stays as it was.
pub proof fn lemma_other_identity_refused(
    st: StoreState,
    supplied: IdentityKeyPairView,
    mode: IdentityMode,
)
    requires
        st.identity matches Some(local) && local.public_key().key != supplied.public_key.key,
    ensures
        reconciliation(st.identity, supplied, mode) is Refuse,
        opened_with(st, supplied, mode) == st,
{
}

/// A store that was opened under an identity holds it in the form asked
/// for, and opens again under it.
pub proof fn lemma_opened_with_holds(st: StoreState, supplied: IdentityKeyPairView, mode: IdentityMode)
    requires
        !(reconciliation(st.identity, supplied, mode) is Refuse),
    ensures
        opened_with(st, supplied, mode).identity == Some(
            match mode {
                IdentityMode::Complete => match st.identity {
                    Some(IdentityView::Sec(local)) => IdentityView::Sec(local),
                    _ => IdentityView::Sec(supplied),
                },
                IdentityMode::Public => match st.identity {
                    Some(IdentityView::Pub(local)) => IdentityView::Pub(local),
                    _ => IdentityView::Pub(supplied.public_key),
                },
            },
        ),
        reconciliation(opened_with(st, supplied, mode).identity, supplied, mode) is Keep,
{
}

/// Once a session is saved, every prekey that it used up is gone from the
/// store, but for the last-resort prekey, and no session finds it again: a
/// prekey is used up for good at most once.
pub proof fn lemma_saved_prekey_is_gone(
    st: StoreState,
    name: Seq<char>,
    state: Seq<u8>,
    used: Seq<u16>,
    id: u16,
)
    requires
        used.contains(id),
        id != MAX_PREKEY_ID,
    ensures
        lookup(saved(st, name, state, used).prekeys, id) is None,
        forall|later: Seq<u16>| visible(later, saved(st, name, state, used).prekeys, id) is None,
{
}

/// Until a session is saved, the prekeys that it used up are in the store as
/// before: the session alone counts them as gone, and a session set up
/// afterwards finds them.
pub proof fn lemma_unsaved_prekey_stays(prekeys: Map<u16, Seq<u8>>, used: Seq<u16>, id: u16)
    requires
        used.contains(id),
    ensures
        visible(used, prekeys, id) is None,
        visible(Seq::<u16>::empty(), prekeys, id) == lookup(prekeys, id),
{
}

/// Saving a session never takes the last-resort prekey out of the store,
/// and leaves alone every prekey that the session did not use up.
pub proof fn lemma_save_keeps_the_rest(
    st: StoreState,
    name: Seq<char>,
    state: Seq<u8>,
    used: Seq<u16>,
    id: u16,
)
    requires
        id == MAX_PREKEY_ID || !used.contains(id),
    ensures
        lookup(saved(st, name, state, used).prekeys, id) == lookup(st.prekeys, id),
{
}

/// A save that failed half way is finished by saving again: whatever part of
/// the prekeys was deleted the first time, the store ends up as if the first
/// save had gone through.
pub proof fn lemma_save_again_finishes(
    st: StoreState,
    name: Seq<char>,
    state: Seq<u8>,
    used: Seq<u16>,
    k: int,
)
    requires
        0 <= k <= used.len(),
    ensures
        saved(saved(st, name, state, used.take(k)), name, state, used) == saved(
            st,
            name,
            state,
            used,
        ),
{
    let part = used.take(k);
    assert forall|id: u16| part.contains(id) implies used.contains(id) by {
        let j = choose|j: int| 0 <= j < part.len() && part[j] == id;
        assert(used[j] == id);
    }
    let once = saved(st, name, state, part);
    assert(once.sessions.insert(name, state) =~= st.sessions.insert(name, state));
    assert(once.prekeys.remove_keys(consumed(used)) =~= st.prekeys.remove_keys(consumed(used)));
}

/// Deleting a session that is not there changes nothing in the store.
pub proof fn lemma_delete_missing_session(st: StoreState, name: Seq<char>)
    requires
        lookup(st.sessions, name) is None,
    ensures
        st.sessions.remove(name) == st.sessions,
{
    assert(st.sessions.remove(name) =~= st.sessions);
}

/// A session that was saved loads again in the state in which it was saved,
/// and saving it touches no other session and not the identity.
pub proof fn lemma_saved_session_loads(
    st: StoreState,
    name: Seq<char>,
    state: Seq<u8>,
    used: Seq<u16>,
    other: Seq<char>,
)
    ensures
        lookup(saved(st, name, state, used).sessions, name) == Some(state),
        other != name ==> lookup(saved(st, name, state, used).sessions, other) == lookup(
            st.sessions,
            other,
        ),
        saved(st, name, state, used).identity == st.identity,
{
}

} // verus!
