//! The key material as this crate sees it.
//!
//! Keys are minted, and their encodings defined, by the cryptographic
//! primitive. A value here holds the encoding as the primitive wrote it,
//! together with the few plain facts that the bookkeeping reads: the bytes of
//! a public key, the id of a prekey.

use vstd::prelude::*;
use crate::bytes::{copy_bytes, same_bytes};
use crate::text::{hex, to_hex};

verus! {

/// The id of the last-resort prekey. It is handed out when all others are
/// used up, and it never leaves the store.
pub const MAX_PREKEY_ID: u16 = 65535;

/// The id under which a prekey is stored and asked for.
#[derive(Clone, Copy, Debug, PartialEq, Eq, Structural)]
pub struct PreKeyId(pub u16);

impl PreKeyId {
    pub fn new(id: u16) -> (r: PreKeyId)
        ensures
            r.0 == id,
    {
        PreKeyId(id)
    }

    pub fn value(&self) -> (r: u16)
        ensures
            r == self.0,
    {
        self.0
    }

    /// Whether this is the id of the last-resort prekey.
    pub fn is_last_resort(&self) -> (r: bool)
        ensures
            r == (self.0 == MAX_PREKEY_ID),
    {
        self.0 == MAX_PREKEY_ID
    }
}

/// A long-term public key.
#[derive(Debug)]
pub struct IdentityKey {
    /// The bytes of the public key.
    pub key: Vec<u8>,
    /// The key as the primitive encodes it.
    pub encoded: Vec<u8>,
}

/// What an [`IdentityKey`] holds.
pub struct IdentityKeyView {
    pub key: Seq<u8>,
    pub encoded: Seq<u8>,
}

impl View for IdentityKey {
    type V = IdentityKeyView;

    open spec fn view(&self) -> IdentityKeyView {
        IdentityKeyView { key: self.key@, encoded: self.encoded@ }
    }
}

impl Clone for IdentityKey {
    fn clone(&self) -> (r: IdentityKey)
        ensures
            r@ == self@,
    {
        IdentityKey { key: copy_bytes(&self.key), encoded: copy_bytes(&self.encoded) }
    }
}

impl IdentityKey {
    pub fn new(key: Vec<u8>, encoded: Vec<u8>) -> (r: IdentityKey)
        ensures
            r.key == key,
            r.encoded == encoded,
    {
        IdentityKey { key, encoded }
    }

    /// Whether both are the same public key.
    pub fn same_key(&self, other: &IdentityKey) -> (r: bool)
        ensures
            r == (self@.key == other@.key),
    {
        same_bytes(&self.key, &other.key)
    }

    /// The key in lower-case hexadecimal, for comparing by eye.
    pub fn fingerprint(&self) -> (s: String)
        ensures
            s@ == hex(self@.key),
    {
        to_hex(&self.key)
    }
}

/// A long-term key pair: the public key, and the encoding that also holds the
/// secret one.
#[derive(Debug)]
pub struct IdentityKeyPair {
    pub public_key: IdentityKey,
    /// The pair as the primitive encodes it.
    pub encoded: Vec<u8>,
}

/// What an [`IdentityKeyPair`] holds.
pub struct IdentityKeyPairView {
    pub public_key: IdentityKeyView,
    pub encoded: Seq<u8>,
}

impl View for IdentityKeyPair {
    type V = IdentityKeyPairView;

    open spec fn view(&self) -> IdentityKeyPairView {
        IdentityKeyPairView { public_key: self.public_key@, encoded: self.encoded@ }
    }
}

impl Clone for IdentityKeyPair {
    fn clone(&self) -> (r: IdentityKeyPair)
        ensures
            r@ == self@,
    {
        IdentityKeyPair { public_key: self.public_key.clone(), encoded: copy_bytes(&self.encoded) }
    }
}

impl IdentityKeyPair {
    pub fn new(public_key: IdentityKey, encoded: Vec<u8>) -> (r: IdentityKeyPair)
        ensures
            r.public_key == public_key,
            r.encoded == encoded,
    {
        IdentityKeyPair { public_key, encoded }
    }
}

/// A prekey: its id, and the key pair as the primitive encodes it.
#[derive(Debug)]
pub struct PreKey {
    pub key_id: PreKeyId,
    pub encoded: Vec<u8>,
}

/// What a [`PreKey`] holds.
pub struct PreKeyView {
    pub key_id: u16,
    pub encoded: Seq<u8>,
}

impl View for PreKey {
    type V = PreKeyView;

    open spec fn view(&self) -> PreKeyView {
        PreKeyView { key_id: self.key_id.0, encoded: self.encoded@ }
    }
}

impl Clone for PreKey {
    fn clone(&self) -> (r: PreKey)
        ensures
            r@ == self@,
    {
        PreKey { key_id: self.key_id, encoded: copy_bytes(&self.encoded) }
    }
}

impl PreKey {
    pub fn new(key_id: PreKeyId, encoded: Vec<u8>) -> (r: PreKey)
        ensures
            r.key_id == key_id,
            r.encoded == encoded,
    {
        PreKey { key_id, encoded }
    }
}

} // verus!
