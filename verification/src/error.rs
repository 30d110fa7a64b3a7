//! What can go wrong, and the number under which each failure is reported to
//! callers in other languages.

use vstd::prelude::*;
use vstd::std_specs::convert::FromSpecImpl;
use crate::keys::PreKeyId;
use crate::text::{decimal, to_decimal};

verus! {

/// A store could not do what was asked of it.
#[derive(Debug)]
pub struct StorageError {
    /// What the store reported.
    pub cause: String,
}

impl StorageError {
    pub fn new(cause: String) -> (r: StorageError)
        ensures
            r.cause == cause,
    {
        StorageError { cause }
    }

    pub open spec fn message(&self) -> Seq<char> {
        "StorageError: "@ + self.cause@
    }

    pub fn to_string(&self) -> (s: String)
        ensures
            s@ == self.message(),
    {
        let mut s = String::from_str("StorageError: ");
        s.append(self.cause.as_str());
        s
    }
}

/// Bytes that are not what they were taken for.
#[derive(Debug)]
pub enum DecodeFailure {
    /// The CBOR codec refused the bytes; the text is its own account.
    Decoder(String),
    /// A record of a kind that is not known.
    InvalidType(u8, &'static str),
    /// A record without the field that it is there for.
    MissingField(&'static str),
    /// A record with the same field twice.
    DuplicateField(&'static str),
    /// A field whose value runs past the end of the record.
    Truncated(&'static str),
}

impl DecodeFailure {
    pub open spec fn message(&self) -> Seq<char> {
        match *self {
            DecodeFailure::Decoder(text) => "DecodeFailure: "@ + text@,
            DecodeFailure::InvalidType(t, what) => "DecodeFailure: invalid type "@ + decimal(t as nat)
                + ": "@ + what@,
            DecodeFailure::MissingField(what) => "DecodeFailure: missing field: "@ + what@,
            DecodeFailure::DuplicateField(what) => "DecodeFailure: duplicate field: "@ + what@,
            DecodeFailure::Truncated(what) => "DecodeFailure: truncated field: "@ + what@,
        }
    }

    pub fn to_string(&self) -> (s: String)
        ensures
            s@ == self.message(),
    {
        match self {
            DecodeFailure::Decoder(text) => {
                let mut s = String::from_str("DecodeFailure: ");
                s.append(text.as_str());
                s
            },
            DecodeFailure::InvalidType(t, what) => {
                let mut s = String::from_str("DecodeFailure: invalid type ");
                let n = to_decimal(*t as u16);
                s.append(n.as_str());
                s.append(": ");
                s.append(what);
                s
            },
            DecodeFailure::MissingField(what) => {
                let mut s = String::from_str("DecodeFailure: missing field: ");
                s.append(what);
                s
            },
            DecodeFailure::DuplicateField(what) => {
                let mut s = String::from_str("DecodeFailure: duplicate field: ");
                s.append(what);
                s
            },
            DecodeFailure::Truncated(what) => {
                let mut s = String::from_str("DecodeFailure: truncated field: ");
                s.append(what);
                s
            },
        }
    }
}

/// A value that could not be written out.
#[derive(Debug)]
pub enum EncodeFailure {
    /// The CBOR codec could not write; the text is its own account.
    Encoder(String),
}

impl EncodeFailure {
    pub open spec fn message(&self) -> Seq<char> {
        match *self {
            EncodeFailure::Encoder(text) => "EncodeFailure: "@ + text@,
        }
    }

    pub fn to_string(&self) -> (s: String)
        ensures
            s@ == self.message(),
    {
        match self {
            EncodeFailure::Encoder(text) => {
                let mut s = String::from_str("EncodeFailure: ");
                s.append(text.as_str());
                s
            },
        }
    }
}

/// Why the ratchet refused a message.
#[derive(Debug)]
pub enum DecryptError {
    RemoteIdentityChanged,
    InvalidSignature,
    InvalidMessage,
    DuplicateMessage,
    TooDistantFuture,
    OutdatedMessage,
    /// The message names a prekey that is not there.
    PreKeyNotFound(PreKeyId),
    /// The prekey could not be looked up.
    PreKeyStoreError(StorageError),
}

impl DecryptError {
    pub open spec fn message(&self) -> Seq<char> {
        match *self {
            DecryptError::RemoteIdentityChanged => "DecryptError: remote identity changed"@,
            DecryptError::InvalidSignature => "DecryptError: invalid signature"@,
            DecryptError::InvalidMessage => "DecryptError: invalid message"@,
            DecryptError::DuplicateMessage => "DecryptError: duplicate message"@,
            DecryptError::TooDistantFuture => "DecryptError: message in too distant future"@,
            DecryptError::OutdatedMessage => "DecryptError: outdated message"@,
            DecryptError::PreKeyNotFound(id) => "DecryptError: prekey not found: "@ + decimal(
                id.0 as nat,
            ),
            DecryptError::PreKeyStoreError(e) => "DecryptError: prekey store error: "@
                + e.message(),
        }
    }

    pub fn to_string(&self) -> (s: String)
        ensures
            s@ == self.message(),
    {
        match self {
            DecryptError::RemoteIdentityChanged => String::from_str(
                "DecryptError: remote identity changed",
            ),
            DecryptError::InvalidSignature => String::from_str("DecryptError: invalid signature"),
            DecryptError::InvalidMessage => String::from_str("DecryptError: invalid message"),
            DecryptError::DuplicateMessage => String::from_str("DecryptError: duplicate message"),
            DecryptError::TooDistantFuture => String::from_str(
                "DecryptError: message in too distant future",
            ),
            DecryptError::OutdatedMessage => String::from_str("DecryptError: outdated message"),
            DecryptError::PreKeyNotFound(id) => {
                let mut s = String::from_str("DecryptError: prekey not found: ");
                let n = to_decimal(id.value());
                s.append(n.as_str());
                s
            },
            DecryptError::PreKeyStoreError(e) => {
                let mut s = String::from_str("DecryptError: prekey store error: ");
                let inner = e.to_string();
                s.append(inner.as_str());
                s
            },
        }
    }
}

/// Every failure that the session manager hands to its caller.
#[derive(Debug)]
pub enum CBoxError {
    /// The ratchet refused a message.
    DecryptError(DecryptError),
    /// The store failed.
    StorageError(StorageError),
    /// Bytes from outside were malformed.
    DecodeError(DecodeFailure),
    /// A value could not be written out.
    EncodeError(EncodeFailure),
    /// The identity at hand is not the one that the store belongs to, or only
    /// its public half is there where the secret one is needed.
    IdentityError,
}

impl CBoxError {
    pub open spec fn message(&self) -> Seq<char> {
        match *self {
            CBoxError::DecryptError(e) => "CBoxError: decrypt error: "@ + e.message(),
            CBoxError::StorageError(e) => "CBoxError: storage error: "@ + e.message(),
            CBoxError::DecodeError(e) => "CBoxError: decode error: "@ + e.message(),
            CBoxError::EncodeError(e) => "CBoxError: encode error: "@ + e.message(),
            CBoxError::IdentityError => "CBoxError: identity error"@,
        }
    }

    pub fn to_string(&self) -> (s: String)
        ensures
            s@ == self.message(),
    {
        match self {
            CBoxError::DecryptError(e) => {
                let mut s = String::from_str("CBoxError: decrypt error: ");
                let inner = e.to_string();
                s.append(inner.as_str());
                s
            },
            CBoxError::StorageError(e) => {
                let mut s = String::from_str("CBoxError: storage error: ");
                let inner = e.to_string();
                s.append(inner.as_str());
                s
            },
            CBoxError::DecodeError(e) => {
                let mut s = String::from_str("CBoxError: decode error: ");
                let inner = e.to_string();
                s.append(inner.as_str());
                s
            },
            CBoxError::EncodeError(e) => {
                let mut s = String::from_str("CBoxError: encode error: ");
                let inner = e.to_string();
                s.append(inner.as_str());
                s
            },
            CBoxError::IdentityError => String::from_str("CBoxError: identity error"),
        }
    }
}

impl From<StorageError> for CBoxError {
    fn from(e: StorageError) -> (r: CBoxError) {
        CBoxError::StorageError(e)
    }
}

impl FromSpecImpl<StorageError> for CBoxError {
    open spec fn obeys_from_spec() -> bool {
        true
    }

    open spec fn from_spec(e: StorageError) -> CBoxError {
        CBoxError::StorageError(e)
    }
}

impl From<DecryptError> for CBoxError {
    fn from(e: DecryptError) -> (r: CBoxError) {
        CBoxError::DecryptError(e)
    }
}

impl FromSpecImpl<DecryptError> for CBoxError {
    open spec fn obeys_from_spec() -> bool {
        true
    }

    open spec fn from_spec(e: DecryptError) -> CBoxError {
        CBoxError::DecryptError(e)
    }
}

impl From<DecodeFailure> for CBoxError {
    fn from(e: DecodeFailure) -> (r: CBoxError) {
        CBoxError::DecodeError(e)
    }
}

impl FromSpecImpl<DecodeFailure> for CBoxError {
    open spec fn obeys_from_spec() -> bool {
        true
    }

    open spec fn from_spec(e: DecodeFailure) -> CBoxError {
        CBoxError::DecodeError(e)
    }
}

impl From<EncodeFailure> for CBoxError {
    fn from(e: EncodeFailure) -> (r: CBoxError) {
        CBoxError::EncodeError(e)
    }
}

impl FromSpecImpl<EncodeFailure> for CBoxError {
    open spec fn obeys_from_spec() -> bool {
        true
    }

    open spec fn from_spec(e: EncodeFailure) -> CBoxError {
        CBoxError::EncodeError(e)
    }
}

/// How a call ended, as callers in other languages are told.
#[derive(Clone, Copy, Debug, PartialEq, Eq, Structural)]
pub enum CBoxResult {
    Success,
    StorageError,
    SessionNotFound,
    DecodeError,
    RemoteIdentityChanged,
    InvalidSignature,
    InvalidMessage,
    DuplicateMessage,
    TooDistantFuture,
    OutdatedMessage,
    Utf8Error,
    NulError,
    EncodeError,
    IdentityError,
    PreKeyNotFound,
}

impl CBoxResult {
    /// The number that stands for this result. The numbers are fixed: callers
    /// are compiled against them.
    pub open spec fn spec_code(&self) -> u8 {
        match *self {
            CBoxResult::Success => 0,
            CBoxResult::StorageError => 1,
            CBoxResult::SessionNotFound => 2,
            CBoxResult::DecodeError => 3,
            CBoxResult::RemoteIdentityChanged => 4,
            CBoxResult::InvalidSignature => 5,
            CBoxResult::InvalidMessage => 6,
            CBoxResult::DuplicateMessage => 7,
            CBoxResult::TooDistantFuture => 8,
            CBoxResult::OutdatedMessage => 9,
            CBoxResult::Utf8Error => 10,
            CBoxResult::NulError => 11,
            CBoxResult::EncodeError => 12,
            CBoxResult::IdentityError => 13,
            CBoxResult::PreKeyNotFound => 14,
        }
    }

    #[verifier::when_used_as_spec(spec_code)]
    pub fn code(&self) -> (n: u8)
        ensures
            n == self.spec_code(),
    {
        match self {
            CBoxResult::Success => 0,
            CBoxResult::StorageError => 1,
            CBoxResult::SessionNotFound => 2,
            CBoxResult::DecodeError => 3,
            CBoxResult::RemoteIdentityChanged => 4,
            CBoxResult::InvalidSignature => 5,
            CBoxResult::InvalidMessage => 6,
            CBoxResult::DuplicateMessage => 7,
            CBoxResult::TooDistantFuture => 8,
            CBoxResult::OutdatedMessage => 9,
            CBoxResult::Utf8Error => 10,
            CBoxResult::NulError => 11,
            CBoxResult::EncodeError => 12,
            CBoxResult::IdentityError => 13,
            CBoxResult::PreKeyNotFound => 14,
        }
    }
}

/// The result under which a failure is reported. A prekey that could not be
/// looked up counts as a failure of the store.
pub open spec fn result_of(e: CBoxError) -> CBoxResult {
    match e {
        CBoxError::DecryptError(DecryptError::RemoteIdentityChanged) => CBoxResult::RemoteIdentityChanged,
        CBoxError::DecryptError(DecryptError::InvalidSignature) => CBoxResult::InvalidSignature,
        CBoxError::DecryptError(DecryptError::InvalidMessage) => CBoxResult::InvalidMessage,
        CBoxError::DecryptError(DecryptError::DuplicateMessage) => CBoxResult::DuplicateMessage,
        CBoxError::DecryptError(DecryptError::TooDistantFuture) => CBoxResult::TooDistantFuture,
        CBoxError::DecryptError(DecryptError::OutdatedMessage) => CBoxResult::OutdatedMessage,
        CBoxError::DecryptError(DecryptError::PreKeyNotFound(_)) => CBoxResult::PreKeyNotFound,
        CBoxError::DecryptError(DecryptError::PreKeyStoreError(_)) => CBoxResult::StorageError,
        CBoxError::StorageError(_) => CBoxResult::StorageError,
        CBoxError::DecodeError(_) => CBoxResult::DecodeError,
        CBoxError::EncodeError(_) => CBoxResult::EncodeError,
        CBoxError::IdentityError => CBoxResult::IdentityError,
    }
}

impl From<CBoxError> for CBoxResult {
    fn from(e: CBoxError) -> (r: CBoxResult) {
        match e {
            CBoxError::DecryptError(DecryptError::RemoteIdentityChanged) => CBoxResult::RemoteIdentityChanged,
            CBoxError::DecryptError(DecryptError::InvalidSignature) => CBoxResult::InvalidSignature,
            CBoxError::DecryptError(DecryptError::InvalidMessage) => CBoxResult::InvalidMessage,
            CBoxError::DecryptError(DecryptError::DuplicateMessage) => CBoxResult::DuplicateMessage,
            CBoxError::DecryptError(DecryptError::TooDistantFuture) => CBoxResult::TooDistantFuture,
            CBoxError::DecryptError(DecryptError::OutdatedMessage) => CBoxResult::OutdatedMessage,
            CBoxError::DecryptError(DecryptError::PreKeyNotFound(_)) => CBoxResult::PreKeyNotFound,
            CBoxError::DecryptError(DecryptError::PreKeyStoreError(_)) => CBoxResult::StorageError,
            CBoxError::StorageError(_) => CBoxResult::StorageError,
            CBoxError::DecodeError(_) => CBoxResult::DecodeError,
            CBoxError::EncodeError(_) => CBoxResult::EncodeError,
            CBoxError::IdentityError => CBoxResult::IdentityError,
        }
    }
}

impl FromSpecImpl<CBoxError> for CBoxResult {
    open spec fn obeys_from_spec() -> bool {
        true
    }

    open spec fn from_spec(e: CBoxError) -> CBoxResult {
        result_of(e)
    }
}

} // verus!
