//! The identity of a store, and the binary form of its record.

use vstd::prelude::*;
use vstd::std_specs::convert::FromSpecImpl;
use vstd::slice::slice_subrange;
use crate::bytes::copy_bytes;
use crate::cbor_items::{
    advance, cbor_object, cbor_skip, cbor_u8, describe_failure, describe_refusal, object_head,
    read_object, read_u8, rest_after, skip_item, u8_item, write_object, write_u8,
};
use crate::error::{CBoxError, DecodeFailure, EncodeFailure};
use crate::keys::{IdentityKey, IdentityKeyPair, IdentityKeyPairView, IdentityKeyView};

verus! {

/// How much of an identity a store is to hold.
#[derive(Debug, Clone, Copy, PartialEq, Eq, Structural)]
pub enum IdentityMode {
    /// The whole key pair.
    Complete,
    /// The public key only; the secret one is kept elsewhere.
    Public,
}

/// [`IdentityMode`] as callers in other languages pass it.
#[derive(Debug, Clone, Copy, PartialEq, Eq, Structural)]
pub enum CBoxIdentityMode {
    Complete,
    Public,
}

impl CBoxIdentityMode {
    /// The number that stands for this mode: 0 for `Complete`, 1 for
    /// `Public`.
    pub open spec fn spec_code(&self) -> u8 {
        match *self {
            CBoxIdentityMode::Complete => 0,
            CBoxIdentityMode::Public => 1,
        }
    }

    #[verifier::when_used_as_spec(spec_code)]
    pub fn code(&self) -> (n: u8)
        ensures
            n == self.spec_code(),
    {
        match self {
            CBoxIdentityMode::Complete => 0,
            CBoxIdentityMode::Public => 1,
        }
    }

    /// The mode that the number `n` stands for, if it stands for one.
    pub fn from_code(n: u8) -> (m: Option<CBoxIdentityMode>)
        ensures
            match m {
                Some(mode) => mode.spec_code() == n,
                None => n > 1,
            },
    {
        match n {
            0 => Some(CBoxIdentityMode::Complete),
            1 => Some(CBoxIdentityMode::Public),
            _ => None,
        }
    }
}

impl From<CBoxIdentityMode> for IdentityMode {
    fn from(m: CBoxIdentityMode) -> (r: IdentityMode) {
        match m {
            CBoxIdentityMode::Complete => IdentityMode::Complete,
            CBoxIdentityMode::Public => IdentityMode::Public,
        }
    }
}

impl FromSpecImpl<CBoxIdentityMode> for IdentityMode {
    open spec fn obeys_from_spec() -> bool {
        true
    }

    open spec fn from_spec(m: CBoxIdentityMode) -> IdentityMode {
        match m {
            CBoxIdentityMode::Complete => IdentityMode::Complete,
            CBoxIdentityMode::Public => IdentityMode::Public,
        }
    }
}

/// The identity record of a store: the whole key pair, or its public key
/// alone.
#[derive(Debug)]
pub enum Identity {
    Sec(IdentityKeyPair),
    Pub(IdentityKey),
}

/// What an [`Identity`] holds.
pub enum IdentityView {
    Sec(IdentityKeyPairView),
    Pub(IdentityKeyView),
}

impl IdentityView {
    /// The public key of the identity.
    pub open spec fn public_key(self) -> IdentityKeyView {
        match self {
            IdentityView::Sec(pair) => pair.public_key,
            IdentityView::Pub(key) => key,
        }
    }
}

impl View for Identity {
    type V = IdentityView;

    open spec fn view(&self) -> IdentityView {
        match *self {
            Identity::Sec(pair) => IdentityView::Sec(pair@),
            Identity::Pub(key) => IdentityView::Pub(key@),
        }
    }
}

impl Clone for Identity {
    fn clone(&self) -> (r: Identity)
        ensures
            r@ == self@,
    {
        match self {
            Identity::Sec(pair) => Identity::Sec(pair.clone()),
            Identity::Pub(key) => Identity::Pub(key.clone()),
        }
    }
}

impl Identity {
    /// The public key of the identity.
    pub fn public_key(&self) -> (key: &IdentityKey)
        ensures
            key@ == self@.public_key(),
    {
        match self {
            Identity::Sec(pair) => &pair.public_key,
            Identity::Pub(key) => key,
        }
    }
}

/// An identity record as it lies in the store: which half of the identity it
/// holds, and the key or key pair as the primitive encodes it.
///
/// On the wire a record is a number that tells the two kinds apart (1 for a
/// key pair, 2 for a public key), then an object whose field 0 carries the
/// payload. Fields with other numbers may follow or precede it; they are
/// passed over, so that later versions can add to the record.
#[derive(Debug)]
pub struct IdentityRecord {
    pub mode: IdentityMode,
    pub payload: Vec<u8>,
}

/// What an [`IdentityRecord`] holds.
pub struct IdentityRecordView {
    pub mode: IdentityMode,
    pub payload: Seq<u8>,
}

impl View for IdentityRecord {
    type V = IdentityRecordView;

    open spec fn view(&self) -> IdentityRecordView {
        IdentityRecordView { mode: self.mode, payload: self.payload@ }
    }
}

impl IdentityView {
    /// The record that stores this identity.
    pub open spec fn record(self) -> IdentityRecordView {
        match self {
            IdentityView::Sec(pair) => IdentityRecordView {
                mode: IdentityMode::Complete,
                payload: pair.encoded,
            },
            IdentityView::Pub(key) => IdentityRecordView {
                mode: IdentityMode::Public,
                payload: key.encoded,
            },
        }
    }
}

/// The number that a record of this kind starts with.
pub open spec fn tag_of(mode: IdentityMode) -> u8 {
    match mode {
        IdentityMode::Complete => 1,
        IdentityMode::Public => 2,
    }
}

/// What the payload of a record of this kind is called in error reports.
pub open spec fn field_name(mode: IdentityMode) -> Seq<char> {
    match mode {
        IdentityMode::Complete => "identity keypair"@,
        IdentityMode::Public => "identity key"@,
    }
}

/// The bytes of a record: its tag, the head of an object of one field, the
/// field number 0, and the payload.
pub open spec fn record_bytes(rec: IdentityRecordView) -> Seq<u8> {
    u8_item(tag_of(rec.mode)) + object_head(1) + u8_item(0) + rec.payload
}

/// What is wrong with bytes that are no identity record.
pub enum Flaw {
    /// The CBOR codec refuses an item.
    Codec,
    /// The record starts with a number that is neither 1 nor 2.
    UnknownType(u8),
    /// No field 0 among the fields.
    MissingField(IdentityMode),
    /// A second field 0.
    DuplicateField(IdentityMode),
    /// The value of field 0 is cut short.
    Truncated(IdentityMode),
}

/// Reads `count` fields from the front of `b`. Field 0 is the payload, and
/// may come once; every other field is skipped. `found` is the payload read
/// so far.
pub open spec fn parse_fields(
    b: Seq<u8>,
    count: nat,
    mode: IdentityMode,
    found: Option<Seq<u8>>,
) -> Result<Seq<u8>, Flaw>
    decreases count,
{
    if count == 0 {
        match found {
            Some(payload) => Ok(payload),
            None => Err(Flaw::MissingField(mode)),
        }
    } else {
        match cbor_u8(b) {
            None => Err(Flaw::Codec),
            Some((field, n)) => {
                let value = rest_after(b, n);
                if field == 0 && found is Some {
                    Err(Flaw::DuplicateField(mode))
                } else {
                    match cbor_skip(value) {
                        None => Err(Flaw::Codec),
                        Some(m) => if field != 0 {
                            parse_fields(rest_after(value, m), (count - 1) as nat, mode, found)
                        } else if m > value.len() {
                            Err(Flaw::Truncated(mode))
                        } else {
                            parse_fields(
                                rest_after(value, m),
                                (count - 1) as nat,
                                mode,
                                Some(value.take(m)),
                            )
                        },
                    }
                }
            },
        }
    }
}

/// The record that the bytes `b` hold, or what is wrong with them.
pub open spec fn parse_record(b: Seq<u8>) -> Result<IdentityRecordView, Flaw> {
    match cbor_u8(b) {
        None => Err(Flaw::Codec),
        Some((tag, n)) => if tag == 1 || tag == 2 {
            let mode = if tag == 1 {
                IdentityMode::Complete
            } else {
                IdentityMode::Public
            };
            let body = rest_after(b, n);
            match cbor_object(body) {
                None => Err(Flaw::Codec),
                Some((count, k)) => match parse_fields(
                    rest_after(body, k),
                    count as nat,
                    mode,
                    None,
                ) {
                    Ok(payload) => Ok(IdentityRecordView { mode, payload }),
                    Err(flaw) => Err(flaw),
                },
            }
        } else {
            Err(Flaw::UnknownType(tag))
        },
    }
}

/// Whether the error `e` reports the flaw `f`.
pub open spec fn reports(e: DecodeFailure, f: Flaw) -> bool {
    match f {
        Flaw::Codec => e is Decoder,
        Flaw::UnknownType(t) => e matches DecodeFailure::InvalidType(u, what) && u == t && what@
            == "unknown identity type"@,
        Flaw::MissingField(mode) => e matches DecodeFailure::MissingField(what) && what@
            == field_name(mode),
        Flaw::DuplicateField(mode) => e matches DecodeFailure::DuplicateField(what) && what@
            == field_name(mode),
        Flaw::Truncated(mode) => e matches DecodeFailure::Truncated(what) && what@ == field_name(
            mode,
        ),
    }
}

/// Whether `r` is what reading gave: the same value, or an error that
/// reports the same flaw.
pub open spec fn read_as<T: View>(r: Result<T, DecodeFailure>, expected: Result<T::V, Flaw>) -> bool {
    match r {
        Ok(v) => expected == Ok::<T::V, Flaw>(v@),
        Err(e) => expected matches Err(f) && reports(e, f),
    }
}

/// Whether `payload` is exactly one CBOR item, as the codec goes over it.
pub open spec fn one_item(payload: Seq<u8>) -> bool {
    cbor_skip(payload) == Some(payload.len() as int)
}

/// Reading what was written gives back what was written: the bytes of a
/// record whose payload is one CBOR item hold that record, of either kind.
pub proof fn lemma_record_round_trip(rec: IdentityRecordView)
    requires
        one_item(rec.payload),
    ensures
        parse_record(record_bytes(rec)) == Ok::<IdentityRecordView, Flaw>(rec),
{
    let b = record_bytes(rec);
    let tag = tag_of(rec.mode);
    assert(b[0] == tag);
    let body = rest_after(b, 1);
    assert(body =~= object_head(1) + u8_item(0) + rec.payload);
    assert(body[0] == 0xa1);
    let fields = rest_after(body, 1);
    assert(fields =~= u8_item(0) + rec.payload);
    assert(fields[0] == 0);
    let value = rest_after(fields, 1);
    assert(value =~= rec.payload);
    let end = rest_after(value, value.len() as int);
    assert(value.take(value.len() as int) =~= rec.payload);
    assert(parse_fields(end, 0, rec.mode, Some(rec.payload)) == Ok::<Seq<u8>, Flaw>(rec.payload));
    assert(parse_fields(fields, 1, rec.mode, None) == Ok::<Seq<u8>, Flaw>(rec.payload));
}

/// No bytes are no record.
pub proof fn lemma_empty_is_no_record()
    ensures
        parse_record(Seq::<u8>::empty()) == Err::<IdentityRecordView, Flaw>(Flaw::Codec),
{
}

/// Storing an identity and taking the frame off again gives back its kind
/// and its encoding, for a key pair and for a public key alike.
pub proof fn lemma_identity_round_trip(id: IdentityView)
    requires
        one_item(id.record().payload),
    ensures
        parse_record(record_bytes(id.record())) == Ok::<IdentityRecordView, Flaw>(id.record()),
        id is Sec ==> id.record().mode == IdentityMode::Complete,
        id is Pub ==> id.record().mode == IdentityMode::Public,
{
    lemma_record_round_trip(id.record());
}

fn name_of(mode: IdentityMode) -> (name: &'static str)
    ensures
        name@ == field_name(mode),
{
    match mode {
        IdentityMode::Complete => "identity keypair",
        IdentityMode::Public => "identity key",
    }
}

/// Reads the `count` fields of a record of kind `mode` from the front of `b`
/// and returns the payload.
fn decode_fields(b: &[u8], count: usize, mode: IdentityMode) -> (r: Result<Vec<u8>, DecodeFailure>)
    ensures
        read_as(r, parse_fields(b@, count as nat, mode, None)),
{
    let mut rest: &[u8] = b;
    let mut found: Option<Vec<u8>> = None;
    let mut left: usize = count;
    while left > 0
        invariant
            parse_fields(
                rest@,
                left as nat,
                mode,
                match found {
                    Some(p) => Some(p@),
                    None => None,
                },
            ) == parse_fields(b@, count as nat, mode, None),
        decreases left,
    {
        let (field, n) = match read_u8(rest) {
            Ok(v) => v,
            Err(e) => {
                return Err(DecodeFailure::Decoder(describe_refusal(e)));
            },
        };
        let value = advance(rest, n);
        if field == 0 && found.is_some() {
            return Err(DecodeFailure::DuplicateField(name_of(mode)));
        }
        let m: u64 = match skip_item(value) {
            Ok(m) => m,
            Err(e) => {
                return Err(DecodeFailure::Decoder(describe_refusal(e)));
            },
        };
        if field == 0 {
            if m > value.len() as u64 {
                return Err(DecodeFailure::Truncated(name_of(mode)));
            }
            let payload = copy_bytes(slice_subrange(value, 0, m as usize));
            found = Some(payload);
        }
        rest = advance(value, m);
        left = left - 1;
    }
    match found {
        Some(payload) => Ok(payload),
        None => Err(DecodeFailure::MissingField(name_of(mode))),
    }
}

impl IdentityRecord {
    pub fn new(mode: IdentityMode, payload: Vec<u8>) -> (r: IdentityRecord)
        ensures
            r.mode == mode,
            r.payload == payload,
    {
        IdentityRecord { mode, payload }
    }

    /// The encoding of the key pair in a record that holds one. A record
    /// that holds a public key only is refused: whoever asks for the pair
    /// needs the secret key.
    pub fn key_pair(self) -> (r: Result<Vec<u8>, CBoxError>)
        ensures
            match self.mode {
                IdentityMode::Complete => r == Ok::<Vec<u8>, CBoxError>(self.payload),
                IdentityMode::Public => r matches Err(CBoxError::IdentityError),
            },
    {
        match self.mode {
            IdentityMode::Complete => Ok(self.payload),
            IdentityMode::Public => Err(CBoxError::IdentityError),
        }
    }

    /// Whether the payload is exactly one CBOR item. Such a record reads back
    /// as itself.
    pub fn is_well_formed(&self) -> (ok: bool)
        ensures
            ok == one_item(self@.payload),
            ok ==> parse_record(record_bytes(self@)) == Ok::<IdentityRecordView, Flaw>(self@),
    {
        let ok = match skip_item(&self.payload) {
            Ok(n) => n == self.payload.len() as u64,
            Err(_) => false,
        };
        proof {
            if ok {
                lemma_record_round_trip(self@);
            }
        }
        ok
    }

    /// Writes the record out: always `Ok`, with the bytes of the record.
    pub fn encode(&self) -> (r: Result<Vec<u8>, EncodeFailure>)
        ensures
            r matches Ok(b) && b@ == record_bytes(self@),
    {
        let tag: u8 = match self.mode {
            IdentityMode::Complete => 1,
            IdentityMode::Public => 2,
        };
        let mut out = match write_u8(tag) {
            Ok(b) => b,
            Err(e) => {
                return Err(EncodeFailure::Encoder(describe_failure(e)));
            },
        };
        let mut head = match write_object(1) {
            Ok(b) => b,
            Err(e) => {
                return Err(EncodeFailure::Encoder(describe_failure(e)));
            },
        };
        let mut field = match write_u8(0) {
            Ok(b) => b,
            Err(e) => {
                return Err(EncodeFailure::Encoder(describe_failure(e)));
            },
        };
        let mut payload = copy_bytes(&self.payload);
        out.append(&mut head);
        out.append(&mut field);
        out.append(&mut payload);
        Ok(out)
    }

    /// Reads a record. Fails exactly where [`parse_record`] finds a flaw, with
    /// the error that reports it.
    pub fn decode(b: &[u8]) -> (r: Result<IdentityRecord, DecodeFailure>)
        ensures
            read_as(r, parse_record(b@)),
    {
        let (tag, n) = match read_u8(b) {
            Ok(v) => v,
            Err(e) => {
                return Err(DecodeFailure::Decoder(describe_refusal(e)));
            },
        };
        if tag != 1 && tag != 2 {
            return Err(DecodeFailure::InvalidType(tag, "unknown identity type"));
        }
        let mode = if tag == 1 {
            IdentityMode::Complete
        } else {
            IdentityMode::Public
        };
        let body = advance(b, n);
        let (count, k) = match read_object(body) {
            Ok(v) => v,
            Err(e) => {
                return Err(DecodeFailure::Decoder(describe_refusal(e)));
            },
        };
        match decode_fields(advance(body, k), count, mode) {
            Ok(payload) => Ok(IdentityRecord { mode, payload }),
            Err(e) => Err(e),
        }
    }
}

impl Identity {
    /// The record that stores this identity.
    pub fn record(&self) -> (r: IdentityRecord)
        ensures
            r@ == self@.record(),
    {
        match self {
            Identity::Sec(pair) => IdentityRecord {
                mode: IdentityMode::Complete,
                payload: copy_bytes(&pair.encoded),
            },
            Identity::Pub(key) => IdentityRecord {
                mode: IdentityMode::Public,
                payload: copy_bytes(&key.encoded),
            },
        }
    }

    /// The bytes under which this identity is stored: always `Ok`.
    pub fn serialise(&self) -> (r: Result<Vec<u8>, EncodeFailure>)
        ensures
            r matches Ok(b) && b@ == record_bytes(self@.record()),
    {
        self.record().encode()
    }

    /// Takes the frame off stored bytes. What comes out is the kind of the
    /// identity and the encoding of its key or key pair, which only the
    /// primitive can read further.
    pub fn deserialise(b: &[u8]) -> (r: Result<IdentityRecord, DecodeFailure>)
        ensures
            read_as(r, parse_record(b@)),
    {
        IdentityRecord::decode(b)
    }
}

} // verus!
