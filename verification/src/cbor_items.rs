//! The CBOR items that an identity record is made of, read and written one at
//! a time by the `cbor` codec.
//!
//! Reading is done on the bytes that are left: every reader takes a slice,
//! decodes one item from its front, and says how many bytes it took. What the
//! codec makes of the common one-byte forms is written out here; for every
//! other input its answer has a name and nothing more is claimed of it.

use vstd::prelude::*;
use vstd::slice::slice_subrange;

verus! {

/// The codec's own account of why it refused some bytes.
#[verifier::external_type_specification]
#[verifier::external_body]
pub struct ExDecodeError(cbor::DecodeError);

/// The codec's own account of why it could not write an item.
#[verifier::external_type_specification]
#[verifier::external_body]
pub struct ExEncodeError(cbor::EncodeError);

/// What `cbor::Decoder::u8` makes of bytes that are not empty and do not
/// start with a number below 24: the number and the count of bytes taken, or
/// `None` where it refuses them.
pub uninterp spec fn cbor_u8_long(b: Seq<u8>) -> Option<(u8, int)>;

/// What `cbor::Decoder::object` makes of bytes that do not start with the
/// one-byte head of an object of fewer than 24 fields: the number of fields
/// and the count of bytes taken, or `None` where it refuses them.
pub uninterp spec fn cbor_object_long(b: Seq<u8>) -> Option<(int, int)>;

/// How far `cbor::Decoder::skip` moves over the item at the front of `b`, or
/// `None` where it refuses the bytes. The codec skips a byte or text string
/// by its stated length without looking at what follows, so the count can be
/// larger than `b` is long.
pub uninterp spec fn cbor_skip(b: Seq<u8>) -> Option<int>;

/// The unsigned 8-bit number at the front of `b` and the count of bytes it
/// takes. There is none where there are no bytes, and a first byte below 24
/// is the number itself.
pub open spec fn cbor_u8(b: Seq<u8>) -> Option<(u8, int)> {
    if b.len() == 0 {
        None
    } else if b[0] < 24 {
        Some((b[0], 1int))
    } else {
        cbor_u8_long(b)
    }
}

/// The number of fields of the object that starts at the front of `b`, and
/// the count of bytes that its head takes. A first byte from 0xa0 to 0xb7
/// is the head of an object with that many fields above 0xa0.
pub open spec fn cbor_object(b: Seq<u8>) -> Option<(int, int)> {
    if b.len() > 0 && 0xa0 <= b[0] <= 0xb7 {
        Some((b[0] - 0xa0, 1int))
    } else {
        cbor_object_long(b)
    }
}

/// What is left of `b` after `n` bytes; nothing, where `n` is past its end.
pub open spec fn rest_after(b: Seq<u8>, n: int) -> Seq<u8> {
    if 0 <= n <= b.len() {
        b.skip(n)
    } else {
        Seq::empty()
    }
}

/// Reads an unsigned 8-bit number from the front of `b` with
/// `cbor::Decoder::u8`, under the codec's default limits, and reports the
/// reader's position afterwards.
#[verifier::external_body]
pub(crate) fn read_u8(b: &[u8]) -> (r: Result<(u8, u64), cbor::DecodeError>)
    ensures
        (match r {
            Ok((x, n)) => b@.len() > 0 && if b@[0] < 24 {
                x == b@[0] && n == 1
            } else {
                cbor_u8_long(b@) == Some((x, n as int))
            },
            Err(_) => b@.len() == 0 || (b@[0] >= 24 && cbor_u8_long(b@) is None),
        }),
{
    let mut d = cbor::Decoder::new(cbor::Config::default(), std::io::Cursor::new(b));
    let x = d.u8()?;
    Ok((x, d.into_reader().position()))
}

/// Reads the head of an object from the front of `b` with
/// `cbor::Decoder::object`, under the codec's default limits, and reports the
/// reader's position afterwards.
#[verifier::external_body]
pub(crate) fn read_object(b: &[u8]) -> (r: Result<(usize, u64), cbor::DecodeError>)
    ensures
        (match r {
            Ok((count, n)) => if b@.len() > 0 && 0xa0 <= b@[0] <= 0xb7 {
                count == b@[0] - 0xa0 && n == 1
            } else {
                cbor_object_long(b@) == Some((count as int, n as int))
            },
            Err(_) => !(b@.len() > 0 && 0xa0 <= b@[0] <= 0xb7) && cbor_object_long(b@) is None,
        }),
{
    let mut d = cbor::Decoder::new(cbor::Config::default(), std::io::Cursor::new(b));
    let count = d.object()?;
    Ok((count, d.into_reader().position()))
}

/// Skips the item at the front of `b` with `cbor::Decoder::skip`, under the
/// codec's default limits, and reports the reader's position afterwards.
#[verifier::external_body]
pub(crate) fn skip_item(b: &[u8]) -> (r: Result<u64, cbor::DecodeError>)
    ensures
        (match r {
            Ok(n) => cbor_skip(b@) == Some(n as int),
            Err(_) => cbor_skip(b@) is None,
        }),
{
    let mut d = cbor::Decoder::new(cbor::Config::default(), std::io::Cursor::new(b));
    d.skip()?;
    Ok(d.into_reader().position())
}

/// The codec's account of a refusal, as text. Nothing is claimed of it.
#[verifier::external_body]
pub(crate) fn describe_refusal(e: cbor::DecodeError) -> String {
    format!("{}", e)
}

/// The codec's account of a failed write, as text. Nothing is claimed of it.
#[verifier::external_body]
pub(crate) fn describe_failure(e: cbor::EncodeError) -> String {
    format!("{}", e)
}

/// The bytes that `cbor::Encoder::u8` writes for `x`: the number alone where
/// it is below 24, else the byte 24 and then the number.
pub open spec fn u8_item(x: u8) -> Seq<u8> {
    if x < 24 {
        seq![x]
    } else {
        seq![24u8, x]
    }
}

/// The byte that `cbor::Encoder::object` writes as the head of an object of
/// `count` fields, for fewer than 24 fields.
pub open spec fn object_head(count: int) -> Seq<u8>
    recommends
        0 <= count < 24,
{
    seq![(0xa0 + count) as u8]
}

/// Writes `x` with `cbor::Encoder::u8` into a vector of its own. The encoder
/// fails only where its writer does, and the writer is a vector, to which a
/// write appends: so the call succeeds, and the vector holds the item.
#[verifier::external_body]
pub(crate) fn write_u8(x: u8) -> (r: Result<Vec<u8>, cbor::EncodeError>)
    ensures
        r is Ok && r->Ok_0@ == u8_item(x),
{
    let mut e = cbor::Encoder::new(Vec::new());
    e.u8(x)?;
    Ok(e.into_writer())
}

/// Writes the head of an object of `count` fields with
/// `cbor::Encoder::object` into a vector of its own. As with
/// [`write_u8`], the writer is a vector and the call succeeds.
#[verifier::external_body]
pub(crate) fn write_object(count: usize) -> (r: Result<Vec<u8>, cbor::EncodeError>)
    requires
        count < 24,
    ensures
        r is Ok && r->Ok_0@ == object_head(count as int),
{
    let mut e = cbor::Encoder::new(Vec::new());
    e.object(count)?;
    Ok(e.into_writer())
}

/// What is left of `b` after `n` bytes.
pub fn advance(b: &[u8], n: u64) -> (rest: &[u8])
    ensures
        rest@ == rest_after(b@, n as int),
{
    let len: usize = b.len();
    if n <= len as u64 {
        slice_subrange(b, n as usize, len)
    } else {
        slice_subrange(b, len, len)
    }
}

} // verus!
