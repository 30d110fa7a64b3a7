//! How a store lays its records out in a directory: the names of the files,
//! and the marker that tells which version of the layout a directory has.

use vstd::prelude::*;
use byteorder::ByteOrder;
use crate::keys::PreKeyId;
use crate::text::{decimal, to_decimal};

verus! {

/// The version of the layout that this crate writes.
pub const CURRENT_VERSION: u16 = 1;

/// The directory of the saved sessions, one file each, named by the session.
pub const SESSIONS_DIR: &'static str = "sessions";

/// The directory of the prekeys, one file each, named by the id in decimal.
pub const PREKEYS_DIR: &'static str = "prekeys";

/// The directory of the identity record.
pub const IDENTITIES_DIR: &'static str = "identities";

/// The file of the identity record in its directory.
pub const IDENTITY_FILE: &'static str = "local";

/// The file of the version marker.
pub const VERSION_FILE: &'static str = "version";

/// The marker of version `v`: two bytes, the high one first.
pub open spec fn version_bytes(v: u16) -> Seq<u8> {
    seq![(v / 256) as u8, (v % 256) as u8]
}

/// The version that a marker tells: its first two bytes, the high one first.
/// `None` for a marker that is too short.
pub open spec fn version_of(b: Seq<u8>) -> Option<u16> {
    if b.len() >= 2 {
        Some((b[0] * 256 + b[1]) as u16)
    } else {
        None
    }
}

/// Reads the first two bytes of `buf` as one number, the high byte first, by
/// `byteorder::BigEndian::read_u16`.
#[verifier::external_body]
fn read_u16_be(buf: &[u8]) -> (n: u16)
    requires
        buf@.len() >= 2,
    ensures
        n == buf@[0] * 256 + buf@[1],
{
    byteorder::BigEndian::read_u16(buf)
}

/// Writes `n` into two bytes, the high byte first, by
/// `byteorder::BigEndian::write_u16`.
#[verifier::external_body]
fn write_u16_be(n: u16) -> (buf: Vec<u8>)
    ensures
        buf@ == version_bytes(n),
{
    let mut buf = vec![0u8; 2];
    byteorder::BigEndian::write_u16(&mut buf, n);
    buf
}

/// The marker to write for version `v`.
pub fn encode_version(v: u16) -> (b: Vec<u8>)
    ensures
        b@ == version_bytes(v),
{
    write_u16_be(v)
}

/// The version that the marker `b` tells.
pub fn decode_version(b: &[u8]) -> (v: Option<u16>)
    ensures
        v == version_of(b@),
{
    if b.len() >= 2 {
        Some(read_u16_be(b))
    } else {
        None
    }
}

/// A marker tells the version that it was written for.
pub proof fn lemma_version_round_trip(v: u16)
    ensures
        version_of(version_bytes(v)) == Some(v),
{
}

/// What is to be done with a directory when a store is opened on it.
#[derive(Clone, Copy, Debug, PartialEq, Eq, Structural)]
pub enum Startup {
    /// There is no marker: the directory is new, or older than the markers.
    /// An identity left in the old place is moved to the new one, and the
    /// marker of the current version is written.
    Initialise,
    /// The marker tells an older version: the steps that lead from it to the
    /// current one are run, and the marker is written anew.
    Migrate(u16),
    /// The marker tells the current version, or a later one: the directory is
    /// taken as it is.
    Ready,
}

/// What is to be done with a directory whose marker, if it has one, tells the
/// version `found`.
pub open spec fn startup_of(found: Option<u16>) -> Startup {
    match found {
        None => Startup::Initialise,
        Some(v) => if v < CURRENT_VERSION {
            Startup::Migrate(v)
        } else {
            Startup::Ready
        },
    }
}

/// Decides what to do with a directory whose marker, if it has one, tells the
/// version `found`.
pub fn startup(found: Option<u16>) -> (s: Startup)
    ensures
        s == startup_of(found),
{
    match found {
        None => Startup::Initialise,
        Some(v) => if v < CURRENT_VERSION {
            Startup::Migrate(v)
        } else {
            Startup::Ready
        },
    }
}

/// A directory that was initialised or migrated, and so carries the marker
/// of the current version, is taken as it is from then on.
pub proof fn lemma_started_once()
    ensures
        startup_of(version_of(version_bytes(CURRENT_VERSION))) == Startup::Ready,
{
}

/// The name of the file of the prekey `id`: the id in decimal.
pub fn prekey_file(id: PreKeyId) -> (name: String)
    ensures
        name@ == decimal(id.0 as nat),
{
    to_decimal(id.value())
}

/// The name of the file next to `name` in which a record is written before it
/// takes the place of `name`, so that no reader ever finds half a record.
pub fn temp_file(name: &str) -> (temp: String)
    ensures
        temp@ == name@ + ".tmp"@,
{
    let mut temp = String::from_str(name);
    temp.append(".tmp");
    temp
}

} // verus!
