//! An encrypted-messaging session manager: one local identity, its prekeys,
//! and the sessions it keeps with its peers, over a durable store.
//!
//! The ratchet itself is the work of a cryptographic primitive that lives
//! outside this crate. What is kept here is the bookkeeping around it: which
//! identity a store belongs to, which prekeys a session has used up and when
//! they leave the store, and the binary form of an identity record.
//!
//! - [`cbox`]: opening a store under an identity, and keeping prekeys and
//!   sessions in it.
//! - [`session`]: a session, and the prekeys as it sees them.
//! - [`store`]: what a store must do; [`memory`]: a store that does it in
//!   memory; [`layout`]: how a store on disk names its files.
//! - [`identity`]: the identity record and its binary form, read and written
//!   through [`cbor_items`].
//! - [`keys`]: the key material as plain values.
//! - [`error`]: the failures and their numbers; [`log`]: their log lines.
//! - [`text`], [`hex`], [`bytes`]: hexadecimal, decimal and byte strings.

pub mod bytes;
pub mod cbor_items;
pub mod cbox;
pub mod error;
pub mod hex;
pub mod identity;
pub mod keys;
pub mod layout;
pub mod log;
pub mod memory;
pub mod session;
pub mod store;
pub mod text;

pub use cbox::CBox;
pub use error::{CBoxError, CBoxResult};
pub use identity::{Identity, IdentityMode};
pub use session::CBoxSession;
