//! The verified core of a client for the
//! [Blockstream Jade](https://blockstream.com/jade/) hardware wallet.
//!
//! Jade speaks a JSON-RPC shaped protocol encoded as CBOR, over either USB CDC
//! serial or Bluetooth. This crate holds what a host decides on the way: which
//! requests it sends and with which parameters, which it refuses to send, what
//! it makes of the replies, and what it hands to the caller. Scope is Bitcoin
//! single signature; Liquid, multisig and firmware updates are not covered.
//!
//! Nothing here does input or output. An operation of [`Jade`] yields a
//! [`Request`], and takes the reply to it:
//!
//! ```text
//! let mut step = jade.get_xpub(JadeNetwork::Testnet, "m/84'/1'/0'")?;
//! let account = loop {
//!     match step {
//!         Step::Exchange { request, next } => step = next.on_reply(link.exchange(request))?,
//!         Step::Done { result } => break result,
//!     }
//! };
//! ```
//!
//! # Cancellation
//!
//! Jade has no cancel message, so the only way to stop a pending confirmation is
//! to close the link. [`Jade::cancel_handle`] returns a clonable handle that
//! works while an operation is under way.

pub mod address;
pub mod client;
pub mod entropy;
pub mod error;
pub mod export;
pub mod keys;
pub mod laws;
pub mod message;
pub mod path;
pub mod protocol;
pub mod psbt;
pub mod serial;
pub mod signing;
pub mod text;
pub mod transport;
pub mod types;
pub mod xpub;

pub use address::VerifyAddress;
pub use client::{Jade, Step};
pub use error::JadeError;
pub use export::AccountExport;
pub use message::SignMessage;
pub use protocol::{Reply, Request, Value, VersionReply};
pub use psbt::{Psbt, PsbtFields, PsbtInput, MAX_PSBT_BYTES};
pub use serial::SerialTransport;
pub use signing::{SignPsbt, SubmittedPsbt};
pub use transport::{CancelHandle, JadeConnection, MAX_CHUNK_BYTES};
pub use types::{
    version_at_least, JadeAccount, JadeAccountExport, JadeAddressVariant, JadeDeviceInfo,
    JadeNetwork, JadePingStatus, JadeSignedMessage, JadeState, JadeTransportKind, JadeVersionInfo,
    JadeXpubResponse, WireVersionInfo, MIN_JADE_FIRMWARE_TAPROOT,
};
pub use xpub::GetXpub;
