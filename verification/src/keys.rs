//! Extended public keys and the addresses they stand for.

use std::str::FromStr;

use bitcoin::{Address, CompressedPublicKey, Network};
use vstd::prelude::*;

use crate::error::{self, Failure, JadeError};
use crate::path;
use crate::text;
use crate::types::JadeNetwork;

verus! {

/// What this crate reads of an extended public key.
#[derive(Debug, Clone)]
pub struct Xpub {
    /// Derivation steps from the master key.
    pub depth: u8,
    /// Fingerprint of the parent key.
    pub parent_fingerprint: u32,
    /// The key itself, compressed.
    pub public_key: Vec<u8>,
}

/// The mathematical value of an [`Xpub`].
pub struct Key {
    pub depth: u8,
    pub parent_fingerprint: u32,
    pub public_key: Seq<u8>,
}

impl View for Xpub {
    type V = Key;

    open spec fn view(&self) -> Key {
        Key {
            depth: self.depth,
            parent_fingerprint: self.parent_fingerprint,
            public_key: self.public_key@,
        }
    }
}

/// What `bitcoin::bip32::Xpub::from_str` makes of a text: the key, or the
/// message of its error.
pub uninterp spec fn extended_key(xpub: Seq<char>) -> Result<Key, Seq<char>>;

/// The text of `Address::p2wpkh` for a compressed public key on a chain, where
/// both are valid.
pub uninterp spec fn p2wpkh(public_key: Seq<u8>, chain: Seq<char>) -> Option<Seq<char>>;

/// Calls `bitcoin::bip32::Xpub::from_str`.
///
/// Claimed of it: the key and the error's message depend on the text alone,
/// and the public key of a parsed key has an address on every network.
#[verifier::external_body]
fn parse_xpub(xpub: &str) -> (r: Result<Xpub, String>)
    ensures
        error::answer(r) == extended_key(xpub@),
        forall|network: JadeNetwork|
            r is Ok ==> #[trigger] p2wpkh(r->Ok_0.public_key@, network.chain()) is Some,
{
    match bitcoin::bip32::Xpub::from_str(xpub) {
        Ok(key) => Ok(Xpub {
            depth: key.depth,
            parent_fingerprint: u32::from_be_bytes(key.parent_fingerprint.to_bytes()),
            public_key: key.public_key.serialize().to_vec(),
        }),
        Err(error) => Err(error.to_string()),
    }
}

/// Calls `Address::p2wpkh`.
///
/// Claimed of it: the address depends on the key and the chain alone.
#[verifier::external_body]
fn p2wpkh_address(public_key: &[u8], chain: &str) -> (r: Option<String>)
    ensures
        match r {
            Some(address) => Some(address@),
            None => None,
        } == p2wpkh(public_key@, chain@),
{
    let key = CompressedPublicKey::from_slice(public_key).ok()?;
    let network = Network::from_core_arg(chain).ok()?;
    Some(Address::p2wpkh(&key, network).to_string())
}

/// A parsed key that the device returned.
pub open spec fn key_accepted(parsed: Result<Key, Seq<char>>) -> Result<Key, Failure> {
    match parsed {
        Ok(key) => Ok(key),
        Err(message) => Err(
            Failure::Protocol("device returned an unparsable xpub: "@ + message),
        ),
    }
}

/// The key in a text that the device returned.
pub open spec fn returned_key(xpub: Seq<char>) -> Result<Key, Failure> {
    key_accepted(extended_key(xpub))
}

/// The segwit address of the key in a text that the device returned.
pub open spec fn returned_address(xpub: Seq<char>, network: JadeNetwork) -> Result<
    Seq<char>,
    Failure,
> {
    match returned_key(xpub) {
        Ok(key) => Ok(p2wpkh(key.public_key, network.chain())->0),
        Err(failure) => Err(failure),
    }
}

/// Whether a key of depth `depth` can belong to a path of `steps` steps.
pub open spec fn depth_checked(depth: u8, steps: nat) -> Result<(), Failure> {
    if depth == steps {
        Ok(())
    } else {
        Err(
            Failure::Protocol(
                "device returned a key at depth "@ + text::decimal(depth as nat)
                    + " for a path of depth "@ + text::decimal(steps),
            ),
        )
    }
}

/// Whether a parsed key can belong to a parsed path.
pub open spec fn key_checked(
    key: Result<Key, Seq<char>>,
    path: Result<Seq<u32>, Seq<char>>,
) -> Result<(), Failure> {
    match key_accepted(key) {
        Err(failure) => Err(failure),
        Ok(key) => match path {
            Err(message) => Err(Failure::Path(message)),
            Ok(steps) => depth_checked(key.depth, steps.len()),
        },
    }
}

/// Whether the key `xpub` can belong to the path `path`.
pub open spec fn xpub_verified(xpub: Seq<char>, path: Seq<char>) -> Result<(), Failure> {
    key_checked(extended_key(xpub), path::derivation_path(text::trimmed(path)))
}

/// Takes a parsed key that the device returned.
pub fn accept_key(parsed: Result<Xpub, String>) -> (r: Result<Xpub, JadeError>)
    ensures
        error::outcome(r) == key_accepted(error::answer(parsed)),
        parsed matches Ok(key) ==> r == Ok::<Xpub, JadeError>(key),
{
    match parsed {
        Ok(key) => Ok(key),
        Err(message) => Err(
            JadeError::protocol(
                text::concat("device returned an unparsable xpub: ", message.as_str()),
            ),
        ),
    }
}

/// Reads a key that the device returned.
pub fn read_key(xpub: &str) -> (r: Result<Xpub, JadeError>)
    ensures
        error::outcome(r) == returned_key(xpub@),
        forall|network: JadeNetwork|
            r is Ok ==> #[trigger] p2wpkh(r->Ok_0.public_key@, network.chain()) is Some,
{
    accept_key(parse_xpub(xpub))
}

/// The segwit address of a key that the device returned.
pub fn segwit_address(xpub: &str, network: JadeNetwork) -> (r: Result<String, JadeError>)
    ensures
        error::outcome(r) == returned_address(xpub@, network),
{
    match read_key(xpub) {
        Ok(key) => {
            assert(p2wpkh(key.public_key@, network.chain()) is Some);
            Ok(p2wpkh_address(key.public_key.as_slice(), network.chain_name()).unwrap())
        },
        Err(error) => Err(error),
    }
}

/// Checks a key's depth against the length of the path it was asked for.
pub fn check_depth(depth: u8, steps: usize) -> (r: Result<(), JadeError>)
    ensures
        error::outcome(r) == depth_checked(depth, steps as nat),
{
    if depth as usize == steps {
        return Ok(());
    }
    let mut details = "device returned a key at depth ".to_owned();
    text::push_decimal(&mut details, depth as u64);
    let mut details = text::concat(details.as_str(), " for a path of depth ");
    text::push_decimal(&mut details, steps as u64);
    Err(JadeError::protocol(details))
}

/// Checks a parsed key against the parsed path it was asked for.
pub fn check_key(key: Result<Xpub, String>, path: Result<Vec<u32>, String>) -> (r: Result<
    (),
    JadeError,
>)
    ensures
        error::outcome(r) == key_checked(error::answer(key), error::answer(path)),
{
    let key = match accept_key(key) {
        Ok(key) => key,
        Err(error) => return Err(error),
    };
    match path {
        Ok(steps) => check_depth(key.depth, steps.len()),
        Err(message) => Err(JadeError::InvalidPath { error_details: message }),
    }
}

/// Confirms the device answered the question that was asked.
pub fn verify_xpub(xpub: &str, path: &str) -> (r: Result<(), JadeError>)
    ensures
        error::outcome(r) == xpub_verified(xpub@, path@),
        path::read_as_written(path@),
{
    check_key(parse_xpub(xpub), path::parse(path))
}

} // verus!
