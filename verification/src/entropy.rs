//! Random bytes for the device's pool.

use rand::RngCore;
use vstd::prelude::*;
use zeroize::Zeroize;

use crate::error::{self, Failure, JadeError};

verus! {

/// How many bytes of entropy the host contributes.
pub const ENTROPY_BYTES: usize = 32;

/// The error of the operating system's random source.
#[verifier::external_type_specification]
#[verifier::external_body]
pub struct ExRandError(rand::Error);

/// Calls `OsRng::try_fill_bytes`, which overwrites the bytes with random ones.
///
/// Claimed of it: there are as many bytes as before. Which bytes they are, and
/// whether the operating system has any, is left open.
#[verifier::external_body]
fn fill_random(bytes: &mut Vec<u8>) -> (r: Result<(), rand::Error>)
    ensures
        final(bytes)@.len() == old(bytes)@.len(),
{
    rand::rngs::OsRng.try_fill_bytes(bytes)
}

/// Calls `zeroize` on the bytes, which overwrites and then drops them.
///
/// Claimed of it: no bytes are left.
#[verifier::external_body]
fn wipe(bytes: &mut Vec<u8>)
    ensures
        final(bytes)@.len() == 0,
{
    bytes.zeroize();
}

/// The bytes to contribute, given what the operating system left in `bytes`
/// and whether it filled them.
pub fn contribution(filled: bool, bytes: &Vec<u8>) -> (r: Result<Vec<u8>, JadeError>)
    ensures
        error::outcome(r) == if filled {
            Ok(bytes@)
        } else {
            Err(Failure::Io("the operating system has no entropy"@))
        },
{
    if filled {
        let entropy = bytes.clone();
        assert(entropy@ =~= bytes@);
        Ok(entropy)
    } else {
        Err(JadeError::IoError { error_details: "the operating system has no entropy".to_owned() })
    }
}

/// Fresh entropy to contribute, unless the operating system has none.
pub fn fresh() -> (r: Result<Vec<u8>, JadeError>)
    ensures
        match r {
            Ok(entropy) => entropy@.len() == ENTROPY_BYTES == 32,
            Err(error) => error@ == Failure::Io("the operating system has no entropy"@),
        },
{
    let mut scratch: Vec<u8> = vec![0u8; ENTROPY_BYTES];
    let filled = fill_random(&mut scratch).is_ok();
    let r = contribution(filled, &scratch);
    wipe(&mut scratch);
    r
}

} // verus!
