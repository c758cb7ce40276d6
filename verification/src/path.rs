//! Derivation paths.

use std::str::FromStr;

use bitcoin::bip32::DerivationPath;
use vstd::prelude::*;

use crate::error::{self, Failure, JadeError};
use crate::text;

verus! {

/// Set in the number of a hardened step.
pub const HARDENED: u32 = 0x8000_0000;

/// What `DerivationPath::from_str` makes of a text: the number of each step,
/// with [`HARDENED`] set in the hardened ones, or the message of its error.
pub uninterp spec fn derivation_path(path: Seq<char>) -> Result<Seq<u32>, Seq<char>>;

/// One step of a path in its usual notation.
pub open spec fn step_text(step: u32) -> Seq<char> {
    if step < HARDENED {
        "/"@ + text::decimal(step as nat)
    } else {
        "/"@ + text::decimal((step - HARDENED) as nat) + "'"@
    }
}

/// A path in its usual notation, such as `m/84'/0'/0'`.
pub open spec fn path_text(path: Seq<u32>) -> Seq<char>
    decreases path.len(),
{
    if path.len() == 0 {
        "m"@
    } else {
        path_text(path.drop_last()) + step_text(path.last())
    }
}

/// A path in its usual notation, followed by a hardened step `n`.
pub open spec fn path_text_then(path: Seq<u32>, n: nat) -> Seq<char> {
    path_text(path) + ("/"@ + text::decimal(n) + "'"@)
}

/// Calls `DerivationPath::from_str`.
///
/// Claimed of it: the steps and the error's message depend on the text alone,
/// the usual notation of a path is read back as that path, and a hardened step
/// whose number takes more than 31 bits is an error.
#[verifier::external_body]
fn parse_path(path: &str) -> (r: Result<Vec<u32>, String>)
    ensures
        error::answer(r) == derivation_path(path@),
        forall|steps: Seq<u32>|
            path@ == #[trigger] path_text(steps) ==> r is Ok && r->Ok_0@ == steps,
        forall|steps: Seq<u32>, n: nat|
            path@ == #[trigger] path_text_then(steps, n) && n >= HARDENED ==> r is Err,
{
    match DerivationPath::from_str(path) {
        Ok(parsed) => Ok(parsed.to_u32_vec()),
        Err(error) => Err(error.to_string()),
    }
}

/// Whether `path` is read as it is written: as the steps that it is the usual
/// notation of, and not at all if it ends in a hardened step whose number takes
/// more than 31 bits.
pub open spec fn read_as_written(path: Seq<char>) -> bool {
    &&& forall|steps: Seq<u32>|
        text::trimmed(path) == #[trigger] path_text(steps) ==> derivation_path(text::trimmed(path))
            == Ok::<Seq<u32>, Seq<char>>(steps)
    &&& forall|steps: Seq<u32>, n: nat|
        text::trimmed(path) == #[trigger] path_text_then(steps, n) && n >= HARDENED
            ==> derivation_path(text::trimmed(path)) is Err
}

/// A parsed path, where an empty one is acceptable only if `allow_master`.
pub open spec fn accepted(
    parsed: Result<Seq<u32>, Seq<char>>,
    allow_master: bool,
) -> Result<Seq<u32>, Failure> {
    match parsed {
        Err(message) => Err(Failure::Path(message)),
        Ok(path) => if path.len() == 0 && !allow_master {
            Err(Failure::Path("the master key path is not accepted here"@))
        } else {
            Ok(path)
        },
    }
}

/// The steps that a request carries for the path `path`.
pub open spec fn wire_path(path: Seq<char>, allow_master: bool) -> Result<Seq<u32>, Failure> {
    accepted(derivation_path(text::trimmed(path)), allow_master)
}

/// The purpose that a path begins with: the number of its first step, if that
/// step is hardened.
pub open spec fn leading_purpose(path: Seq<u32>) -> Option<u32> {
    if path.len() > 0 && path[0] >= HARDENED {
        Some((path[0] - HARDENED) as u32)
    } else {
        None
    }
}

/// The purpose of the path `path`, if it is a path and has one.
pub open spec fn purpose_of(path: Seq<char>) -> Option<u32> {
    match derivation_path(text::trimmed(path)) {
        Ok(steps) => leading_purpose(steps),
        Err(_) => None,
    }
}

/// Reads a path.
pub fn parse(path: &str) -> (r: Result<Vec<u32>, String>)
    ensures
        error::answer(r) == derivation_path(text::trimmed(path@)),
        read_as_written(path@),
{
    parse_path(text::trim(path))
}

/// Takes a parsed path, where an empty one is acceptable only if
/// `allow_master`.
pub fn accept(parsed: Result<Vec<u32>, String>, allow_master: bool) -> (r: Result<
    Vec<u32>,
    JadeError,
>)
    ensures
        error::outcome(r) == accepted(error::answer(parsed), allow_master),
{
    match parsed {
        Err(message) => Err(JadeError::InvalidPath { error_details: message }),
        Ok(path) => if path.len() == 0 && !allow_master {
            Err(
                JadeError::InvalidPath {
                    error_details: "the master key path is not accepted here".to_owned(),
                },
            )
        } else {
            Ok(path)
        },
    }
}

/// The steps that a request carries for the path `path`.
pub fn to_wire(path: &str, allow_master: bool) -> (r: Result<Vec<u32>, JadeError>)
    ensures
        error::outcome(r) == wire_path(path@, allow_master),
        read_as_written(path@),
        forall|steps: Seq<u32>|
            text::trimmed(path@) == #[trigger] path_text(steps) && steps.len() > 0 ==> r is Ok
                && r->Ok_0@ == steps,
{
    accept(parse(path), allow_master)
}

/// The purpose that a path begins with: the number of its first step, if that
/// step is hardened.
pub fn first_purpose(path: &Vec<u32>) -> (r: Option<u32>)
    ensures
        r == leading_purpose(path@),
{
    if path.len() > 0 && path[0] >= HARDENED {
        Some(path[0] - HARDENED)
    } else {
        None
    }
}

/// The purpose of the path `path`, if it is a path and has one.
pub fn purpose(path: &str) -> (r: Option<u32>)
    ensures
        r == purpose_of(path@),
        read_as_written(path@),
{
    match parse(path) {
        Ok(steps) => first_purpose(&steps),
        Err(_) => None,
    }
}

} // verus!
