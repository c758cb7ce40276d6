//! Laws about the paths of requests and the keys they return.

use vstd::prelude::*;

use crate::client;
use crate::error::Failure;
use crate::keys::{self, Key};
use crate::laws::values;
use crate::path;
use crate::protocol::Call;
use crate::text;
use crate::types::JadeNetwork;

verus! {

/// A request carries the steps that its path is read as, all of them in their
/// order, with the name of its network.
pub proof fn requests_carry_the_path(
    network: JadeNetwork,
    path: Seq<char>,
    steps: Seq<u32>,
    allow_master: bool,
)
    requires
        path::derivation_path(text::trimmed(path)) == Ok::<Seq<u32>, Seq<char>>(steps),
        steps.len() > 0 || allow_master,
    ensures
        path::wire_path(path, allow_master) == Ok::<Seq<u32>, Failure>(steps),
        client::xpub_call(network, path, allow_master) matches Ok(
            Call::GetXpub { network: name, path: sent },
        ) && values::names_network(name, network) && sent == steps,
{
}

/// A path in its usual notation is carried as the steps that it is the notation
/// of.
pub proof fn requests_carry_the_steps_as_written(
    network: JadeNetwork,
    path: Seq<char>,
    steps: Seq<u32>,
    allow_master: bool,
)
    requires
        path::read_as_written(path),
        text::trimmed(path) == path::path_text(steps),
        steps.len() > 0,
    ensures
        path::wire_path(path, allow_master) == Ok::<Seq<u32>, Failure>(steps),
        client::xpub_call(network, path, allow_master) matches Ok(
            Call::GetXpub { network: name, path: sent },
        ) && values::names_network(name, network) && sent == steps,
        path::purpose_of(path) == (if steps[0] >= 0x8000_0000 {
            Some((steps[0] - 0x8000_0000) as u32)
        } else {
            None
        }),
{
}

/// A path that cannot be read is refused in the parser's words, and the master
/// path is refused where it is not allowed; no request is made for either.
pub proof fn unusable_paths_are_refused(network: JadeNetwork, path: Seq<char>, message: Seq<char>)
    ensures
        path::derivation_path(text::trimmed(path)) == Err::<Seq<u32>, Seq<char>>(message) ==> {
            &&& path::wire_path(path, true) == Err::<Seq<u32>, Failure>(Failure::Path(message))
            &&& path::wire_path(path, false) == Err::<Seq<u32>, Failure>(Failure::Path(message))
            &&& client::xpub_call(network, path, true) == Err::<Call, Failure>(
                Failure::Path(message),
            )
            &&& client::xpub_call(network, path, false) == Err::<Call, Failure>(
                Failure::Path(message),
            )
            &&& path::purpose_of(path) is None
        },
        path::derivation_path(text::trimmed(path)) == Ok::<Seq<u32>, Seq<char>>(Seq::empty())
            ==> path::wire_path(path, false) == Err::<Seq<u32>, Failure>(
            Failure::Path("the master key path is not accepted here"@),
        ) && client::xpub_call(network, path, false) is Err,
{
}

/// The purpose of a path is the number of its first step, if that is hardened.
pub proof fn purpose_is_the_first_step(path: Seq<char>, steps: Seq<u32>, n: u32)
    requires
        path::derivation_path(text::trimmed(path)) == Ok::<Seq<u32>, Seq<char>>(steps),
    ensures
        path::purpose_of(path) == Some(n) <==> steps.len() > 0 && steps[0] == 0x8000_0000 + n,
        path::purpose_of(path) is None <==> steps.len() == 0 || steps[0] < 0x8000_0000,
{
}

/// A key is the answer for a path if and only if both can be read and the key
/// lies as many steps below the master key as the path has.
pub proof fn keys_lie_as_deep_as_their_path(xpub: Seq<char>, path: Seq<char>)
    ensures
        keys::xpub_verified(xpub, path) is Ok <==> {
            &&& keys::extended_key(xpub) matches Ok(key)
            &&& path::derivation_path(text::trimmed(path)) matches Ok(steps)
            &&& key.depth as int == steps.len()
        },
        keys::extended_key(xpub) matches Err(message) ==> keys::xpub_verified(xpub, path) == Err::<
            (),
            Failure,
        >(Failure::Protocol("device returned an unparsable xpub: "@ + message)),
        keys::extended_key(xpub) is Ok ==> (path::derivation_path(text::trimmed(path)) matches Err(
            message,
        ) ==> keys::xpub_verified(xpub, path) == Err::<(), Failure>(Failure::Path(message))),
        keys::extended_key(xpub) matches Ok(key) ==> (path::derivation_path(
            text::trimmed(path),
        ) matches Ok(steps) ==> (key.depth as int != steps.len() ==> keys::xpub_verified(xpub, path)
            == Err::<(), Failure>(
            Failure::Protocol(
                "device returned a key at depth "@ + text::decimal(key.depth as nat)
                    + " for a path of depth "@ + text::decimal(steps.len()),
            ),
        ))),
{
}

/// A key is read from a text as the parser reads it, with nothing changed, and
/// its address is that of its public key on the network's chain.
pub proof fn keys_are_read_as_they_are(xpub: Seq<char>, network: JadeNetwork, chain: Seq<char>)
    requires
        values::names_chain(chain, network),
    ensures
        keys::extended_key(xpub) matches Ok(key) ==> {
            &&& keys::returned_key(xpub) == Ok::<Key, Failure>(key)
            &&& keys::p2wpkh(key.public_key, chain) matches Some(address)
                ==> keys::returned_address(xpub, network) == Ok::<Seq<char>, Failure>(address)
        },
        keys::extended_key(xpub) matches Err(message) ==> {
            &&& keys::returned_key(xpub) == Err::<Key, Failure>(
                Failure::Protocol("device returned an unparsable xpub: "@ + message),
            )
            &&& keys::returned_address(xpub, network) == Err::<Seq<char>, Failure>(
                Failure::Protocol("device returned an unparsable xpub: "@ + message),
            )
        },
{
}

/// What is made of parsed keys and paths is what is made of their texts.
pub proof fn parsed_keys_are_checked(
    key: Result<Key, Seq<char>>,
    path: Result<Seq<u32>, Seq<char>>,
)
    ensures
        keys::key_accepted(key) is Ok <==> key is Ok,
        key is Ok ==> keys::key_accepted(key)->Ok_0 == key->Ok_0,
        key matches Err(message) ==> keys::key_accepted(key) == Err::<Key, Failure>(
            Failure::Protocol("device returned an unparsable xpub: "@ + message),
        ),
        keys::key_checked(key, path) is Ok <==> key is Ok && path is Ok && key->Ok_0.depth as int
            == path->Ok_0.len(),
        key is Ok ==> (path matches Err(message) ==> keys::key_checked(key, path) == Err::<
            (),
            Failure,
        >(Failure::Path(message))),
{
}

/// A key's depth is accepted if and only if it is the number of steps; otherwise
/// both are reported.
pub proof fn depths_are_compared(depth: u8, steps: nat)
    ensures
        keys::depth_checked(depth, steps) is Ok <==> depth as int == steps,
        depth as int != steps ==> keys::depth_checked(depth, steps) == Err::<(), Failure>(
            Failure::Protocol(
                "device returned a key at depth "@ + text::decimal(depth as nat)
                    + " for a path of depth "@ + text::decimal(steps),
            ),
        ),
{
}

/// A parsed path is accepted as it is, unless it is the master path where that is
/// not allowed; and its purpose is the number of its first step, if that is
/// hardened.
pub proof fn parsed_paths_are_accepted(
    parsed: Result<Seq<u32>, Seq<char>>,
    allow_master: bool,
    n: u32,
)
    ensures
        parsed matches Ok(steps) ==> (steps.len() > 0 || allow_master ==> path::accepted(
            parsed,
            allow_master,
        ) == Ok::<Seq<u32>, Failure>(steps)),
        parsed matches Ok(steps) ==> (steps.len() == 0 ==> path::accepted(parsed, false) == Err::<
            Seq<u32>,
            Failure,
        >(Failure::Path("the master key path is not accepted here"@))),
        parsed matches Err(message) ==> path::accepted(parsed, allow_master) == Err::<
            Seq<u32>,
            Failure,
        >(Failure::Path(message)),
        parsed matches Ok(steps) ==> (path::leading_purpose(steps) == Some(n) <==> steps.len() > 0
            && steps[0] == 0x8000_0000 + n),
{
}

} // verus!
