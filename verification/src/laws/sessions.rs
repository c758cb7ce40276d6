//! Laws about the session: its network, its replies and the master fingerprint.

use vstd::prelude::*;

use crate::client::{self, Session};
use crate::error::Failure;
use crate::keys::{self, Key};
use crate::laws::numerals;
use crate::laws::values;
use crate::protocol::{self, Call, Datum};
use crate::text;
use crate::types::{JadeNetwork, JadePingStatus, Version};

verus! {

/// Whether a device that is unlocked for `unlocked` takes requests for
/// `network`.
pub open spec fn takes(unlocked: Option<JadeNetwork>, network: JadeNetwork) -> bool {
    unlocked is None || unlocked == Some(network)
}

/// Requests for another network than the device was unlocked for are refused
/// with both names, and no others are.
pub proof fn other_networks_are_refused(
    unlocked: Option<JadeNetwork>,
    network: JadeNetwork,
    own: Seq<char>,
    requested: Seq<char>,
)
    requires
        unlocked is Some ==> values::names_network(own, unlocked->0),
        values::names_network(requested, network),
    ensures
        client::network_checked(unlocked, network) == if takes(unlocked, network) {
            Ok::<(), Failure>(())
        } else {
            Err(
                Failure::Network(
                    "the device was unlocked for "@ + own + " but the request is for "@ + requested,
                ),
            )
        },
{
}

/// Unlocking, logging out and reading the version summary again each change one
/// thing about the session and leave the rest.
pub proof fn sessions_change_one_thing(
    session: Session,
    network: JadeNetwork,
    version: Version,
    failure: Failure,
)
    ensures
        session.unlocked_for(network).unlocked_network == Some(network),
        session.unlocked_for(network).version == session.version,
        session.logged_out().unlocked_network is None,
        session.logged_out().version == session.version,
        session.reread(Ok(version)).version == version,
        session.reread(Ok(version)).unlocked_network == session.unlocked_network,
        session.reread(Err(failure)) == session,
{
}

/// A reply is taken for a text, a truth value or a status if and only if it is
/// one; any other is a protocol error, and a failure stays the failure it is.
pub proof fn replies_are_what_they_are(reply: Result<Datum, Failure>)
    ensures
        protocol::text_of(reply) is Ok <==> reply is Ok && reply->Ok_0 is Text,
        reply matches Ok(Datum::Text(s)) ==> protocol::text_of(reply) == Ok::<Seq<char>, Failure>(
            s,
        ),
        protocol::bool_of(reply) is Ok <==> reply is Ok && reply->Ok_0 is Bool,
        reply matches Ok(Datum::Bool(b)) ==> protocol::bool_of(reply) == Ok::<bool, Failure>(b),
        protocol::status_of(reply) is Ok <==> (reply matches Ok(Datum::Integer(n)) && 0 <= n
            < 0x1_0000_0000_0000_0000),
        reply matches Ok(Datum::Integer(n)) ==> (0 <= n < 0x1_0000_0000_0000_0000
            ==> protocol::status_of(reply) == Ok::<JadePingStatus, Failure>(
            if n == 0 {
                JadePingStatus::Idle
            } else if n == 1 {
                JadePingStatus::Busy
            } else if n == 2 {
                JadePingStatus::AwaitingUser
            } else {
                JadePingStatus::Unknown
            },
        )),
        reply matches Err(failure) ==> {
            &&& protocol::text_of(reply) == Err::<Seq<char>, Failure>(failure)
            &&& protocol::bool_of(reply) == Err::<bool, Failure>(failure)
            &&& protocol::status_of(reply) == Err::<JadePingStatus, Failure>(failure)
        },
        reply is Ok && protocol::text_of(reply) is Err ==> protocol::text_of(reply)->Err_0
            == Failure::Protocol("expected a text result"@),
        reply is Ok && protocol::bool_of(reply) is Err ==> protocol::bool_of(reply)->Err_0
            == Failure::Protocol("expected a boolean result"@),
        reply is Ok && protocol::status_of(reply) is Err ==> protocol::status_of(reply)->Err_0
            == Failure::Protocol("expected an integer ping result"@),
{
}

/// The master fingerprint is asked for by the first hardened key below the
/// master key.
pub proof fn fingerprint_is_asked_of_the_first_child(network: JadeNetwork)
    ensures
        client::master_child_call(network) matches Call::GetXpub { network: name, path }
            && values::names_network(name, network) && path.len() == 1 && path[0] == 0x8000_0000,
{
}

/// The master fingerprint is the parent fingerprint of the key in the reply, all
/// 32 bits of it, and its text is those eight hexadecimal digits.
pub proof fn fingerprint_is_the_parent_of_the_reply(xpub: Seq<char>, key: Key)
    requires
        keys::extended_key(xpub) == Ok::<Key, Seq<char>>(key),
    ensures
        client::fingerprint_of(Ok(Datum::Text(xpub))) == Ok::<u32, Failure>(
            key.parent_fingerprint,
        ),
        client::fingerprint_text_of(Ok(Datum::Text(xpub))) matches Ok(t) && t.len() == 8
            && numerals::numeral_value(t, 16) == key.parent_fingerprint && (forall|i: int|
            0 <= i < 8 ==> {
                let c = #[trigger] t[i];
                '0' <= c <= '9' || 'a' <= c <= 'f'
            }),
{
    numerals::fingerprint_reads_back(key.parent_fingerprint);
    text::fingerprint_characters(key.parent_fingerprint);
}

/// Without a key there is no master fingerprint: a failure stays the failure it
/// is, and anything but the text of a key is a protocol error.
pub proof fn fingerprint_needs_a_key(reply: Result<Datum, Failure>)
    ensures
        client::fingerprint_of(reply) is Ok <==> (reply matches Ok(Datum::Text(xpub))
            && keys::extended_key(xpub) is Ok),
        client::fingerprint_text_of(reply) is Ok <==> client::fingerprint_of(reply) is Ok,
        client::fingerprint_of(reply) matches Err(failure) ==> client::fingerprint_text_of(reply)
            == Err::<Seq<char>, Failure>(failure),
        reply matches Err(failure) ==> client::fingerprint_of(reply) == Err::<u32, Failure>(
            failure,
        ),
        reply is Ok && !(reply->Ok_0 is Text) ==> client::fingerprint_of(reply) == Err::<
            u32,
            Failure,
        >(Failure::Protocol("expected a text result"@)),
        reply matches Ok(Datum::Text(xpub)) ==> (keys::extended_key(xpub) matches Err(message)
            ==> client::fingerprint_of(reply) == Err::<u32, Failure>(
            Failure::Protocol("device returned an unparsable xpub: "@ + message),
        )),
{
}

} // verus!
