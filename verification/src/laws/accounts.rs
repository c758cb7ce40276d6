//! Laws about the operations on keys, accounts, addresses and messages.

use vstd::prelude::*;

use crate::address;
use crate::client::{self, Progress, Session};
use crate::error::Failure;
use crate::export::{self, Exporting};
use crate::keys::{self, Key};
use crate::laws::numerals;
use crate::laws::sessions;
use crate::laws::values;
use crate::message::{self, Signing};
use crate::path;
use crate::protocol::{Call, Datum};
use crate::text;
use crate::types::{
    self, Account, Export, JadeAddressVariant, JadeNetwork, SignedMessage, XpubResponse,
};
use crate::xpub::{self, Fetch};

verus! {

/// Whether `steps` lead to an account: purpose, coin and account number, all
/// hardened, where the coin is zero on the main network and one on the others.
pub open spec fn leads_to_account(
    steps: Seq<u32>,
    network: JadeNetwork,
    variant: JadeAddressVariant,
    account_index: u32,
) -> bool {
    &&& steps.len() == 3
    &&& values::numbers_variant(steps[0] - 0x8000_0000, variant)
    &&& network == JadeNetwork::Mainnet ==> steps[1] == 0x8000_0000
    &&& network == JadeNetwork::Testnet ==> steps[1] == 0x8000_0001
    &&& network == JadeNetwork::Regtest ==> steps[1] == 0x8000_0001
    &&& steps[2] == 0x8000_0000 + account_index
}

/// The key of an account is asked for at the steps that lead to the account, and
/// the account's path is the usual notation of those steps.
pub proof fn accounts_are_at_their_paths(
    network: JadeNetwork,
    variant: JadeAddressVariant,
    account_index: u32,
)
    requires
        account_index < 0x8000_0000,
    ensures
        export::account_call(network, variant, account_index) matches Ok(
            Call::GetXpub { network: name, path: steps },
        ) && values::names_network(name, network) && leads_to_account(
            steps,
            network,
            variant,
            account_index,
        ) && export::account_path(network, variant, account_index) == path::path_text(steps),
        leads_to_account(
            export::account_steps(network, variant, account_index),
            network,
            variant,
            account_index,
        ),
{
    export::account_path_facts(network, variant, account_index);
}

/// There is no account whose number takes more than 31 bits: its path is not
/// read, and nothing is sent.
pub proof fn accounts_have_31_bits(
    network: JadeNetwork,
    variant: JadeAddressVariant,
    account_index: u32,
)
    requires
        account_index >= 0x8000_0000,
    ensures
        export::account_call(network, variant, account_index) matches Err(Failure::Path(message))
            && message == path::derivation_path(
            export::account_path(network, variant, account_index),
        )->Err_0,
        text::trimmed(export::account_path(network, variant, account_index))
            == export::account_path(network, variant, account_index),
{
    export::account_path_facts(network, variant, account_index);
}

/// The paths of different accounts differ, and so do the requests for their
/// keys.
pub proof fn accounts_are_told_apart(
    network: JadeNetwork,
    a: JadeAddressVariant,
    m: u32,
    b: JadeAddressVariant,
    n: u32,
)
    requires
        m < 0x8000_0000,
        n < 0x8000_0000,
    ensures
        export::account_call(network, a, m) == export::account_call(network, b, n) <==> a == b && m
            == n,
{
    accounts_are_at_their_paths(network, a, m);
    accounts_are_at_their_paths(network, b, n);
    let p = export::account_call(network, a, m)->Ok_0->GetXpub_path;
    let q = export::account_call(network, b, n)->Ok_0->GetXpub_path;
    if p == q {
        assert(p[0] == q[0] && p[2] == q[2]);
    }
}

/// A reply is an account's key if and only if it is the text of a key three
/// steps below the master key, and the account holds that text unchanged.
pub proof fn accounts_hold_the_key_in_the_reply(
    network: JadeNetwork,
    variant: JadeAddressVariant,
    account_index: u32,
    reply: Result<Datum, Failure>,
)
    ensures
        export::account_of(network, variant, account_index, reply) is Ok <==> {
            &&& reply matches Ok(Datum::Text(xpub))
            &&& keys::extended_key(xpub) matches Ok(key)
            &&& key.depth == 3
        },
        export::account_of(network, variant, account_index, reply) matches Ok(account) ==> {
            &&& account.variant == variant
            &&& reply == Ok::<Datum, Failure>(Datum::Text(account.xpub))
            &&& account.derivation_path == export::account_path(network, variant, account_index)
        },
        reply matches Err(failure) ==> export::account_of(network, variant, account_index, reply)
            == Err::<Account, Failure>(failure),
        reply matches Ok(Datum::Text(xpub)) ==> (keys::extended_key(xpub) matches Err(message)
            ==> export::account_of(network, variant, account_index, reply) == Err::<
            Account,
            Failure,
        >(Failure::Protocol("device returned an unparsable xpub: "@ + message))),
        reply matches Ok(Datum::Text(xpub)) ==> (keys::extended_key(xpub) matches Ok(key) ==> (
        key.depth != 3 ==> export::account_of(network, variant, account_index, reply) == Err::<
            Account,
            Failure,
        >(
            Failure::Protocol(
                "device returned a key at depth "@ + text::decimal(key.depth as nat)
                    + " for a path of depth "@ + text::decimal(3),
            ),
        ))),
        reply is Ok && !(reply->Ok_0 is Text) ==> export::account_of(
            network,
            variant,
            account_index,
            reply,
        ) == Err::<Account, Failure>(Failure::Protocol("expected a text result"@)),
{
}

/// An export begins with the request for the master fingerprint, on a device
/// that takes the network, and with nothing exported yet.
pub proof fn exports_begin_with_the_fingerprint(
    unlocked: Option<JadeNetwork>,
    network: JadeNetwork,
    account_index: u32,
    variants: Seq<JadeAddressVariant>,
)
    ensures
        export::export_begun(unlocked, network, account_index, variants) is Ok <==> sessions::takes(
            unlocked,
            network,
        ),
        sessions::takes(unlocked, network) ==> {
            &&& export::export_begun(unlocked, network, account_index, variants) matches Ok(
                Progress::Exchange { call: Call::GetXpub { network: name, path }, next },
            )
            &&& values::names_network(name, network)
            &&& path == seq![0x8000_0000u32]
            &&& next.network == network
            &&& next.account_index == account_index
            &&& next.variants == variants
            &&& next.master_fingerprint is None
            &&& next.accounts.len() == 0
        },
        !sessions::takes(unlocked, network) ==> {
            let refused = export::export_begun(unlocked, network, account_index, variants);
            refused is Err && refused->Err_0 == client::network_checked(unlocked, network)->Err_0
        },
{
}

/// An export goes on from reply to reply: the fingerprint first, then an account
/// for each variant in its place, and it is complete when none is missing. A
/// failed reply ends it with that failure.
pub proof fn exports_go_on(exporting: Exporting, reply: Result<Datum, Failure>)
    requires
        exporting.accounts.len() <= exporting.variants.len(),
        exporting.master_fingerprint is Some ==> exporting.accounts.len()
            < exporting.variants.len(),
    ensures
        reply matches Err(failure) ==> exporting.after(reply) == Err::<
            Progress<Exporting, Export>,
            Failure,
        >(failure),
        exporting.master_fingerprint is None ==> (client::fingerprint_of(reply) matches Err(cause)
            ==> exporting.after(reply) == Err::<Progress<Exporting, Export>, Failure>(cause)),
        exporting.master_fingerprint is Some ==> (export::account_of(
            exporting.network,
            exporting.variants[exporting.accounts.len() as int],
            exporting.account_index,
            reply,
        ) matches Err(cause) ==> exporting.after(reply) == Err::<
            Progress<Exporting, Export>,
            Failure,
        >(cause)),
        exporting.master_fingerprint is None && client::fingerprint_of(reply) is Ok
            && exporting.accounts.len() < exporting.variants.len() ==> (export::account_call(
            exporting.network,
            exporting.variants[exporting.accounts.len() as int],
            exporting.account_index,
        ) matches Err(cause) ==> exporting.after(reply) == Err::<
            Progress<Exporting, Export>,
            Failure,
        >(cause)),
        exporting.after(reply) matches Ok(Progress::Exchange { call, next }) ==> {
            &&& next.network == exporting.network
            &&& next.account_index == exporting.account_index
            &&& next.variants == exporting.variants
            &&& next.accounts.len() < next.variants.len()
            &&& export::account_call(
                next.network,
                next.variants[next.accounts.len() as int],
                next.account_index,
            ) == Ok::<Call, Failure>(call)
            &&& exporting.master_fingerprint is None ==> next.accounts == exporting.accounts
            &&& exporting.master_fingerprint is Some ==> {
                &&& next.master_fingerprint == exporting.master_fingerprint
                &&& next.accounts.drop_last() == exporting.accounts
                &&& next.accounts.len() == exporting.accounts.len() + 1
                &&& reply == Ok::<Datum, Failure>(Datum::Text(next.accounts.last().xpub))
            }
        },
        exporting.after(reply) matches Ok(Progress::Done { result }) ==> {
            &&& result.account_index == exporting.account_index
            &&& result.accounts.len() == exporting.variants.len()
            &&& exporting.master_fingerprint matches Some(fingerprint) ==> {
                &&& result.master_fingerprint == fingerprint
                &&& result.accounts.drop_last() == exporting.accounts
                &&& reply == Ok::<Datum, Failure>(Datum::Text(result.accounts.last().xpub))
            }
        },
        exporting.master_fingerprint is None ==> (reply matches Ok(Datum::Text(xpub)) ==> (
        keys::extended_key(xpub) matches Ok(key) ==> {
            &&& exporting.after(reply) matches Ok(Progress::Exchange { next, .. })
                ==> next.master_fingerprint matches Some(t) && t.len() == 8
                && numerals::numeral_value(t, 16) == key.parent_fingerprint
            &&& exporting.after(reply) matches Ok(Progress::Done { result })
                ==> numerals::numeral_value(result.master_fingerprint, 16)
                == key.parent_fingerprint && result.master_fingerprint.len() == 8
        })),
{
    if exporting.master_fingerprint is None {
        if let Ok(Datum::Text(xpub)) = reply {
            if let Ok(key) = keys::extended_key(xpub) {
                sessions::fingerprint_is_the_parent_of_the_reply(xpub, key);
            }
        }
    } else if let Ok(account) = export::account_of(
        exporting.network,
        exporting.variants[exporting.accounts.len() as int],
        exporting.account_index,
        reply,
    ) {
        assert(exporting.accounts.push(account).drop_last() =~= exporting.accounts);
    }
}

/// Fetching a key asks for the key at `m/0'` and then for the key at the
/// caller's path, and returns the second with the caller's path and the parent
/// fingerprint of the first.
pub proof fn a_key_is_fetched(
    unlocked: Option<JadeNetwork>,
    network: JadeNetwork,
    path: Seq<char>,
    steps: Seq<u32>,
    child: Seq<char>,
    child_key: Key,
    xpub: Seq<char>,
    key: Key,
)
    requires
        sessions::takes(unlocked, network),
        path::derivation_path(text::trimmed(path)) == Ok::<Seq<u32>, Seq<char>>(steps),
        steps.len() > 0,
        keys::extended_key(child) == Ok::<Key, Seq<char>>(child_key),
        keys::extended_key(xpub) == Ok::<Key, Seq<char>>(key),
        key.depth as int == steps.len(),
    ensures
        ({
            &&& xpub::fetch_begun(unlocked, network, path) matches Ok(
                Progress::Exchange { call: Call::GetXpub { network: n1, path: p1 }, next },
            )
            &&& values::names_network(n1, network)
            &&& p1 == seq![0x8000_0000u32]
            &&& next.after(Ok(Datum::Text(child))) matches Ok(
                Progress::Exchange { call: Call::GetXpub { network: n2, path: p2 }, next: last },
            )
            &&& values::names_network(n2, network)
            &&& p2 == steps
            &&& last.after(Ok(Datum::Text(xpub))) matches Ok(Progress::Done { result })
            &&& result.xpub == xpub
            &&& result.derivation_path == path
            &&& result.master_fingerprint.len() == 8
            &&& numerals::numeral_value(result.master_fingerprint, 16)
                == child_key.parent_fingerprint
        }),
{
    sessions::fingerprint_is_the_parent_of_the_reply(child, child_key);
}

/// A key that cannot be had is not returned: other networks, failed replies,
/// unusable paths and keys at another depth end the fetch with their error.
pub proof fn a_fetch_fails(
    unlocked: Option<JadeNetwork>,
    network: JadeNetwork,
    path: Seq<char>,
    fetch: Fetch,
    failure: Failure,
    xpub: Seq<char>,
    datum: Datum,
)
    ensures
        !sessions::takes(unlocked, network) ==> {
            let refused = xpub::fetch_begun(unlocked, network, path);
            refused is Err && refused->Err_0 == client::network_checked(unlocked, network)->Err_0
        },
        fetch.after(Err(failure)) == Err::<Progress<Fetch, XpubResponse>, Failure>(failure),
        fetch matches Fetch::AwaitingKey { derivation_path, .. } ==> {
            fetch.after(Ok(Datum::Text(xpub))) is Ok <==> {
                &&& keys::extended_key(xpub) matches Ok(key)
                &&& path::derivation_path(text::trimmed(derivation_path)) matches Ok(steps)
                &&& key.depth as int == steps.len()
            }
        },
        fetch matches Fetch::AwaitingKey { derivation_path, .. } ==> (keys::xpub_verified(
            xpub,
            derivation_path,
        ) matches Err(cause) ==> fetch.after(Ok(Datum::Text(xpub))) == Err::<
            Progress<Fetch, XpubResponse>,
            Failure,
        >(cause)),
        fetch is AwaitingFingerprint ==> (client::fingerprint_of(Ok(Datum::Text(xpub))) matches Err(
            cause,
        ) ==> fetch.after(Ok(Datum::Text(xpub))) == Err::<Progress<Fetch, XpubResponse>, Failure>(
            cause,
        )),
        fetch matches Fetch::AwaitingFingerprint { derivation_path, .. } ==> (keys::extended_key(
            xpub,
        ) is Ok ==> (path::derivation_path(text::trimmed(derivation_path)) matches Err(m)
            ==> fetch.after(Ok(Datum::Text(xpub))) == Err::<Progress<Fetch, XpubResponse>, Failure>(
            Failure::Path(m),
        ))),
        !(datum is Text) ==> fetch.after(Ok(datum)) == Err::<
            Progress<Fetch, XpubResponse>,
            Failure,
        >(Failure::Protocol("expected a text result"@)),
{
}

/// An address is displayed if and only if the device takes the network, its
/// firmware can display the address type, and the path leads below an account
/// of that type or of none; the request carries the caller's network, type and
/// path.
pub proof fn an_address_is_displayed(
    session: Session,
    network: JadeNetwork,
    variant: JadeAddressVariant,
    path: Seq<char>,
)
    ensures
        address::display_call(session, network, variant, path) is Ok <==> {
            &&& sessions::takes(session.unlocked_network, network)
            &&& variant == JadeAddressVariant::Tr ==> types::at_least(
                session.version.version,
                "1.0.34"@,
            )
            &&& path::derivation_path(text::trimmed(path)) matches Ok(steps)
            &&& steps.len() > 0
            &&& steps[0] >= 0x8000_0000 ==> values::numbers_variant(
                steps[0] - 0x8000_0000,
                variant,
            )
        },
        address::display_call(session, network, variant, path) matches Ok(call) ==> {
            &&& call matches Call::GetReceiveAddress { network: n, variant: v, path: p }
            &&& values::names_network(n, network)
            &&& values::names_variant(v, variant)
            &&& path::derivation_path(text::trimmed(path)) == Ok::<Seq<u32>, Seq<char>>(p)
        },
{
}

/// A display is refused for the first thing that is wrong with it: the network,
/// the firmware, the purpose of the path, the path.
pub proof fn a_display_is_refused(
    session: Session,
    network: JadeNetwork,
    variant: JadeAddressVariant,
    path: Seq<char>,
    name: Seq<char>,
)
    requires
        values::names_variant(name, variant),
    ensures
        ({
            let refused = address::display_call(session, network, variant, path);
            let old_firmware = variant == JadeAddressVariant::Tr && !types::at_least(
                session.version.version,
                "1.0.34"@,
            );
            &&& !sessions::takes(session.unlocked_network, network) ==> refused is Err
                && refused->Err_0 == client::network_checked(
                session.unlocked_network,
                network,
            )->Err_0
            &&& sessions::takes(session.unlocked_network, network) && old_firmware ==> refused
                == Err::<Call, Failure>(
                Failure::Firmware { installed: session.version.version, required: "1.0.34"@ },
            )
            &&& sessions::takes(session.unlocked_network, network) && !old_firmware ==> {
                &&& path::derivation_path(text::trimmed(path)) matches Err(message) ==> refused
                    == Err::<Call, Failure>(Failure::Path(message))
                &&& path::derivation_path(text::trimmed(path)) matches Ok(steps) ==> {
                    &&& steps.len() == 0 ==> refused == Err::<Call, Failure>(
                        Failure::Path("the master key path is not accepted here"@),
                    )
                    &&& steps.len() > 0 && steps[0] >= 0x8000_0000 && !values::numbers_variant(
                        steps[0] - 0x8000_0000,
                        variant,
                    ) ==> refused == Err::<Call, Failure>(
                        Failure::Path(
                            "path purpose "@ + text::decimal((steps[0] - 0x8000_0000) as nat)
                                + " does not match the "@ + name + " variant"@,
                        ),
                    )
                }
            }
        }),
{
}

/// A displayed address is accepted if and only if the reply is a text that is
/// the expected address, character for character; another address is reported
/// with both.
pub proof fn a_displayed_address_is_the_expected_one(
    expected: Seq<char>,
    reply: Result<Datum, Failure>,
)
    ensures
        address::address_checked(expected, reply) is Ok <==> reply == Ok::<Datum, Failure>(
            Datum::Text(expected),
        ),
        reply matches Ok(Datum::Text(returned)) ==> (returned != expected
            ==> address::address_checked(expected, reply) == Err::<(), Failure>(
            Failure::Address { expected, returned },
        )),
        reply matches Err(failure) ==> address::address_checked(expected, reply) == Err::<
            (),
            Failure,
        >(failure),
        reply is Ok && !(reply->Ok_0 is Text) ==> address::address_checked(expected, reply)
            == Err::<(), Failure>(Failure::Protocol("expected a text result"@)),
{
}

/// Checks that are made of parts of a display request agree with it.
pub proof fn displays_are_checked_in_parts(
    version: Seq<char>,
    purpose: Option<u32>,
    variant: JadeAddressVariant,
)
    ensures
        address::firmware_checked(version, variant) is Ok <==> (variant == JadeAddressVariant::Tr
            ==> types::at_least(version, "1.0.34"@)),
        address::purpose_checked(purpose, variant) is Ok <==> (purpose matches Some(n)
            ==> values::numbers_variant(n as int, variant)),
        purpose matches Some(n) ==> (!values::numbers_variant(n as int, variant)
            ==> address::purpose_checked(purpose, variant) == Err::<(), Failure>(
            Failure::Path(
                "path purpose "@ + text::decimal(n as nat) + " does not match the "@
                    + variant.name() + " variant"@,
            ),
        )),
        address::firmware_checked(version, variant) is Err ==> address::firmware_checked(
            version,
            variant,
        )->Err_0 == (Failure::Firmware { installed: version, required: "1.0.34"@ }),
{
}

/// A message is signed with the key at the caller's path: that key is asked for,
/// then the signature at the same steps, and the signature is returned with the
/// address of that key on the caller's network and with the caller's path.
pub proof fn a_message_is_signed(
    unlocked: Option<JadeNetwork>,
    network: JadeNetwork,
    chain: Seq<char>,
    path: Seq<char>,
    steps: Seq<u32>,
    text_to_sign: Seq<char>,
    xpub: Seq<char>,
    key: Key,
    address: Seq<char>,
    signature: Seq<char>,
)
    requires
        sessions::takes(unlocked, network),
        values::names_chain(chain, network),
        path::derivation_path(text::trimmed(path)) == Ok::<Seq<u32>, Seq<char>>(steps),
        steps.len() > 0,
        keys::extended_key(xpub) == Ok::<Key, Seq<char>>(key),
        keys::p2wpkh(key.public_key, chain) == Some(address),
    ensures
        ({
            &&& message::signing_begun(unlocked, network, path, text_to_sign) matches Ok(
                Progress::Exchange { call: Call::GetXpub { network: name, path: p1 }, next },
            )
            &&& values::names_network(name, network)
            &&& p1 == steps
            &&& next.after(Ok(Datum::Text(xpub))) matches Ok(
                Progress::Exchange { call: Call::SignMessage { message: m, path: p2 }, next: last },
            )
            &&& m == text_to_sign
            &&& p2 == steps
            &&& last.after(Ok(Datum::Text(signature))) matches Ok(Progress::Done { result })
            &&& result.signature == signature
            &&& result.address == address
            &&& result.derivation_path == path
        }),
{
}

/// A message that cannot be signed is not: other networks, unusable paths,
/// failed replies and unreadable keys end the operation with their error.
pub proof fn a_signature_fails(
    unlocked: Option<JadeNetwork>,
    network: JadeNetwork,
    path: Seq<char>,
    text_to_sign: Seq<char>,
    signing: Signing,
    failure: Failure,
    datum: Datum,
)
    ensures
        message::signing_begun(unlocked, network, path, text_to_sign) is Ok <==> {
            &&& sessions::takes(unlocked, network)
            &&& path::derivation_path(text::trimmed(path)) matches Ok(steps)
            &&& steps.len() > 0
        },
        !sessions::takes(unlocked, network) ==> {
            let refused = message::signing_begun(unlocked, network, path, text_to_sign);
            refused is Err && refused->Err_0 == client::network_checked(unlocked, network)->Err_0
        },
        sessions::takes(unlocked, network) ==> (path::derivation_path(text::trimmed(path)) matches
            Err(m) ==> message::signing_begun(unlocked, network, path, text_to_sign) == Err::<
            Progress<Signing, SignedMessage>,
            Failure,
        >(Failure::Path(m))),
        signing.after(Err(failure)) == Err::<Progress<Signing, SignedMessage>, Failure>(failure),
        !(datum is Text) ==> signing.after(Ok(datum)) == Err::<
            Progress<Signing, SignedMessage>,
            Failure,
        >(Failure::Protocol("expected a text result"@)),
        signing is AwaitingKey ==> (datum matches Datum::Text(xpub) ==> (keys::extended_key(
            xpub,
        ) matches Err(m) ==> signing.after(Ok(datum)) == Err::<
            Progress<Signing, SignedMessage>,
            Failure,
        >(Failure::Protocol("device returned an unparsable xpub: "@ + m)))),
{
}

} // verus!
