//! Laws about what calls return that have to do with the device.

use vstd::prelude::*;

use crate::address::VerifyAddress;
use crate::client::{self, Connecting, Contributing, Jade, Step, Unlocking};
use crate::entropy;
use crate::error::{self, JadeError};
use crate::export::{AccountExport, Exporting};
use crate::keys::{self, Xpub};
use crate::laws::accounts;
use crate::laws::numerals;
use crate::laws::sessions;
use crate::laws::signatures;
use crate::laws::values;
use crate::message::{SignMessage, Signing};
use crate::path;
use crate::protocol::{Reply, Request, Value, VersionReply};
use crate::psbt::{self, Psbt, PsbtFields};
use crate::signing::{self, SignPsbt, SubmittedPsbt};
use crate::text;
use crate::types::{
    JadeAccountExport, JadeAddressVariant, JadeNetwork, JadePingStatus, JadeSignedMessage,
    JadeState, JadeVersionInfo, JadeXpubResponse,
};
use crate::xpub::{Fetch, GetXpub};

verus! {

/// A session is opened by the request for the version summary; then the host
/// contributes 32 bytes; then, if the device takes them, the session is open
/// with that summary and for no network.
pub proof fn sessions_are_opened(
    aborted: std::sync::Arc<std::sync::atomic::AtomicBool>,
    begun: (Request, Connecting),
    connecting: Connecting,
    version: VersionReply,
    asked: Result<(Request, Contributing), JadeError>,
    contributing: Contributing,
    reply: Reply,
    opened: Result<Jade, JadeError>,
)
    requires
        call_ensures(Jade::connect, (aborted,), begun),
        call_ensures(Connecting::on_version, (connecting, version), asked),
        call_ensures(Contributing::on_reply, (contributing, reply), opened),
    ensures
        begun.0 is GetVersionInfo,
        begun.1.flag() == aborted,
        !(version is Summary) ==> asked is Err,
        asked matches Ok((request, next)) ==> {
            &&& request matches Request::AddEntropy { entropy } && entropy@.len() == 32
            &&& version matches VersionReply::Summary(wire) && next.version() == wire@
            &&& next.flag() == connecting.flag()
        },
        opened is Ok <==> (reply matches Ok(Value::Bool(_))),
        opened matches Ok(jade) ==> {
            &&& jade@.version == contributing.version()
            &&& jade@.unlocked_network is None
            &&& jade.flag() == contributing.flag()
        },
{
}

/// Entropy is contributed as the operating system filled it, and only if it did.
pub proof fn entropy_is_contributed(
    filled: bool,
    bytes: &Vec<u8>,
    r: Result<Vec<u8>, JadeError>,
    connecting: Connecting,
    version: JadeVersionInfo,
    entropy: Result<Vec<u8>, JadeError>,
    asked: Result<(Request, Contributing), JadeError>,
)
    requires
        call_ensures(entropy::contribution, (filled, bytes), r),
        call_ensures(Connecting::contribute, (connecting, version, entropy), asked),
    ensures
        r is Ok <==> filled,
        r matches Ok(contributed) ==> contributed@ == bytes@,
        r is Err ==> r->Err_0 is IoError,
        asked is Ok <==> entropy is Ok,
        asked matches Ok((request, next)) ==> {
            &&& request matches Request::AddEntropy { entropy: sent } && sent@ == entropy->Ok_0@
            &&& next.version() == version@
        },
{
}

/// What is known of a session is what it holds: its version summary, its
/// network, and the flag that its handles share.
pub proof fn sessions_tell_what_they_hold(
    jade: &Jade,
    info: &JadeVersionInfo,
    network: Option<JadeNetwork>,
    handle: crate::transport::CancelHandle,
)
    requires
        call_ensures(Jade::version_info, (jade,), info),
        call_ensures(Jade::unlocked_network, (jade,), network),
        call_ensures(Jade::cancel_handle, (jade,), handle),
    ensures
        info.jade_version@ == jade@.version.version,
        info.jade_state == jade@.version.state,
        info.jade_networks@ == jade@.version.networks,
        info.jade_has_pin == jade@.version.has_pin,
        network == jade@.unlocked_network,
        handle.flag() == jade.flag(),
{
}

/// A device is unlocked unless it holds no wallet.
pub proof fn devices_with_a_wallet_are_unlocked(
    jade: &Jade,
    network: JadeNetwork,
    r: Result<Unlocking, JadeError>,
)
    requires
        call_ensures(Jade::unlock_with, (jade, network), r),
    ensures
        r is Ok <==> jade@.version.state != JadeState::Uninit,
        r matches Ok(unlocking) ==> unlocking.for_network() == network,
        r is Err ==> r->Err_0 is DeviceUninitialized,
{
}

/// A successful exchange with the pinserver, and nothing else, unlocks the
/// session for the network that was asked for; a successful logout, and nothing
/// else, locks it; both then ask for the version summary.
pub proof fn sessions_are_unlocked_and_locked()
    ensures
        forall|
            jade: &mut Jade,
            unlocking: Unlocking,
            exchange: Result<(), JadeError>,
            r: Result<Request, JadeError>,
        | #[trigger]
            call_ensures(Jade::on_unlocked, (jade, unlocking, exchange), r) ==> {
                &&& r is Ok <==> exchange is Ok
                &&& r is Ok ==> r->Ok_0 is GetVersionInfo
                &&& r is Err ==> r->Err_0@ == exchange->Err_0@
                &&& final(jade)@.version == jade@.version
                &&& final(jade).flag() == jade.flag()
                &&& exchange is Ok ==> final(jade)@.unlocked_network == Some(
                    unlocking.for_network(),
                )
                &&& exchange is Err ==> final(jade)@.unlocked_network == jade@.unlocked_network
            },
        forall|jade: &mut Jade, reply: Reply, r: Result<Request, JadeError>| #[trigger]
            call_ensures(Jade::on_logout, (jade, reply), r) ==> {
                &&& r is Ok <==> reply is Ok && reply->Ok_0 is Bool
                &&& r is Ok ==> r->Ok_0 is GetVersionInfo
                &&& reply is Err ==> r->Err_0@ == reply->Err_0@
                &&& final(jade)@.version == jade@.version
                &&& final(jade).flag() == jade.flag()
                &&& r is Ok ==> final(jade)@.unlocked_network is None
                &&& r is Err ==> final(jade)@.unlocked_network == jade@.unlocked_network
            },
{
}

/// Reading the version summary again replaces it if there is one and changes
/// nothing else; without one nothing changes.
pub proof fn summaries_are_read_again()
    ensures
        forall|jade: &mut Jade, reply: VersionReply| #[trigger]
            call_ensures(Jade::on_reread, (jade, reply), ()) ==> {
                &&& final(jade)@.unlocked_network == jade@.unlocked_network
                &&& final(jade).flag() == jade.flag()
                &&& reply matches VersionReply::Summary(wire) ==> final(jade)@.version == wire@
                &&& !(reply is Summary) ==> final(jade)@ == jade@
            },
        forall|
            jade: &mut Jade,
            reply: VersionReply,
            r: Result<&JadeVersionInfo, JadeError>,
        | #[trigger]
            call_ensures(Jade::refresh_version_info, (jade, reply), r) ==> {
                &&& r is Ok <==> reply is Summary
                &&& final(jade)@.unlocked_network == jade@.unlocked_network
                &&& final(jade).flag() == jade.flag()
                &&& reply matches VersionReply::Summary(wire) ==> final(jade)@.version == wire@
                    && r->Ok_0@ == wire@
                &&& !(reply is Summary) ==> final(jade)@ == jade@
                &&& reply matches VersionReply::Failed(cause) ==> r->Err_0@ == cause@
            },
{
}

/// Pings, logouts and the version summary are asked for as such, and a ping
/// reports the status that the device numbered.
pub proof fn plain_requests_are_made(
    jade: &Jade,
    ping: Request,
    logout: Request,
    version: Request,
    reply: Reply,
    status: Result<JadePingStatus, JadeError>,
)
    requires
        call_ensures(Jade::ping, (jade,), ping),
        call_ensures(Jade::logout, (jade,), logout),
        call_ensures(Jade::request_version_info, (jade,), version),
        call_ensures(Jade::on_ping, (jade, reply), status),
    ensures
        ping is Ping,
        logout is Logout,
        version is GetVersionInfo,
        status is Ok <==> (reply matches Ok(Value::Integer(n)) && 0 <= n
            <= 0xffff_ffff_ffff_ffff),
        reply matches Ok(Value::Integer(n)) ==> {
            &&& n == 0 ==> status == Ok::<JadePingStatus, JadeError>(JadePingStatus::Idle)
            &&& n == 1 ==> status == Ok::<JadePingStatus, JadeError>(JadePingStatus::Busy)
            &&& n == 2 ==> status == Ok::<JadePingStatus, JadeError>(JadePingStatus::AwaitingUser)
            &&& 2 < n <= 0xffff_ffff_ffff_ffff ==> status == Ok::<JadePingStatus, JadeError>(
                JadePingStatus::Unknown,
            )
        },
{
}

/// A request has five minutes where it waits on the user, and one where it does
/// not.
pub proof fn requests_have_a_deadline(request: &Request, secs: u64)
    requires
        call_ensures(Request::timeout_secs, (request,), secs),
    ensures
        request is GetReceiveAddress || request is SignMessage || request is SignPsbt ==> secs
            == 300,
        !(request is GetReceiveAddress || request is SignMessage || request is SignPsbt) ==> secs
            == 60,
{
}

/// A network is checked by whether the device takes it.
pub proof fn networks_are_checked(jade: &Jade, network: JadeNetwork, r: Result<(), JadeError>)
    requires
        call_ensures(Jade::check_network, (jade, network), r),
    ensures
        r is Ok <==> sessions::takes(jade@.unlocked_network, network),
        r is Err ==> r->Err_0 is NetworkMismatch && r->Err_0@ == client::network_checked(
            jade@.unlocked_network,
            network,
        )->Err_0,
{
}

/// The master fingerprint is asked for at `m/0'`, and read from the key in the
/// reply as its parent fingerprint, all 32 bits of it, in eight digits.
pub proof fn fingerprints_are_read(
    jade: &Jade,
    network: JadeNetwork,
    asked: Result<Request, JadeError>,
    reply: Reply,
    number: Result<u32, JadeError>,
    digits: Result<String, JadeError>,
)
    requires
        call_ensures(Jade::master_fingerprint, (jade, network), asked),
        call_ensures(client::read_fingerprint, (reply,), number),
        call_ensures(client::read_fingerprint_text, (reply,), digits),
    ensures
        asked is Ok <==> sessions::takes(jade@.unlocked_network, network),
        asked matches Ok(request) ==> request matches Request::GetXpub { network: name, path }
            && values::names_network(name@, network) && path@ == seq![0x8000_0000u32],
        number is Ok <==> (reply matches Ok(Value::Text(xpub)) && keys::extended_key(xpub@) is Ok),
        digits is Ok <==> number is Ok,
        reply matches Ok(Value::Text(xpub)) ==> (keys::extended_key(xpub@) matches Ok(key) ==> {
            &&& number == Ok::<u32, JadeError>(key.parent_fingerprint)
            &&& digits->Ok_0@.len() == 8
            &&& numerals::numeral_value(digits->Ok_0@, 16) == key.parent_fingerprint
        }),
{
    if let Ok(Value::Text(xpub)) = reply {
        if let Ok(key) = keys::extended_key(xpub@) {
            sessions::fingerprint_is_the_parent_of_the_reply(xpub@, key);
        }
    }
}

/// A request for a key carries the caller's network and path.
pub proof fn keys_are_asked_for(
    network: JadeNetwork,
    path: &str,
    allow_master: bool,
    steps: Seq<u32>,
    r: Result<Request, JadeError>,
)
    requires
        call_ensures(client::xpub_request, (network, path, allow_master), r),
        path::derivation_path(text::trimmed(path@)) == Ok::<Seq<u32>, Seq<char>>(steps)
            || text::trimmed(path@) == path::path_text(steps),
        steps.len() > 0 || allow_master,
    ensures
        r matches Ok(Request::GetXpub { network: name, path: sent }) && values::names_network(
            name@,
            network,
        ) && sent@ == steps,
{
}

/// Steps are carried as a path is read or written, and its purpose is the number
/// of its first step, if that is hardened.
pub proof fn paths_are_read(
    path: &str,
    allow_master: bool,
    steps: Seq<u32>,
    sent: Result<Vec<u32>, JadeError>,
    purpose: Option<u32>,
)
    requires
        call_ensures(path::to_wire, (path, allow_master), sent),
        call_ensures(path::purpose, (path,), purpose),
        path::derivation_path(text::trimmed(path@)) == Ok::<Seq<u32>, Seq<char>>(steps)
            || text::trimmed(path@) == path::path_text(steps),
    ensures
        sent is Ok <==> steps.len() > 0 || allow_master,
        sent matches Ok(path) ==> path@ == steps,
        sent is Err ==> sent->Err_0 is InvalidPath,
        purpose is Some <==> steps.len() > 0 && steps[0] >= 0x8000_0000,
        purpose matches Some(n) ==> steps[0] == 0x8000_0000 + n,
{
}

/// A key is confirmed if and only if it lies as deep as its path leads, and is
/// read with nothing changed; its address is that of its public key on the
/// network's chain.
pub proof fn keys_are_confirmed(
    xpub: &str,
    path: &str,
    network: JadeNetwork,
    chain: Seq<char>,
    verified: Result<(), JadeError>,
    read: Result<Xpub, JadeError>,
    address: Result<String, JadeError>,
)
    requires
        call_ensures(keys::verify_xpub, (xpub, path), verified),
        call_ensures(keys::read_key, (xpub,), read),
        call_ensures(keys::segwit_address, (xpub, network), address),
        values::names_chain(chain, network),
    ensures
        verified is Ok <==> {
            &&& keys::extended_key(xpub@) matches Ok(key)
            &&& path::derivation_path(text::trimmed(path@)) matches Ok(steps)
            &&& key.depth as int == steps.len()
        },
        read is Ok <==> keys::extended_key(xpub@) is Ok,
        read matches Ok(key) ==> keys::extended_key(xpub@) matches Ok(parsed) && key.depth
            == parsed.depth && key.parent_fingerprint == parsed.parent_fingerprint
            && key.public_key@ == parsed.public_key,
        address is Ok <==> keys::extended_key(xpub@) is Ok,
        address matches Ok(shown) ==> keys::p2wpkh(
            keys::extended_key(xpub@)->Ok_0.public_key,
            chain,
        ) is Some ==> keys::p2wpkh(keys::extended_key(xpub@)->Ok_0.public_key, chain) == Some(
            shown@,
        ),
{
}

/// Fetching a key begins with the request for the master fingerprint on the
/// caller's network, and goes on as the replies have it.
pub proof fn fetches_go_on(
    jade: &Jade,
    network: JadeNetwork,
    path: &str,
    begun: Result<Step<GetXpub, JadeXpubResponse>, JadeError>,
    fetch: GetXpub,
    reply: Reply,
    gone: Result<Step<GetXpub, JadeXpubResponse>, JadeError>,
)
    requires
        call_ensures(Jade::get_xpub, (jade, network, path), begun),
        call_ensures(GetXpub::on_reply, (fetch, reply), gone),
    ensures
        begun is Ok <==> sessions::takes(jade@.unlocked_network, network),
        begun is Ok ==> {
            &&& begun->Ok_0 is Exchange
            &&& begun->Ok_0->Exchange_request matches Request::GetXpub { network: name, path: sent }
                && values::names_network(name@, network) && sent@ == seq![0x8000_0000u32]
            &&& begun->Ok_0->Exchange_next@ == (Fetch::AwaitingFingerprint {
                network,
                derivation_path: path@,
            })
        },
        reply matches Err(cause) ==> gone is Err && gone->Err_0@ == cause@,
        fetch matches GetXpub::AwaitingKey { derivation_path, master_fingerprint } ==> {
            &&& gone is Ok ==> gone->Ok_0 is Done
            &&& gone matches Ok(Step::Done { result }) ==> {
                &&& reply matches Ok(Value::Text(xpub)) && result.xpub@ == xpub@
                &&& result.derivation_path@ == derivation_path@
                &&& result.master_fingerprint@ == master_fingerprint@
                &&& keys::extended_key(result.xpub@) matches Ok(key)
                &&& path::derivation_path(text::trimmed(derivation_path@)) matches Ok(steps)
                &&& key.depth as int == steps.len()
            }
        },
        fetch matches GetXpub::AwaitingFingerprint { network: n, derivation_path } ==> {
            &&& gone is Ok ==> gone->Ok_0 is Exchange
            &&& gone matches Ok(Step::Exchange { request, next }) ==> {
                &&& request matches Request::GetXpub { network: name, path: sent }
                &&& values::names_network(name@, n)
                &&& path::derivation_path(text::trimmed(derivation_path@)) == Ok::<
                    Seq<u32>,
                    Seq<char>,
                >(sent@)
                &&& next@ matches Fetch::AwaitingKey { derivation_path: d, master_fingerprint: f }
                &&& d == derivation_path@
                &&& f.len() == 8
                &&& reply matches Ok(Value::Text(child))
                &&& keys::extended_key(child@) matches Ok(key)
                &&& numerals::numeral_value(f, 16) == key.parent_fingerprint
            }
        },
{
    if let Ok(Value::Text(child)) = reply {
        if let Ok(key) = keys::extended_key(child@) {
            sessions::fingerprint_is_the_parent_of_the_reply(child@, key);
        }
    }
}

/// A message is signed with the caller's key: the key at the caller's path is
/// asked for, then the signature of the caller's message at the same steps, and
/// the signature is returned with the address of that key and the caller's path.
pub proof fn signatures_go_on(
    jade: &Jade,
    network: JadeNetwork,
    path: &str,
    message: &str,
    begun: Result<Step<SignMessage, JadeSignedMessage>, JadeError>,
    signing: SignMessage,
    reply: Reply,
    gone: Result<Step<SignMessage, JadeSignedMessage>, JadeError>,
)
    requires
        call_ensures(Jade::sign_message, (jade, network, path, message), begun),
        call_ensures(SignMessage::on_reply, (signing, reply), gone),
    ensures
        begun is Ok <==> {
            &&& sessions::takes(jade@.unlocked_network, network)
            &&& path::derivation_path(text::trimmed(path@)) matches Ok(steps)
            &&& steps.len() > 0
        },
        begun is Ok ==> {
            let steps = path::derivation_path(text::trimmed(path@))->Ok_0;
            &&& begun->Ok_0 is Exchange
            &&& begun->Ok_0->Exchange_request matches Request::GetXpub { network: name, path: sent }
                && values::names_network(name@, network) && sent@ == steps
            &&& begun->Ok_0->Exchange_next@ == (Signing::AwaitingKey {
                network,
                derivation_path: path@,
                path: steps,
                message: message@,
            })
        },
        reply matches Err(cause) ==> gone is Err && gone->Err_0@ == cause@,
        signing matches SignMessage::AwaitingKey { network: n, derivation_path, path: p, message: m }
            ==> {
            &&& gone is Ok <==> (reply matches Ok(Value::Text(xpub)) && keys::extended_key(
                xpub@,
            ) is Ok)
            &&& gone is Ok ==> {
                &&& gone->Ok_0 is Exchange
                &&& gone->Ok_0->Exchange_request matches Request::SignMessage {
                    message: sent,
                    path: at,
                } && sent@ == m@ && at@ == p@
                &&& gone->Ok_0->Exchange_next@ matches Signing::AwaitingSignature {
                    address,
                    derivation_path: d,
                } && d == derivation_path@ && address == keys::p2wpkh(
                    keys::extended_key(reply->Ok_0->Text_0@)->Ok_0.public_key,
                    n.chain(),
                )->0
            }
        },
        signing matches SignMessage::AwaitingSignature { address, derivation_path } ==> {
            &&& gone is Ok <==> (reply is Ok && reply->Ok_0 is Text)
            &&& gone is Ok ==> {
                &&& gone->Ok_0 is Done
                &&& gone->Ok_0->result.signature@ == reply->Ok_0->Text_0@
                &&& gone->Ok_0->result.address@ == address@
                &&& gone->Ok_0->result.derivation_path@ == derivation_path@
            }
        },
{
}

/// An address is displayed at the caller's path, for the caller's network and
/// address type, and accepted if and only if the device shows that address,
/// character for character.
pub proof fn addresses_are_compared(
    jade: &Jade,
    network: JadeNetwork,
    variant: JadeAddressVariant,
    path: &str,
    expected: &str,
    begun: Result<(Request, VerifyAddress), JadeError>,
    shown: VerifyAddress,
    reply: Reply,
    compared: Result<(), JadeError>,
)
    requires
        call_ensures(Jade::verify_address, (jade, network, variant, path, expected), begun),
        call_ensures(VerifyAddress::on_reply, (shown, reply), compared),
    ensures
        begun is Ok <==> {
            &&& sessions::takes(jade@.unlocked_network, network)
            &&& variant == JadeAddressVariant::Tr ==> crate::types::at_least(
                jade@.version.version,
                "1.0.34"@,
            )
            &&& path::derivation_path(text::trimmed(path@)) matches Ok(steps)
            &&& steps.len() > 0
            &&& steps[0] >= 0x8000_0000 ==> values::numbers_variant(
                steps[0] - 0x8000_0000,
                variant,
            )
        },
        begun matches Ok((request, next)) ==> {
            &&& next.expected() == expected@
            &&& request matches Request::GetReceiveAddress {
                network: name,
                variant: kind,
                path: sent,
            }
            &&& values::names_network(name@, network)
            &&& values::names_variant(kind@, variant)
            &&& path::derivation_path(text::trimmed(path@)) == Ok::<Seq<u32>, Seq<char>>(sent@)
        },
        compared is Ok <==> (reply matches Ok(Value::Text(returned)) && returned@
            == shown.expected()),
        reply matches Ok(Value::Text(returned)) ==> (returned@ != shown.expected() ==> {
            &&& compared->Err_0 is AddressMismatch
            &&& compared->Err_0->expected@ == shown.expected()
            &&& compared->Err_0->returned@ == returned@
        }),
        reply matches Err(cause) ==> compared->Err_0@ == cause@,
{
    accounts::an_address_is_displayed(jade@, network, variant, path@);
}

/// An export begins with the request for the master fingerprint on the caller's
/// network, for the caller's account and variants, and goes on as the replies
/// have it.
pub proof fn exports_are_run(
    jade: &Jade,
    network: JadeNetwork,
    account_index: u32,
    variants: &[JadeAddressVariant],
    begun: Result<Step<AccountExport, JadeAccountExport>, JadeError>,
    exporting: AccountExport,
    reply: Reply,
    gone: Result<Step<AccountExport, JadeAccountExport>, JadeError>,
)
    requires
        call_ensures(Jade::account_export, (jade, network, account_index, variants), begun),
        call_ensures(AccountExport::on_reply, (exporting, reply), gone),
    ensures
        begun is Ok <==> sessions::takes(jade@.unlocked_network, network),
        begun is Ok ==> {
            &&& begun->Ok_0 is Exchange
            &&& begun->Ok_0->Exchange_request matches Request::GetXpub { network: name, path: sent }
                && values::names_network(name@, network) && sent@ == seq![0x8000_0000u32]
            &&& begun->Ok_0->Exchange_next@ == (Exporting {
                network,
                account_index,
                variants: variants@,
                master_fingerprint: None,
                accounts: Seq::empty(),
            })
        },
        error::outcome(gone) == exporting@.after(error::outcome(reply)),
        reply matches Err(cause) ==> gone is Err && gone->Err_0@ == cause@,
        gone matches Ok(Step::Done { result }) ==> {
            &&& result.accounts@.len() == exporting@.variants.len()
            &&& result.account_index == exporting@.account_index
            &&& forall|i: int|
                0 <= i < result.accounts@.len() ==> (#[trigger] result.accounts@[i]).variant
                    == exporting@.variants[i] && result.accounts@[i].derivation_path@
                    == crate::export::account_path(
                    exporting@.network,
                    exporting@.variants[i],
                    exporting@.account_index,
                )
        },
{
    if let Ok(Step::Done { result }) = gone {
        assert forall|i: int| 0 <= i < result.accounts@.len() implies (
        #[trigger] result.accounts@[i]).variant == exporting@.variants[i]
            && result.accounts@[i].derivation_path@ == crate::export::account_path(
            exporting@.network,
            exporting@.variants[i],
            exporting@.account_index,
        ) by {
            assert(result@.accounts[i] == result.accounts@[i]@);
        }
    }
}

/// A PSBT is checked before it is sent: by its flags, by its origins and by its
/// size.
pub proof fn psbts_are_checked(
    fields: &PsbtFields,
    device: u32,
    size: usize,
    flags: Result<(), JadeError>,
    origins: Result<(), JadeError>,
    fits: Result<(), JadeError>,
)
    requires
        call_ensures(psbt::check_sighashes, (fields,), flags),
        call_ensures(psbt::check_origins, (fields, device), origins),
        call_ensures(signing::check_size, (size,), fits),
    ensures
        flags is Ok <==> forall|i: int|
            0 <= i < fields.inputs@.len() ==> ((#[trigger] fields.inputs@[i]).sighash_type is None
                || fields.inputs@[i].sighash_type == Some(0u32) || fields.inputs@[i].sighash_type
                == Some(1u32)),
        flags is Err ==> flags->Err_0 is InvalidPsbt,
        error::outcome(flags) == psbt::sighashes_checked(fields@.inputs),
        error::outcome(origins) == psbt::origins_checked(fields@.inputs, device),
        origins is Ok <==> exists|i: int, k: int|
            0 <= i < fields.inputs@.len() && 0 <= k < fields.inputs@[i].origins@.len()
                && #[trigger] fields.inputs@[i].origins@[k] == device,
        origins is Err ==> origins->Err_0 is FingerprintMismatch,
        fits is Ok <==> size <= 16384,
        size > 16384 ==> fits == Err::<(), JadeError>(
            JadeError::PsbtTooLarge { size: size as u64, max: 16384 },
        ),
{
    let inputs = fields@.inputs;
    signatures::only_two_sighash_flags_pass(inputs, 0);
    signatures::any_origin_of_the_device_passes(inputs, device);
    assert forall|i: int| 0 <= i < inputs.len() implies #[trigger] inputs[i]
        == fields.inputs@[i]@ by {}
    if flags is Ok {
        assert forall|i: int| 0 <= i < fields.inputs@.len() implies ((
        #[trigger] fields.inputs@[i]).sighash_type is None || fields.inputs@[i].sighash_type
            == Some(0u32) || fields.inputs@[i].sighash_type == Some(1u32)) by {
            assert(inputs[i].sighash_type == fields.inputs@[i].sighash_type);
        }
    }
    if origins is Ok {
        let (i, k) = choose|i: int, k: int|
            0 <= i < inputs.len() && 0 <= k < inputs[i].origins.len()
                && #[trigger] inputs[i].origins[k] == device;
        assert(fields.inputs@[i].origins@[k] == device);
    }
    if exists|i: int, k: int|
        0 <= i < fields.inputs@.len() && 0 <= k < fields.inputs@[i].origins@.len()
            && #[trigger] fields.inputs@[i].origins@[k] == device {
        let (i, k) = choose|i: int, k: int|
            0 <= i < fields.inputs@.len() && 0 <= k < fields.inputs@[i].origins@.len()
                && #[trigger] fields.inputs@[i].origins@[k] == device;
        assert(inputs[i].origins[k] == device);
    }
}

/// What came back is accepted if and only if it is about the transaction that
/// was sent and some input has a signature more than before, of whatever kind.
pub proof fn signed_psbts_are_verified(
    sent: &PsbtFields,
    signed: &PsbtFields,
    r: Result<(), JadeError>,
)
    requires
        call_ensures(psbt::verify_signed_psbt, (sent, signed), r),
    ensures
        r is Ok <==> signatures::same_transaction(sent@, signed@) && exists|i: int|
            0 <= i < sent.inputs@.len() && ({
                let (was, now) = (#[trigger] sent.inputs@[i], signed.inputs@[i]);
                ||| now.partial_sigs > was.partial_sigs
                ||| now.tap_script_sigs > was.tap_script_sigs
                ||| now.final_script_witness && !was.final_script_witness
                ||| now.final_script_sig && !was.final_script_sig
                ||| now.tap_key_sig && !was.tap_key_sig
            }),
        r is Err ==> r->Err_0 is InvalidPsbt || r->Err_0 is NothingSigned,
        error::outcome(r) == psbt::signed_verified(sent@, signed@),
        signatures::same_transaction(sent@, signed@) && r is Err ==> r->Err_0 is NothingSigned,
{
    psbt::accepted_signature(sent@, signed@);
    signatures::another_transaction_is_refused(sent@, signed@);
    signatures::no_new_signature_is_nothing_signed(sent@, signed@);
    let (a, b) = (sent@.inputs, signed@.inputs);
    if a.len() == b.len() {
        signatures::altered_is_about_the_psbt(a, b);
        assert forall|i: int| 0 <= i < a.len() implies #[trigger] a[i] == sent.inputs@[i]@ && b[i]
            == signed.inputs@[i]@ by {}
        if exists|i: int| 0 <= i < a.len() && psbt::gained(#[trigger] a[i], b[i]) {
            let i = choose|i: int| 0 <= i < a.len() && psbt::gained(#[trigger] a[i], b[i]);
            assert(sent.inputs@[i]@ == a[i]);
        }
        if exists|i: int|
            0 <= i < sent.inputs@.len() && ({
                let (was, now) = (#[trigger] sent.inputs@[i], signed.inputs@[i]);
                ||| now.partial_sigs > was.partial_sigs
                ||| now.tap_script_sigs > was.tap_script_sigs
                ||| now.final_script_witness && !was.final_script_witness
                ||| now.final_script_sig && !was.final_script_sig
                ||| now.tap_key_sig && !was.tap_key_sig
            }) {
            let i = choose|i: int|
                0 <= i < sent.inputs@.len() && ({
                    let (was, now) = (#[trigger] sent.inputs@[i], signed.inputs@[i]);
                    ||| now.partial_sigs > was.partial_sigs
                    ||| now.tap_script_sigs > was.tap_script_sigs
                    ||| now.final_script_witness && !was.final_script_witness
                    ||| now.final_script_sig && !was.final_script_sig
                    ||| now.tap_key_sig && !was.tap_key_sig
                });
            assert(a[i] == sent.inputs@[i]@);
            assert(psbt::gained(a[i], b[i]));
        }
    }
}

/// A PSBT is read from its bytes as the parser reads it, and keeps them.
pub proof fn psbts_are_read(
    bytes: Vec<u8>,
    r: Result<Psbt, String>,
    slice: &[u8],
    fields: Result<PsbtFields, String>,
)
    requires
        call_ensures(Psbt::deserialize, (bytes,), r),
        call_ensures(PsbtFields::read, (slice,), fields),
    ensures
        r is Ok <==> psbt::psbt_content(bytes@) is Ok,
        r matches Ok(psbt) ==> psbt.bytes() == bytes@ && psbt::psbt_content(bytes@)->Ok_0 == psbt@,
        r matches Err(message) ==> psbt::psbt_content(bytes@)->Err_0 == message@,
        fields is Ok <==> psbt::psbt_content(slice@) is Ok,
        fields matches Ok(content) ==> psbt::psbt_content(slice@)->Ok_0 == content@,
{
}

/// Signing first asks for the key at `m/0'`, if the PSBT may be submitted at
/// all; it then submits the very bytes of the PSBT to the caller's network, if
/// the PSBT is the device's; and it returns the very bytes that came back, if
/// they hold the same transaction with a new signature.
pub proof fn psbts_are_signed(
    jade: &Jade,
    network: JadeNetwork,
    psbt: Psbt,
    begun: Result<(Request, SignPsbt), JadeError>,
    asked: SignPsbt,
    reply: Reply,
    submitted: Result<(Request, SubmittedPsbt), JadeError>,
    waiting: SubmittedPsbt,
    came: Result<Vec<u8>, JadeError>,
    returned: Result<Psbt, JadeError>,
)
    requires
        call_ensures(Jade::sign_psbt, (jade, network, psbt), begun),
        call_ensures(SignPsbt::on_fingerprint, (asked, reply), submitted),
        call_ensures(SubmittedPsbt::on_signed, (waiting, came), returned),
    ensures
        begun is Ok <==> {
            &&& sessions::takes(jade@.unlocked_network, network)
            &&& psbt.bytes().len() <= 16384
            &&& forall|i: int|
                0 <= i < psbt@.inputs.len() ==> ((#[trigger] psbt@.inputs[i]).sighash_type is None
                    || psbt@.inputs[i].sighash_type == Some(0u32) || psbt@.inputs[i].sighash_type
                    == Some(1u32))
        },
        begun matches Ok((request, next)) ==> {
            &&& request matches Request::GetXpub { network: name, path }
            &&& values::names_network(name@, network)
            &&& path@ == seq![0x8000_0000u32]
            &&& next.network() == network
            &&& next.content() == psbt@
            &&& next.bytes() == psbt.bytes()
        },
        reply matches Ok(Value::Text(xpub)) ==> (keys::extended_key(xpub@) matches Ok(key) ==> (
        submitted is Ok <==> exists|i: int, k: int|
            0 <= i < asked.content().inputs.len() && 0 <= k < asked.content().inputs[i].origins.len()
                && #[trigger] asked.content().inputs[i].origins[k] == key.parent_fingerprint)),
        !(reply matches Ok(Value::Text(xpub)) && keys::extended_key(xpub@) is Ok)
            ==> submitted is Ok,
        submitted matches Ok((request, next)) ==> {
            &&& request matches Request::SignPsbt { network: name, psbt: sent }
            &&& values::names_network(name@, asked.network())
            &&& sent@ == asked.bytes()
            &&& next.content() == asked.content()
            &&& psbt::psbt_content(sent@) matches Ok(content) && content == asked.content()
        },
        submitted is Err ==> submitted->Err_0 is FingerprintMismatch,
        returned matches Ok(signed) ==> {
            &&& came matches Ok(bytes) && signed.bytes() == bytes@
            &&& psbt::psbt_content(signed.bytes()) matches Ok(content) && content == signed@
            &&& signatures::same_transaction(waiting.content(), signed@)
            &&& exists|i: int|
                0 <= i < signed@.inputs.len() && ({
                    let (was, now) = (waiting.content().inputs[i], #[trigger] signed@.inputs[i]);
                    ||| now.partial_sigs > was.partial_sigs
                    ||| now.tap_script_sigs > was.tap_script_sigs
                    ||| now.final_script_witness && !was.final_script_witness
                    ||| now.final_script_sig && !was.final_script_sig
                    ||| now.tap_key_sig && !was.tap_key_sig
                })
        },
        came matches Err(cause) ==> returned is Err && returned->Err_0@ == cause@,
{
    signatures::submissions_are_checked(
        jade@.unlocked_network,
        network,
        psbt.bytes().len(),
        psbt@,
    );
    signatures::owners_are_checked(asked.content(), error::outcome(reply));
    if let Ok(signed) = returned {
        psbt::accepted_signature(waiting.content(), signed@);
        let i = choose|i: int|
            0 <= i < waiting.content().inputs.len() && psbt::gained(
                #[trigger] waiting.content().inputs[i],
                signed@.inputs[i],
            );
        assert(0 <= i < signed@.inputs.len());
    }
}

} // verus!
