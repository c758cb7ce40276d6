//! Laws about what calls return that the operations are made of.

use vstd::prelude::*;

use crate::address;
use crate::error::JadeError;
use crate::keys::{self, Xpub};
use crate::laws::numerals;
use crate::laws::signatures;
use crate::laws::values;
use crate::laws::versions;
use crate::path;
use crate::protocol::{self, Reply, Request, Value, VersionReply};
use crate::psbt::PsbtFields;
use crate::signing;
use crate::text;
use crate::transport::{CancelHandle, JadeConnection};
use crate::types::{
    self, JadeAddressVariant, JadeNetwork, JadePingStatus, JadeState, JadeVersionInfo,
    WireVersionInfo,
};

verus! {

/// Texts are put together, compared, and cut at their ends, as texts.
pub proof fn texts_are_handled(
    a: &str,
    b: &str,
    both: String,
    equal: bool,
    begins: bool,
    cut: &str,
    n: u32,
    digits: String,
)
    requires
        call_ensures(text::concat, (a, b), both),
        call_ensures(text::same, (a, b), equal),
        call_ensures(text::starts_with, (a, b), begins),
        call_ensures(text::trim, (a,), cut),
        call_ensures(text::fingerprint_text, (n,), digits),
    ensures
        both@ == a@ + b@,
        equal <==> a@ == b@,
        begins <==> b@.is_prefix_of(a@),
        exists|i: int, j: int|
            0 <= i <= j <= a@.len() && cut@ == #[trigger] a@.subrange(i, j) && (forall|k: int|
                (0 <= k < i || j <= k < a@.len()) ==> text::white_space(#[trigger] a@[k])) && (i < j
                ==> !text::white_space(a@[i]) && !text::white_space(a@[j - 1])),
        digits@.len() == 8,
        numerals::numeral_value(digits@, 16) == n,
{
    numerals::trimmed_is_the_middle(a@);
    numerals::fingerprint_reads_back(n);
}

/// A number is appended as a decimal numeral of its value.
pub proof fn numbers_are_appended()
    ensures
        forall|out: &mut String, n: u64| #[trigger]
            call_ensures(text::push_decimal, (out, n), ()) ==> {
                &&& out@.is_prefix_of(final(out)@)
                &&& numerals::numeral_value(final(out)@.skip(out@.len() as int), 10) == n
            },
{
    assert forall|out: &mut String, n: u64| #[trigger]
        call_ensures(text::push_decimal, (out, n), ()) implies {
        &&& out@.is_prefix_of(final(out)@)
        &&& numerals::numeral_value(final(out)@.skip(out@.len() as int), 10) == n
    } by {
        numerals::decimal_reads_back(n as nat);
        assert(final(out)@.skip(out@.len() as int) =~= text::decimal(n as nat));
        assert(out@ =~= final(out)@.take(out@.len() as int));
    }
}

/// Networks and address types go by the names and numbers that the device and
/// the account paths know them by.
pub proof fn names_are_known(
    network: JadeNetwork,
    variant: JadeAddressVariant,
    name: &'static str,
    chain: &'static str,
    coin: u32,
    kind: &'static str,
    purpose: u32,
)
    requires
        call_ensures(JadeNetwork::wire_name, (network,), name),
        call_ensures(JadeNetwork::chain_name, (network,), chain),
        call_ensures(JadeNetwork::coin_type, (network,), coin),
        call_ensures(JadeAddressVariant::wire_name, (variant,), kind),
        call_ensures(JadeAddressVariant::purpose, (variant,), purpose),
    ensures
        values::names_network(name@, network),
        values::names_chain(chain@, network),
        network == JadeNetwork::Mainnet ==> coin == 0,
        network == JadeNetwork::Testnet ==> coin == 1,
        network == JadeNetwork::Regtest ==> coin == 1,
        values::names_variant(kind@, variant),
        values::numbers_variant(purpose as int, variant),
{
}

/// Requests go by the method names that the device knows them by.
pub proof fn method_names_are_known(request: &Request, method: &'static str)
    requires
        call_ensures(Request::method, (request,), method),
    ensures
        request is GetVersionInfo ==> method@ == "get_version_info"@,
        request is AddEntropy ==> method@ == "add_entropy"@,
        request is Ping ==> method@ == "ping"@,
        request is Logout ==> method@ == "logout"@,
        request is GetXpub ==> method@ == "get_xpub"@,
        request is GetReceiveAddress ==> method@ == "get_receive_address"@,
        request is SignMessage ==> method@ == "sign_message"@,
        request is SignPsbt ==> method@ == "sign_psbt"@,
{
}

/// States and statuses are read by their names and numbers, and a version
/// summary keeps all that was sent.
pub proof fn summaries_are_read(
    name: &str,
    state: JadeState,
    raw: u64,
    status: JadePingStatus,
    wire: WireVersionInfo,
    info: JadeVersionInfo,
    reply: VersionReply,
    read: Result<JadeVersionInfo, JadeError>,
)
    requires
        call_ensures(JadeState::from_wire, (name,), state),
        call_ensures(JadePingStatus::from_wire, (raw,), status),
        call_ensures(JadeVersionInfo::from_wire, (wire,), info),
        call_ensures(protocol::read_version, (reply,), read),
    ensures
        state == JadeState::Ready <==> name@ == "READY"@,
        state == JadeState::Temp <==> name@ == "TEMP"@,
        state == JadeState::Locked <==> name@ == "LOCKED"@,
        state == JadeState::Unsaved <==> name@ == "UNSAVED"@,
        state == JadeState::Uninit <==> name@ == "UNINIT"@,
        status == JadePingStatus::Idle <==> raw == 0,
        status == JadePingStatus::Busy <==> raw == 1,
        status == JadePingStatus::AwaitingUser <==> raw == 2,
        info.jade_version@ == wire.jade_version@,
        info.jade_state == JadeState::named(wire.jade_state@),
        info.jade_networks@ == wire.jade_networks@,
        info.jade_has_pin == wire.jade_has_pin,
        read is Ok <==> reply is Summary,
        reply matches VersionReply::Summary(sent) ==> read->Ok_0@ == sent@,
        reply matches VersionReply::Failed(cause) ==> read->Err_0@ == cause@,
        reply matches VersionReply::Malformed(m) ==> read->Err_0 is ProtocolError
            && read->Err_0->ProtocolError_error_details@ == "unexpected get_version_info reply: "@
            + m@,
{
    values::states_are_known(name@);
}

/// Firmware versions are compared by the first number in which they differ.
pub proof fn firmware_is_compared(
    version: &str,
    minimum: &str,
    a: Seq<nat>,
    b: Seq<nat>,
    r: bool,
)
    requires
        call_ensures(types::version_at_least, (version, minimum), r),
        a.len() > 0,
        b.len() > 0,
        version@ == versions::dotted(a),
        minimum@ == versions::dotted(b),
    ensures
        r <==> !(exists|k: int| versions::falls_short_at(a, b, k)),
{
    let none: Seq<char> = Seq::empty();
    versions::versions_are_ordered_by_their_numbers(a, none, b, none);
    assert(versions::dotted(a) + none =~= versions::dotted(a));
    assert(versions::dotted(b) + none =~= versions::dotted(b));
}

/// Texts and truth values are taken from the replies that consist of them, as
/// they are, and from no others.
pub proof fn replies_are_taken(
    reply: Reply,
    s: Result<String, JadeError>,
    b: Result<bool, JadeError>,
)
    requires
        call_ensures(protocol::result_text, (reply,), s),
        call_ensures(protocol::result_bool, (reply,), b),
    ensures
        s is Ok <==> reply is Ok && reply->Ok_0 is Text,
        reply matches Ok(Value::Text(sent)) ==> s->Ok_0@ == sent@,
        b is Ok <==> reply is Ok && reply->Ok_0 is Bool,
        reply matches Ok(Value::Bool(sent)) ==> b->Ok_0 == sent,
        reply matches Err(cause) ==> s->Err_0@ == cause@ && b->Err_0@ == cause@,
        reply is Ok && s is Err ==> s->Err_0 is ProtocolError
            && s->Err_0->ProtocolError_error_details@ == "expected a text result"@,
        reply is Ok && b is Err ==> b->Err_0 is ProtocolError
            && b->Err_0->ProtocolError_error_details@ == "expected a boolean result"@,
{
}

/// A parsed path is carried as it is, unless it is the master path where that is
/// not accepted.
pub proof fn parsed_paths_are_carried(
    parsed: Result<Vec<u32>, String>,
    allow_master: bool,
    r: Result<Vec<u32>, JadeError>,
    steps: &Vec<u32>,
    purpose: Option<u32>,
)
    requires
        call_ensures(path::accept, (parsed, allow_master), r),
        call_ensures(path::first_purpose, (steps,), purpose),
    ensures
        r is Ok <==> parsed is Ok && (parsed->Ok_0@.len() > 0 || allow_master),
        r matches Ok(carried) ==> carried@ == parsed->Ok_0@,
        r is Err ==> r->Err_0 is InvalidPath,
        parsed matches Err(m) ==> r->Err_0->InvalidPath_error_details@ == m@,
        parsed is Ok && r is Err ==> r->Err_0->InvalidPath_error_details@
            == "the master key path is not accepted here"@,
        purpose is Some <==> steps@.len() > 0 && steps@[0] >= 0x8000_0000,
        purpose matches Some(n) ==> steps@[0] == 0x8000_0000 + n,
{
}

/// A parsed key is accepted as it is, and confirmed if and only if it lies as
/// deep as the parsed path leads.
pub proof fn parsed_keys_are_confirmed(
    key: Result<Xpub, String>,
    path: Result<Vec<u32>, String>,
    depth: u8,
    steps: usize,
    accepted: Result<Xpub, JadeError>,
    confirmed: Result<(), JadeError>,
    compared: Result<(), JadeError>,
)
    requires
        call_ensures(keys::accept_key, (key,), accepted),
        call_ensures(keys::check_key, (key, path), confirmed),
        call_ensures(keys::check_depth, (depth, steps), compared),
    ensures
        accepted is Ok <==> key is Ok,
        accepted is Ok ==> accepted->Ok_0 == key->Ok_0,
        key matches Err(m) ==> accepted->Err_0 is ProtocolError
            && accepted->Err_0->ProtocolError_error_details@
            == "device returned an unparsable xpub: "@ + m@,
        confirmed is Ok <==> key is Ok && path is Ok && key->Ok_0.depth as int
            == path->Ok_0@.len(),
        key is Ok ==> (path matches Err(m) ==> confirmed->Err_0 is InvalidPath
            && confirmed->Err_0->InvalidPath_error_details@ == m@),
        compared is Ok <==> depth as int == steps,
        compared is Err ==> compared->Err_0 is ProtocolError,
{
}

/// Address types are checked against the purpose of the path and the firmware.
pub proof fn address_types_are_checked(
    purpose: Option<u32>,
    version: &str,
    variant: JadeAddressVariant,
    suits: Result<(), JadeError>,
    displays: Result<(), JadeError>,
)
    requires
        call_ensures(address::check_purpose, (purpose, variant), suits),
        call_ensures(address::check_firmware, (version, variant), displays),
    ensures
        suits is Ok <==> (purpose matches Some(n) ==> values::numbers_variant(n as int, variant)),
        suits is Err ==> suits->Err_0 is InvalidPath,
        displays is Ok <==> (variant == JadeAddressVariant::Tr ==> types::at_least(
            version@,
            "1.0.34"@,
        )),
        displays is Err ==> displays->Err_0 is UnsupportedFirmware
            && displays->Err_0->installed@ == version@ && displays->Err_0->required@ == "1.0.34"@,
{
}

/// A parsed reply is accepted, as it is, if and only if it holds what was sent
/// with a new signature.
pub proof fn parsed_psbts_are_accepted(
    sent: &PsbtFields,
    parsed: Result<PsbtFields, String>,
    r: Result<PsbtFields, JadeError>,
)
    requires
        call_ensures(signing::accept_signed, (sent, parsed), r),
    ensures
        r matches Ok(signed) ==> parsed is Ok && signed@ == parsed->Ok_0@
            && signatures::same_transaction(sent@, signed@),
        parsed is Ok ==> (r is Ok <==> crate::psbt::signed_verified(sent@, parsed->Ok_0@) is Ok),
        parsed matches Err(m) ==> r->Err_0 is InvalidPsbt
            && r->Err_0->InvalidPsbt_error_details@ == "device returned an unparsable PSBT: "@ + m@,
{
    if let Ok(signed) = r {
        signatures::another_transaction_is_refused(sent@, signed@);
    }
}

/// A connection, its handles and their copies share the flag that the connection
/// was made with.
pub proof fn handles_share_the_flag(
    aborted: std::sync::Arc<std::sync::atomic::AtomicBool>,
    made: JadeConnection,
    connection: &JadeConnection,
    handle: CancelHandle,
    shared: &CancelHandle,
    flag: &std::sync::Arc<std::sync::atomic::AtomicBool>,
)
    requires
        call_ensures(JadeConnection::new, (aborted,), made),
        call_ensures(JadeConnection::cancel_handle, (connection,), handle),
        call_ensures(CancelHandle::aborted, (shared,), flag),
    ensures
        made.flag() == aborted,
        handle.flag() == connection.flag(),
        *flag == shared.flag(),
{
}

} // verus!
