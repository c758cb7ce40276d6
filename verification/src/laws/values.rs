//! Laws about the vocabulary shared with the device, and about what the views of
//! values hold.

use vstd::prelude::*;

use crate::client::{Progress, Step};
use crate::error::{self, Failure, JadeError};
use crate::keys::Xpub;
use crate::protocol::{Call, Datum, Request, Value, VersionReply};
use crate::psbt::{self, PsbtFields, PsbtInput, RawInput};
use crate::serial::{PortInfo, UsbDescriptor};
use crate::text;
use crate::types::{
    self, JadeAccount, JadeAccountExport, JadeAddressVariant, JadeDeviceInfo, JadeNetwork,
    JadePingStatus, JadeSignedMessage, JadeState, JadeVersionInfo, JadeXpubResponse,
    WireVersionInfo,
};

verus! {

/// Whether `name` is what requests call `network`.
pub open spec fn names_network(name: Seq<char>, network: JadeNetwork) -> bool {
    match network {
        JadeNetwork::Mainnet => name == "mainnet"@,
        JadeNetwork::Testnet => name == "testnet"@,
        JadeNetwork::Regtest => name == "localtest"@,
    }
}

/// Whether `name` is what the Bitcoin reference client calls `network`.
pub open spec fn names_chain(name: Seq<char>, network: JadeNetwork) -> bool {
    match network {
        JadeNetwork::Mainnet => name == "main"@,
        JadeNetwork::Testnet => name == "test"@,
        JadeNetwork::Regtest => name == "regtest"@,
    }
}

/// Whether `name` is what requests call `variant`.
pub open spec fn names_variant(name: Seq<char>, variant: JadeAddressVariant) -> bool {
    match variant {
        JadeAddressVariant::Pkh => name == "pkh(k)"@,
        JadeAddressVariant::ShWpkh => name == "sh(wpkh(k))"@,
        JadeAddressVariant::Wpkh => name == "wpkh(k)"@,
        JadeAddressVariant::Tr => name == "tr(k)"@,
    }
}

/// Whether `n` is the purpose number of `variant`.
pub open spec fn numbers_variant(n: int, variant: JadeAddressVariant) -> bool {
    match variant {
        JadeAddressVariant::Pkh => n == 44,
        JadeAddressVariant::ShWpkh => n == 49,
        JadeAddressVariant::Wpkh => n == 84,
        JadeAddressVariant::Tr => n == 86,
    }
}

/// A network has the name and the coin number that the device and the account
/// paths know it by; every network but the main one has the coin number one.
pub proof fn networks_are_known(network: JadeNetwork)
    ensures
        names_network(network.name(), network),
        names_chain(network.chain(), network),
        network.coin() == (if network == JadeNetwork::Mainnet {
            0int
        } else {
            1int
        }),
{
}

/// Two networks that requests call the same are the same.
pub proof fn networks_are_told_apart(a: JadeNetwork, b: JadeNetwork)
    ensures
        a.name() == b.name() <==> a == b,
        a.chain() == b.chain() <==> a == b,
{
    reveal_strlit("mainnet");
    reveal_strlit("testnet");
    reveal_strlit("localtest");
    reveal_strlit("main");
    reveal_strlit("test");
    reveal_strlit("regtest");
    assert("mainnet"@[0] != "testnet"@[0]);
    assert("main"@[0] != "test"@[0]);
}

/// An address type has the name and the purpose number that the device and the
/// account paths know it by.
pub proof fn variants_are_known(variant: JadeAddressVariant)
    ensures
        names_variant(variant.name(), variant),
        numbers_variant(variant.account_purpose() as int, variant),
{
}

/// Two address types that requests call the same, or whose accounts begin with
/// the same purpose, are the same.
pub proof fn variants_are_told_apart(a: JadeAddressVariant, b: JadeAddressVariant)
    ensures
        a.name() == b.name() <==> a == b,
        a.account_purpose() == b.account_purpose() <==> a == b,
{
    reveal_strlit("pkh(k)");
    reveal_strlit("sh(wpkh(k))");
    reveal_strlit("wpkh(k)");
    reveal_strlit("tr(k)");
    assert("pkh(k)"@.len() == 6);
    assert("sh(wpkh(k))"@.len() == 11);
    assert("wpkh(k)"@.len() == 7);
    assert("tr(k)"@.len() == 5);
}

/// A state is the one that goes by its name, and a name of no known state stands
/// for none of them.
pub proof fn states_are_known(name: Seq<char>)
    ensures
        JadeState::named(name) == JadeState::Ready <==> name == "READY"@,
        JadeState::named(name) == JadeState::Temp <==> name == "TEMP"@,
        JadeState::named(name) == JadeState::Locked <==> name == "LOCKED"@,
        JadeState::named(name) == JadeState::Unsaved <==> name == "UNSAVED"@,
        JadeState::named(name) == JadeState::Uninit <==> name == "UNINIT"@,
{
    reveal_strlit("READY");
    reveal_strlit("TEMP");
    reveal_strlit("LOCKED");
    reveal_strlit("UNSAVED");
    reveal_strlit("UNINIT");
    assert("READY"@.len() == 5);
    assert("TEMP"@.len() == 4);
    assert("LOCKED"@.len() == 6);
    assert("UNSAVED"@.len() == 7);
    assert("UNINIT"@.len() == 6);
    assert("LOCKED"@[0] != "UNINIT"@[0]);
}

/// A status is the one that has its number.
pub proof fn statuses_are_known(raw: int)
    ensures
        JadePingStatus::numbered(raw) == JadePingStatus::Idle <==> raw == 0,
        JadePingStatus::numbered(raw) == JadePingStatus::Busy <==> raw == 1,
        JadePingStatus::numbered(raw) == JadePingStatus::AwaitingUser <==> raw == 2,
{
}

/// Errors are told apart by their values, which hold what the errors hold.
pub proof fn errors_are_told_apart(error: JadeError)
    ensures
        error@ is Protocol <==> error is ProtocolError,
        error@ is Transport <==> error is TransportError,
        error@ is Connection <==> error is ConnectionError,
        error@ is Io <==> error is IoError,
        error@ is Timeout <==> error is Timeout,
        error@ is Disconnected <==> error is DeviceDisconnected,
        error@ is Uninitialized <==> error is DeviceUninitialized,
        error@ is Network <==> error is NetworkMismatch,
        error@ is Firmware <==> error is UnsupportedFirmware,
        error@ is Path <==> error is InvalidPath,
        error@ is Address <==> error is AddressMismatch,
        error@ is TooLarge <==> error is PsbtTooLarge,
        error@ is Psbt <==> error is InvalidPsbt,
        error@ is Fingerprint <==> error is FingerprintMismatch,
        error@ is NothingSigned <==> error is NothingSigned,
        error matches JadeError::ProtocolError { error_details } ==> error@ == Failure::Protocol(
            error_details@,
        ),
        error matches JadeError::TransportError { error_details } ==> error@
            == Failure::Transport(error_details@),
        error matches JadeError::ConnectionError { error_details } ==> error@
            == Failure::Connection(error_details@),
        error matches JadeError::IoError { error_details } ==> error@ == Failure::Io(
            error_details@,
        ),
        error matches JadeError::NetworkMismatch { error_details } ==> error@ == Failure::Network(
            error_details@,
        ),
        error matches JadeError::UnsupportedFirmware { installed, required } ==> error@ == (
        Failure::Firmware { installed: installed@, required: required@ }),
        error matches JadeError::InvalidPath { error_details } ==> error@ == Failure::Path(
            error_details@,
        ),
        error matches JadeError::AddressMismatch { expected, returned } ==> error@ == (
        Failure::Address { expected: expected@, returned: returned@ }),
        error matches JadeError::PsbtTooLarge { size, max } ==> error@ == (Failure::TooLarge {
            size: size as int,
            max: max as int,
        }),
        error matches JadeError::InvalidPsbt { error_details } ==> error@ == Failure::Psbt(
            error_details@,
        ),
        error matches JadeError::FingerprintMismatch { device, psbt } ==> error@ == (
        Failure::Fingerprint { device: device@, psbt: psbt@ }),
{
}

/// The value of a result tells success from failure, and holds what the result
/// holds.
pub proof fn results_are_told_apart<T: View>(r: Result<T, JadeError>, s: Result<T, String>)
    ensures
        error::outcome(r) is Ok <==> r is Ok,
        r is Ok ==> error::outcome(r)->Ok_0 == r->Ok_0@,
        r is Err ==> error::outcome(r)->Err_0 == r->Err_0@,
        error::answer(s) is Ok <==> s is Ok,
        s is Ok ==> error::answer(s)->Ok_0 == s->Ok_0@,
        s is Err ==> error::answer(s)->Err_0 == s->Err_0@,
{
}

/// The value of a step holds the request to send and where the operation
/// stands, or what it came to.
pub proof fn steps_are_told_apart<S: View, T: View>(step: Step<S, T>)
    ensures
        step matches Step::Exchange { request, next } ==> step@ == (Progress::<
            S::V,
            T::V,
        >::Exchange { call: request@, next: next@ }),
        step matches Step::Done { result } ==> step@ == (Progress::<S::V, T::V>::Done {
            result: result@,
        }),
{
}

/// The value of a request holds its parameters.
pub proof fn requests_keep_their_parameters(request: Request)
    ensures
        request is GetVersionInfo <==> request@ is GetVersionInfo,
        request is Ping <==> request@ is Ping,
        request is Logout <==> request@ is Logout,
        request matches Request::AddEntropy { entropy } ==> request@ == (Call::AddEntropy {
            entropy: entropy@,
        }),
        request matches Request::GetXpub { network, path } ==> request@ == (Call::GetXpub {
            network: network@,
            path: path@,
        }),
        request matches Request::GetReceiveAddress { network, variant, path } ==> request@ == (
        Call::GetReceiveAddress { network: network@, variant: variant@, path: path@ }),
        request matches Request::SignMessage { message, path } ==> request@ == (
        Call::SignMessage { message: message@, path: path@ }),
        request matches Request::SignPsbt { network, psbt } ==> request@ == (Call::SignPsbt {
            network: network@,
            psbt: psbt@,
        }),
{
}

/// A request has the method name that the device knows it by, and waits on the
/// user if it shows an address or asks for a signature.
pub proof fn methods_are_known(call: Call)
    ensures
        call is GetVersionInfo ==> call.method_name() == "get_version_info"@,
        call is AddEntropy ==> call.method_name() == "add_entropy"@,
        call is Ping ==> call.method_name() == "ping"@,
        call is Logout ==> call.method_name() == "logout"@,
        call is GetXpub ==> call.method_name() == "get_xpub"@,
        call is GetReceiveAddress ==> call.method_name() == "get_receive_address"@,
        call is SignMessage ==> call.method_name() == "sign_message"@,
        call is SignPsbt ==> call.method_name() == "sign_psbt"@,
        call.waits_on_user() <==> (call is GetReceiveAddress || call is SignMessage
            || call is SignPsbt),
{
}

/// The value of what a reply consists of is of the same kind, and the same.
pub proof fn replies_keep_their_values(value: Value)
    ensures
        value is Integer <==> value@ is Integer,
        value is Bool <==> value@ is Bool,
        value is Text <==> value@ is Text,
        value is Bytes <==> value@ is Bytes,
        value matches Value::Integer(n) ==> value@ == Datum::Integer(n as int),
        value matches Value::Bool(b) ==> value@ == Datum::Bool(b),
        value matches Value::Text(s) ==> value@ == Datum::Text(s@),
        value matches Value::Bytes(b) ==> value@ == Datum::Bytes(b@),
{
}

/// The version summary holds what the device sent: its version, the state that
/// goes by the name it sent, its networks, and whether it has a PIN.
pub proof fn version_summaries_keep_what_was_sent(wire: WireVersionInfo, info: JadeVersionInfo)
    ensures
        wire@.version == wire.jade_version@,
        wire@.state == JadeState::named(wire.jade_state@),
        wire@.networks == wire.jade_networks@,
        wire@.has_pin == wire.jade_has_pin,
        info@.version == info.jade_version@,
        info@.state == info.jade_state,
        info@.networks == info.jade_networks@,
        info@.has_pin == info.jade_has_pin,
{
}

/// A reply holds a version summary if and only if it is one; otherwise it is a
/// failure, or a protocol error that says what is wrong with it.
pub proof fn version_replies_are_read(reply: VersionReply)
    ensures
        reply.summary() is Ok <==> reply is Summary,
        reply matches VersionReply::Summary(wire) ==> reply.summary() == Ok::<
            types::Version,
            Failure,
        >(wire@),
        reply matches VersionReply::Failed(error) ==> reply.summary() == Err::<
            types::Version,
            Failure,
        >(error@),
        reply matches VersionReply::Malformed(message) ==> reply.summary() == Err::<
            types::Version,
            Failure,
        >(Failure::Protocol("unexpected get_version_info reply: "@ + message@)),
{
}

/// The values of what operations return hold all that is returned.
pub proof fn results_keep_their_fields(
    response: JadeXpubResponse,
    account: JadeAccount,
    export: JadeAccountExport,
    message: JadeSignedMessage,
)
    ensures
        response@.xpub == response.xpub@,
        response@.derivation_path == response.derivation_path@,
        response@.master_fingerprint == response.master_fingerprint@,
        account@.variant == account.variant,
        account@.xpub == account.xpub@,
        account@.derivation_path == account.derivation_path@,
        export@.master_fingerprint == export.master_fingerprint@,
        export@.account_index == export.account_index,
        export@.accounts.len() == export.accounts@.len(),
        forall|i: int|
            0 <= i < export.accounts@.len() ==> #[trigger] export@.accounts[i]
                == export.accounts@[i]@,
        message@.signature == message.signature@,
        message@.address == message.address@,
        message@.derivation_path == message.derivation_path@,
{
}

/// The value of an extended key holds its depth, the whole fingerprint of its
/// parent, and its public key.
pub proof fn keys_keep_their_fields(key: Xpub)
    ensures
        key@.depth == key.depth,
        key@.parent_fingerprint == key.parent_fingerprint,
        key@.public_key == key.public_key@,
{
}

/// The value of optional bytes holds the bytes.
proof fn optional_bytes(bytes: Option<Vec<u8>>)
    ensures
        psbt::optional(bytes) is Some <==> bytes is Some,
        bytes is Some ==> psbt::optional(bytes)->0 == bytes->0@,
{
}

/// The value of an input holds all that is read of it.
pub proof fn inputs_keep_their_fields(input: PsbtInput)
    ensures
        input@.sighash_type == input.sighash_type,
        input@.origins == input.origins@,
        input@.witness_utxo is Some <==> input.witness_utxo is Some,
        input.witness_utxo is Some ==> input@.witness_utxo->0 == input.witness_utxo->0@,
        input@.non_witness_utxo is Some <==> input.non_witness_utxo is Some,
        input.non_witness_utxo is Some ==> input@.non_witness_utxo->0
            == input.non_witness_utxo->0@,
        input@.partial_sigs == input.partial_sigs,
        input@.final_script_witness == input.final_script_witness,
        input@.final_script_sig == input.final_script_sig,
        input@.tap_key_sig == input.tap_key_sig,
        input@.tap_script_sigs == input.tap_script_sigs,
{
    optional_bytes(input.witness_utxo);
    optional_bytes(input.non_witness_utxo);
}

/// The value of a PSBT holds its transaction, its inputs in their order, and how
/// many outputs it has.
pub proof fn psbts_keep_their_fields(fields: PsbtFields)
    ensures
        fields@.unsigned_tx == fields.unsigned_tx@,
        fields@.outputs == fields.outputs,
        fields@.inputs.len() == fields.inputs@.len(),
        forall|i: int|
            0 <= i < fields.inputs@.len() ==> #[trigger] fields@.inputs[i] == fields.inputs@[i]@,
{
}

/// A fingerprint as a number has the bytes of the fingerprint, the first one the
/// most significant.
pub proof fn fingerprints_keep_their_bytes(bytes: [u8; 4])
    ensures
        psbt::number(bytes) / 0x100_0000 == bytes[0],
        psbt::number(bytes) / 0x1_0000 % 0x100 == bytes[1],
        psbt::number(bytes) / 0x100 % 0x100 == bytes[2],
        psbt::number(bytes) % 0x100 == bytes[3],
{
    four_bytes(bytes[0] as u32, bytes[1] as u32, bytes[2] as u32, bytes[3] as u32);
}

proof fn four_bytes(a: u32, b: u32, c: u32, d: u32)
    requires
        a < 0x100,
        b < 0x100,
        c < 0x100,
        d < 0x100,
    ensures
        ({
            let n = a * 0x100_0000 + b * 0x1_0000 + c * 0x100 + d;
            &&& n < 0x1_0000_0000
            &&& n / 0x100_0000 == a
            &&& n / 0x1_0000 % 0x100 == b
            &&& n / 0x100 % 0x100 == c
            &&& n % 0x100 == d
        }),
{
    let n = a * 0x100_0000 + b * 0x1_0000 + c * 0x100 + d;
    assert(n / 0x100_0000 == a);
    assert(n / 0x1_0000 == a * 0x100 + b);
    assert(n / 0x100 == a * 0x1_0000 + b * 0x100 + c);
    assert((a * 0x100 + b) % 0x100 == b);
    assert((a * 0x1_0000 + b * 0x100 + c) % 0x100 == c);
}

/// What is read of an input keeps every field, and its key origins are those of
/// its ordinary keys and of its taproot keys, all of them.
pub proof fn parsed_inputs_keep_their_fields(raw: RawInput)
    ensures
        raw@.sighash_type == raw.0,
        raw@.origins.len() == raw.1@.len() + raw.2@.len(),
        forall|i: int|
            0 <= i < raw.1@.len() ==> raw@.origins[i] == psbt::number(#[trigger] raw.1@[i]),
        forall|i: int|
            0 <= i < raw.2@.len() ==> raw@.origins[raw.1@.len() + i] == psbt::number(
                #[trigger] raw.2@[i],
            ),
        raw@.witness_utxo is Some <==> raw.3 is Some,
        raw.3 is Some ==> raw@.witness_utxo->0 == raw.3->0@,
        raw@.non_witness_utxo is Some <==> raw.4 is Some,
        raw.4 is Some ==> raw@.non_witness_utxo->0 == raw.4->0@,
        raw@.partial_sigs == raw.5,
        raw@.final_script_witness == raw.6,
        raw@.final_script_sig == raw.7,
        raw@.tap_key_sig == raw.8,
        raw@.tap_script_sigs == raw.9,
{
    optional_bytes(raw.3);
    optional_bytes(raw.4);
}

/// The values of what the parser returns hold its transaction, its inputs in
/// their order and how many outputs there are, or the message of its error.
pub proof fn parses_are_told_apart(r: Result<(Vec<u8>, Vec<RawInput>, usize), String>)
    ensures
        psbt::parsed(r) is Ok <==> r is Ok,
        r matches Ok((unsigned_tx, inputs, outputs)) ==> {
            let content = psbt::parsed(r)->Ok_0;
            &&& content.unsigned_tx == unsigned_tx@
            &&& content.outputs == outputs
            &&& content.inputs.len() == inputs@.len()
            &&& forall|i: int|
                0 <= i < inputs@.len() ==> #[trigger] content.inputs[i] == inputs@[i]@
        },
        r matches Err(message) ==> psbt::parsed(r)->Err_0 == message@,
{
}

/// The values of ports and devices hold their names and descriptors.
pub proof fn ports_keep_their_fields(port: PortInfo, usb: UsbDescriptor, device: JadeDeviceInfo)
    ensures
        port@.name == port.port_name@,
        port@.usb is Some <==> port.usb is Some,
        port.usb is Some ==> port@.usb->0 == port.usb->0@,
        usb@.vid == usb.vid,
        usb@.pid == usb.pid,
        usb@.product is Some <==> usb.product is Some,
        usb.product is Some ==> usb@.product->0 == usb.product->0@,
        usb@.serial_number is Some <==> usb.serial_number is Some,
        usb.serial_number is Some ==> usb@.serial_number->0 == usb.serial_number->0@,
        device@.path == device.path@,
        device@.transport == device.transport,
        device@.name is Some <==> device.name is Some,
        device.name is Some ==> device@.name->0 == device.name->0@,
        device@.serial_number is Some <==> device.serial_number is Some,
        device.serial_number is Some ==> device@.serial_number->0 == device.serial_number->0@,
{
    assert(forall|s: Option<String>| #[trigger] text::optional(s) is Some <==> s is Some);
}

} // verus!
