use std::str::FromStr;
use std::sync::atomic::AtomicBool;
use std::sync::Arc;

use bitcoin::bip32::{ChainCode, ChildNumber, DerivationPath, Fingerprint, Xpriv, Xpub};
use bitcoin::secp256k1::{PublicKey, Secp256k1};
use bitcoin::NetworkKind;
use jade_client::client::{read_fingerprint, read_fingerprint_text};
use jade_client::keys::{accept_key, check_depth, check_key, read_key, segwit_address, verify_xpub};
use jade_client::path::{first_purpose, purpose, to_wire, HARDENED};
use jade_client::{
    version_at_least, Jade, JadeAccountExport, JadeAddressVariant, JadeError, JadeNetwork,
    Request, Step, Value, VersionReply, WireVersionInfo,
};

const H: u32 = HARDENED;

/// The first key below the master key of the first BIP32 test vector.
const MASTER_CHILD: &str = "xpub68Gmy5EdvgibQVfPdqkBBCHxA5htiqg55crXYuXoQRKfDBFA1WEjWgP6LHhwBZeNK1VTsfTFUHCdrfp1bgwQ9xv5ski8PX9rL2dZXvgGDnw";

fn derived(path: &str) -> String {
    let secp = Secp256k1::new();
    let seed: Vec<u8> = (0u8..16).collect();
    let master = Xpriv::new_master(NetworkKind::Main, &seed).unwrap();
    let key = master.derive_priv(&secp, &DerivationPath::from_str(path).unwrap()).unwrap();
    Xpub::from_priv(&secp, &key).to_string()
}

/// An extended key around a public key of the BIP84 test vectors.
fn receiving_key() -> String {
    Xpub {
        network: NetworkKind::Main,
        depth: 5,
        parent_fingerprint: Fingerprint::from([1, 2, 3, 4]),
        child_number: ChildNumber::from_normal_idx(0).unwrap(),
        public_key: PublicKey::from_str(
            "0330d54fd0dd420a6e5f8d3624f5f3482cae350f79d5f0753bf5beef9c2d91af3c",
        )
        .unwrap(),
        chain_code: ChainCode::from([7; 32]),
    }
    .to_string()
}

fn text(value: &str) -> Result<Value, JadeError> {
    Ok(Value::Text(value.to_string()))
}

fn session(version: &str) -> Jade {
    let (_, next) = Jade::connect(Arc::new(AtomicBool::new(false)));
    let (_, next) = next
        .on_version(VersionReply::Summary(WireVersionInfo {
            jade_version: version.to_string(),
            jade_state: "READY".to_string(),
            jade_networks: "ALL".to_string(),
            jade_has_pin: true,
        }))
        .unwrap();
    next.on_reply(Ok(Value::Bool(true))).ok().unwrap()
}

fn unlocked(network: JadeNetwork) -> Jade {
    let mut jade = session("1.0.41");
    let unlocking = jade.unlock_with(network).ok().unwrap();
    jade.on_unlocked(unlocking, Ok(())).unwrap();
    jade
}

fn expect_xpub_request(request: Request, network: &str, path: &[u32]) {
    match request {
        Request::GetXpub { network: sent, path: steps } => {
            assert_eq!(sent, network);
            assert_eq!(steps, path);
        }
        other => panic!("{other:?}"),
    }
}

#[test]
fn paths_become_steps() {
    assert_eq!(to_wire("m/84'/1'/0'", false).unwrap(), vec![84 + H, 1 + H, H]);
    assert_eq!(to_wire(" m/84h/0/7\n", false).unwrap(), vec![84 + H, 0, 7]);
    assert_eq!(to_wire("m/2147483647'", false).unwrap(), vec![u32::MAX]);
    assert!(matches!(to_wire("m/2147483648'", false), Err(JadeError::InvalidPath { .. })));
    assert_eq!(to_wire("m", true).unwrap(), Vec::<u32>::new());
}

#[test]
fn master_path_needs_permission() {
    match to_wire("m", false) {
        Err(JadeError::InvalidPath { error_details }) => {
            assert_eq!(error_details, "the master key path is not accepted here");
        }
        _ => panic!("the master path was accepted"),
    }
}

#[test]
fn unreadable_path_is_reported_in_the_parsers_words() {
    let message = DerivationPath::from_str("m/x").unwrap_err().to_string();
    match to_wire("m/x", false) {
        Err(JadeError::InvalidPath { error_details }) => assert_eq!(error_details, message),
        _ => panic!("the path was accepted"),
    }
}

#[test]
fn purpose_is_the_first_hardened_step() {
    assert_eq!(purpose("m/84'/0'/0'/0/1"), Some(84));
    assert_eq!(purpose("m/84/0'"), None);
    assert_eq!(purpose("m"), None);
    assert_eq!(purpose("junk"), None);
    assert_eq!(first_purpose(&vec![44 + H, 0]), Some(44));
}

#[test]
fn keys_are_read() {
    let key = read_key(MASTER_CHILD).unwrap();
    assert_eq!(key.depth, 1);
    assert_eq!(key.parent_fingerprint, 0x3442193e);
    assert_eq!(key.public_key.len(), 33);
    assert_eq!(key.public_key[0..3], [0x03, 0x5a, 0x78]);
    assert_eq!(derived("m/0'"), MASTER_CHILD);
}

#[test]
fn unreadable_key_is_a_protocol_error() {
    let message = Xpub::from_str("xpub").unwrap_err().to_string();
    match read_key("xpub") {
        Err(JadeError::ProtocolError { error_details }) => assert_eq!(
            error_details,
            format!("device returned an unparsable xpub: {message}")
        ),
        _ => panic!("the key was accepted"),
    }
}

#[test]
fn master_fingerprint_is_the_parent_of_the_first_child() {
    let jade = session("1.0.41");
    let request = jade.master_fingerprint(JadeNetwork::Mainnet).unwrap();
    expect_xpub_request(request, "mainnet", &[H]);
    assert_eq!(read_fingerprint(text(MASTER_CHILD)).unwrap(), 0x3442193e);
    assert_eq!(read_fingerprint_text(text(MASTER_CHILD)).unwrap(), "3442193e");
    assert!(matches!(
        read_fingerprint_text(Err(JadeError::Timeout)),
        Err(JadeError::Timeout)
    ));
    let bound = unlocked(JadeNetwork::Testnet);
    assert!(matches!(
        bound.master_fingerprint(JadeNetwork::Mainnet),
        Err(JadeError::NetworkMismatch { .. })
    ));
}

#[test]
fn depth_has_to_match_the_path() {
    assert!(verify_xpub(MASTER_CHILD, "m/7'").is_ok());
    match verify_xpub(MASTER_CHILD, "m/84'/1'/0'") {
        Err(JadeError::ProtocolError { error_details }) => assert_eq!(
            error_details,
            "device returned a key at depth 1 for a path of depth 3"
        ),
        _ => panic!("a key of another depth was accepted"),
    }
    assert!(matches!(
        verify_xpub(MASTER_CHILD, "m/x"),
        Err(JadeError::InvalidPath { .. })
    ));
    assert!(matches!(
        verify_xpub("junk", "m/x"),
        Err(JadeError::ProtocolError { .. })
    ));
    assert!(check_depth(0, 0).is_ok());
    assert!(check_depth(255, 256).is_err());
}

#[test]
fn xpub_is_echoed_with_its_request() {
    let jade = unlocked(JadeNetwork::Testnet);
    let Ok(Step::Exchange { request, next }) = jade.get_xpub(JadeNetwork::Testnet, "m/84'/1'/0'")
    else {
        panic!("nothing to send");
    };
    expect_xpub_request(request, "testnet", &[H]);
    let Ok(Step::Exchange { request, next }) = next.on_reply(text(MASTER_CHILD)) else {
        panic!("nothing to send");
    };
    expect_xpub_request(request, "testnet", &[84 + H, 1 + H, H]);
    let account = derived("m/84'/1'/0'");
    let Ok(Step::Done { result }) = next.on_reply(text(&account)) else {
        panic!("not complete");
    };
    assert_eq!(result.xpub, account);
    assert_eq!(result.derivation_path, "m/84'/1'/0'");
    assert_eq!(result.master_fingerprint, "3442193e");
}

#[test]
fn xpub_of_another_network_is_not_asked_for() {
    let jade = unlocked(JadeNetwork::Testnet);
    assert!(matches!(
        jade.get_xpub(JadeNetwork::Mainnet, "m/84'/0'/0'"),
        Err(JadeError::NetworkMismatch { .. })
    ));
}

#[test]
fn xpub_with_an_unusable_path_fails_after_the_fingerprint() {
    let jade = session("1.0.41");
    let Ok(Step::Exchange { next, .. }) = jade.get_xpub(JadeNetwork::Mainnet, "m/x") else {
        panic!("nothing to send");
    };
    assert!(matches!(
        next.on_reply(text(MASTER_CHILD)),
        Err(JadeError::InvalidPath { .. })
    ));
}

#[test]
fn export_fetches_every_variant_in_order() {
    let jade = session("1.0.41");
    let variants = [JadeAddressVariant::Wpkh, JadeAddressVariant::Tr];
    let Ok(Step::Exchange { request, next }) =
        jade.account_export(JadeNetwork::Mainnet, 5, &variants)
    else {
        panic!("nothing to send");
    };
    expect_xpub_request(request, "mainnet", &[H]);
    let Ok(Step::Exchange { request, next }) = next.on_reply(text(MASTER_CHILD)) else {
        panic!("nothing to send");
    };
    expect_xpub_request(request, "mainnet", &[84 + H, H, 5 + H]);
    let first = derived("m/84'/0'/5'");
    let Ok(Step::Exchange { request, next }) = next.on_reply(text(&first)) else {
        panic!("nothing to send");
    };
    expect_xpub_request(request, "mainnet", &[86 + H, H, 5 + H]);
    let second = derived("m/86'/0'/5'");
    let Ok(Step::Done { result }) = next.on_reply(text(&second)) else {
        panic!("not complete");
    };
    assert_eq!(result.master_fingerprint, "3442193e");
    assert_eq!(result.account_index, 5);
    assert_eq!(result.accounts.len(), 2);
    assert_eq!(result.accounts[0].variant, JadeAddressVariant::Wpkh);
    assert_eq!(result.accounts[0].xpub, first);
    assert_eq!(result.accounts[0].derivation_path, "m/84'/0'/5'");
    assert_eq!(result.accounts[1].variant, JadeAddressVariant::Tr);
    assert_eq!(result.accounts[1].xpub, second);
    assert_eq!(result.accounts[1].derivation_path, "m/86'/0'/5'");
}

#[test]
fn export_of_nothing_is_complete_at_once() {
    let jade = session("1.0.41");
    let Ok(Step::Exchange { next, .. }) = jade.account_export(JadeNetwork::Testnet, 0, &[]) else {
        panic!("nothing to send");
    };
    let Ok(Step::Done { result }) = next.on_reply(text(MASTER_CHILD)) else {
        panic!("not complete");
    };
    assert!(result.accounts.is_empty());
}

#[test]
fn export_refuses_an_index_of_32_bits() {
    let jade = session("1.0.41");
    let variants = [JadeAddressVariant::Pkh];
    let Ok(Step::Exchange { next, .. }) = jade.account_export(JadeNetwork::Testnet, H, &variants)
    else {
        panic!("nothing to send");
    };
    assert!(matches!(
        next.on_reply(text(MASTER_CHILD)),
        Err(JadeError::InvalidPath { .. })
    ));
}

#[test]
fn export_refuses_a_key_of_another_depth() {
    let jade = session("1.0.41");
    let variants = [JadeAddressVariant::ShWpkh];
    let Ok(Step::Exchange { next, .. }) = jade.account_export(JadeNetwork::Regtest, 0, &variants)
    else {
        panic!("nothing to send");
    };
    let Ok(Step::Exchange { request, next }) = next.on_reply(text(MASTER_CHILD)) else {
        panic!("nothing to send");
    };
    expect_xpub_request(request, "localtest", &[49 + H, 1 + H, H]);
    assert!(matches!(
        next.on_reply(text(MASTER_CHILD)),
        Err(JadeError::ProtocolError { .. })
    ));
}

#[test]
fn address_is_compared() {
    let jade = session("1.0.41");
    let (request, next) = jade
        .verify_address(JadeNetwork::Mainnet, JadeAddressVariant::Wpkh, "m/84'/0'/0'/0/0", "bc1q")
        .ok()
        .unwrap();
    match request {
        Request::GetReceiveAddress { network, variant, path } => {
            assert_eq!(network, "mainnet");
            assert_eq!(variant, "wpkh(k)");
            assert_eq!(path, vec![84 + H, H, H, 0, 0]);
        }
        other => panic!("{other:?}"),
    }
    assert!(next.on_reply(text("bc1q")).is_ok());

    let (_, next) = jade
        .verify_address(JadeNetwork::Mainnet, JadeAddressVariant::Wpkh, "m/84'/0'/0'/0/0", "bc1q")
        .ok()
        .unwrap();
    match next.on_reply(text("bc1p")) {
        Err(JadeError::AddressMismatch { expected, returned }) => {
            assert_eq!(expected, "bc1q");
            assert_eq!(returned, "bc1p");
        }
        _ => panic!("another address was accepted"),
    }
}

#[test]
fn address_variant_has_to_match_the_purpose() {
    let jade = session("1.0.41");
    match jade.verify_address(JadeNetwork::Mainnet, JadeAddressVariant::Pkh, "m/84'/0'/0'/0/0", "1")
    {
        Err(JadeError::InvalidPath { error_details }) => assert_eq!(
            error_details,
            "path purpose 84 does not match the pkh(k) variant"
        ),
        _ => panic!("another purpose was accepted"),
    }
    assert!(jade
        .verify_address(JadeNetwork::Mainnet, JadeAddressVariant::Pkh, "m/44'/0'/0'/0/0", "1")
        .is_ok());
}

#[test]
fn taproot_addresses_need_recent_firmware() {
    let old = session("1.0.33");
    match old.verify_address(JadeNetwork::Mainnet, JadeAddressVariant::Tr, "m/86'/0'/0'/0/0", "b") {
        Err(JadeError::UnsupportedFirmware { installed, required }) => {
            assert_eq!(installed, "1.0.33");
            assert_eq!(required, "1.0.34");
        }
        _ => panic!("old firmware was accepted"),
    }
    assert!(old
        .verify_address(JadeNetwork::Mainnet, JadeAddressVariant::Wpkh, "m/84'/0'/0'/0/0", "b")
        .is_ok());
    assert!(session("1.0.34")
        .verify_address(JadeNetwork::Mainnet, JadeAddressVariant::Tr, "m/86'/0'/0'/0/0", "b")
        .is_ok());
}

#[test]
fn versions_are_compared_by_number() {
    assert!(version_at_least("1.0.34", "1.0.34"));
    assert!(version_at_least("1.0.100", "1.0.34"));
    assert!(version_at_least("1.1", "1.0.34"));
    assert!(version_at_least("1.0.34-beta1", "1.0.34"));
    assert!(version_at_least("2", "1.0.34"));
    assert!(version_at_least("1.0", "1"));
    assert!(!version_at_least("1.0.9", "1.0.34"));
    assert!(!version_at_least("1.0", "1.0.34"));
    assert!(!version_at_least("", "1.0.34"));
    assert!(version_at_least("99999999999999999999999", "18446744073709551615"));
}

#[test]
fn segwit_address_of_a_known_key() {
    let key = receiving_key();
    assert_eq!(
        segwit_address(&key, JadeNetwork::Mainnet).unwrap(),
        "bc1qcr8te4kr609gcawutmrza0j4xv80jy8z306fyu"
    );
    assert!(segwit_address(&key, JadeNetwork::Testnet).unwrap().starts_with("tb1q"));
    assert!(segwit_address(&key, JadeNetwork::Regtest).unwrap().starts_with("bcrt1q"));
}

#[test]
fn message_is_signed_with_the_address_that_verifies_it() {
    let jade = session("1.0.41");
    let Ok(Step::Exchange { request, next }) =
        jade.sign_message(JadeNetwork::Mainnet, "m/84'/0'/0'/0/0", "hello")
    else {
        panic!("nothing to send");
    };
    expect_xpub_request(request, "mainnet", &[84 + H, H, H, 0, 0]);
    let Ok(Step::Exchange { request, next }) = next.on_reply(text(&receiving_key())) else {
        panic!("nothing to send");
    };
    match request {
        Request::SignMessage { message, path } => {
            assert_eq!(message, "hello");
            assert_eq!(path, vec![84 + H, H, H, 0, 0]);
        }
        other => panic!("{other:?}"),
    }
    let Ok(Step::Done { result }) = next.on_reply(text("c2ln")) else {
        panic!("not complete");
    };
    assert_eq!(result.signature, "c2ln");
    assert_eq!(result.address, "bc1qcr8te4kr609gcawutmrza0j4xv80jy8z306fyu");
    assert_eq!(result.derivation_path, "m/84'/0'/0'/0/0");
}

#[test]
fn message_with_an_unusable_path_is_not_sent() {
    let jade = session("1.0.41");
    assert!(matches!(
        jade.sign_message(JadeNetwork::Mainnet, "m", "hello"),
        Err(JadeError::InvalidPath { .. })
    ));
    assert!(matches!(
        unlocked(JadeNetwork::Testnet).sign_message(JadeNetwork::Mainnet, "m", "hello"),
        Err(JadeError::NetworkMismatch { .. })
    ));
}

#[test]
fn parsed_keys_are_checked_against_parsed_paths() {
    let key = read_key(MASTER_CHILD).unwrap();
    assert_eq!(accept_key(Ok(key.clone())).unwrap().depth, 1);
    match accept_key(Err("too short".to_string())) {
        Err(JadeError::ProtocolError { error_details }) => {
            assert_eq!(error_details, "device returned an unparsable xpub: too short");
        }
        _ => panic!("a failed parse was accepted"),
    }
    assert!(check_key(Ok(key.clone()), Ok(vec![7])).is_ok());
    assert!(matches!(
        check_key(Ok(key.clone()), Ok(vec![])),
        Err(JadeError::ProtocolError { .. })
    ));
    match check_key(Ok(key), Err("no number".to_string())) {
        Err(JadeError::InvalidPath { error_details }) => assert_eq!(error_details, "no number"),
        _ => panic!("a failed parse was accepted"),
    }
    assert!(matches!(
        check_key(Err("x".to_string()), Err("y".to_string())),
        Err(JadeError::ProtocolError { .. })
    ));
}

#[test]
fn later_firmware_displays_taproot_addresses_too() {
    for version in ["1.0.34", "1.0.35", "1.0.41", "1.1.0", "2.0"] {
        assert!(jade_client::address::check_firmware(version, JadeAddressVariant::Tr).is_ok());
    }
    assert!(jade_client::address::check_firmware("0.1", JadeAddressVariant::Pkh).is_ok());
}

fn exported(jade: &Jade, variants: &[JadeAddressVariant]) -> JadeAccountExport {
    let mut step = jade.account_export(JadeNetwork::Mainnet, 5, variants).ok().unwrap();
    loop {
        match step {
            Step::Exchange { request, next } => {
                let reply = match request {
                    Request::GetXpub { path, .. } if path == vec![H] => derived("m/0'"),
                    Request::GetXpub { path, .. } => {
                        derived(&format!("m/{}'/0'/5'", path[0] - H))
                    }
                    other => panic!("{other:?}"),
                };
                step = next.on_reply(text(&reply)).ok().unwrap();
            }
            Step::Done { result } => return result,
        }
    }
}

#[test]
fn exports_in_a_row_join() {
    let jade = session("1.0.41");
    let (pkh, wpkh, tr) =
        (JadeAddressVariant::Pkh, JadeAddressVariant::Wpkh, JadeAddressVariant::Tr);
    let first = exported(&jade, &[pkh, wpkh]);
    let second = exported(&jade, &[tr]);
    let both = exported(&jade, &[pkh, wpkh, tr]);
    assert_eq!(both.master_fingerprint, first.master_fingerprint);
    assert_eq!(both.accounts.len(), 3);
    let joined: Vec<String> = first
        .accounts
        .iter()
        .chain(second.accounts.iter())
        .map(|account| format!("{:?}", account))
        .collect();
    let whole: Vec<String> =
        both.accounts.iter().map(|account| format!("{:?}", account)).collect();
    assert_eq!(joined, whole);
}
