use std::str::FromStr;
use std::sync::atomic::AtomicBool;
use std::sync::Arc;

use bitcoin::absolute::LockTime;
use bitcoin::bip32::{DerivationPath, Fingerprint};
use bitcoin::psbt::PsbtSighashType;
use bitcoin::secp256k1::PublicKey;
use bitcoin::taproot::LeafVersion;
use bitcoin::transaction::Version;
use bitcoin::{Amount, OutPoint, ScriptBuf, Sequence, Transaction, TxIn, TxOut, Witness};
use jade_client::psbt::{check_origins, check_sighashes, verify_signed_psbt};
use jade_client::signing::{accept_signed, check_size};
use jade_client::{
    Jade, JadeError, JadeNetwork, Psbt, PsbtFields, Request, Value, VersionReply,
    WireVersionInfo, MAX_PSBT_BYTES,
};

/// The first key below the master key of the first BIP32 test vector, whose
/// master fingerprint is 3442193e.
const MASTER_CHILD: &str = "xpub68Gmy5EdvgibQVfPdqkBBCHxA5htiqg55crXYuXoQRKfDBFA1WEjWgP6LHhwBZeNK1VTsfTFUHCdrfp1bgwQ9xv5ski8PX9rL2dZXvgGDnw";

const FIRST_KEY: &str = "0330d54fd0dd420a6e5f8d3624f5f3482cae350f79d5f0753bf5beef9c2d91af3c";
const SECOND_KEY: &str = "035a784662a4a20a65bf6aab9ae98a6c068a81c52e4b032c0fb5400c706cfccc56";

fn output(sats: u64) -> TxOut {
    TxOut { value: Amount::from_sat(sats), script_pubkey: ScriptBuf::from(vec![0x51]) }
}

fn transaction(inputs: u32) -> Transaction {
    Transaction {
        version: Version::TWO,
        lock_time: LockTime::ZERO,
        input: (0..inputs)
            .map(|vout| TxIn {
                previous_output: OutPoint { vout, ..OutPoint::null() },
                script_sig: ScriptBuf::new(),
                sequence: Sequence::MAX,
                witness: Witness::new(),
            })
            .collect(),
        output: vec![output(1000)],
    }
}

fn origin(key: &str, fingerprint: [u8; 4], psbt: &mut bitcoin::Psbt, input: usize) {
    psbt.inputs[input].bip32_derivation.insert(
        PublicKey::from_str(key).unwrap(),
        (Fingerprint::from(fingerprint), DerivationPath::from_str("m/84'/0'/0'/0/0").unwrap()),
    );
}

fn unsigned(inputs: u32) -> bitcoin::Psbt {
    let mut psbt = bitcoin::Psbt::from_unsigned_tx(transaction(inputs)).unwrap();
    for index in 0..inputs as usize {
        psbt.inputs[index].witness_utxo = Some(output(2000));
        origin(FIRST_KEY, [0x34, 0x42, 0x19, 0x3e], &mut psbt, index);
    }
    psbt
}

fn parsed(psbt: &bitcoin::Psbt) -> Psbt {
    Psbt::deserialize(psbt.serialize()).unwrap()
}

fn read(psbt: &bitcoin::Psbt) -> PsbtFields {
    PsbtFields::read(&psbt.serialize()).unwrap()
}

fn sign(psbt: &mut bitcoin::Psbt, input: usize) {
    let mut witness = Witness::new();
    witness.push([1, 2, 3]);
    psbt.inputs[input].final_script_witness = Some(witness);
}

fn session() -> Jade {
    let (_, next) = Jade::connect(Arc::new(AtomicBool::new(false)));
    let (_, next) = next
        .on_version(VersionReply::Summary(WireVersionInfo {
            jade_version: "1.0.41".to_string(),
            jade_state: "READY".to_string(),
            jade_networks: "ALL".to_string(),
            jade_has_pin: true,
        }))
        .unwrap();
    next.on_reply(Ok(Value::Bool(true))).ok().unwrap()
}

fn details(r: Result<(), JadeError>) -> String {
    match r {
        Err(JadeError::InvalidPsbt { error_details }) => error_details,
        other => panic!("{other:?}"),
    }
}

fn child() -> Result<Value, JadeError> {
    Ok(Value::Text(MASTER_CHILD.to_string()))
}

#[test]
fn fields_are_read() {
    let mut psbt = unsigned(2);
    psbt.inputs[1].sighash_type = Some(PsbtSighashType::from_u32(0x81));
    psbt.inputs[1].non_witness_utxo = Some(transaction(1));
    psbt.inputs[1].tap_key_origins.insert(
        PublicKey::from_str(SECOND_KEY).unwrap().x_only_public_key().0,
        (vec![], (Fingerprint::from([0, 0, 1, 2]), DerivationPath::master())),
    );
    sign(&mut psbt, 0);
    psbt.inputs[0].final_script_sig = Some(ScriptBuf::from(vec![0x51]));
    let seen = read(&psbt);
    let whole = parsed(&psbt);
    assert_eq!(*whole.serialized(), psbt.serialize());
    assert_eq!(whole.fields().inputs.len(), 2);
    assert_eq!(seen.unsigned_tx, bitcoin::consensus::serialize(&transaction(2)));
    assert_eq!(seen.outputs, 1);
    assert_eq!(seen.inputs.len(), 2);
    assert_eq!(seen.inputs[0].sighash_type, None);
    assert_eq!(seen.inputs[0].origins, vec![0x3442193e]);
    assert_eq!(
        seen.inputs[0].witness_utxo,
        Some(bitcoin::consensus::serialize(&output(2000)))
    );
    assert_eq!(seen.inputs[0].non_witness_utxo, None);
    assert!(seen.inputs[0].final_script_witness);
    assert!(seen.inputs[0].final_script_sig);
    assert!(!seen.inputs[0].tap_key_sig);
    assert_eq!(seen.inputs[0].partial_sigs, 0);
    assert_eq!(seen.inputs[0].tap_script_sigs, 0);
    assert_eq!(seen.inputs[1].sighash_type, Some(0x81));
    assert_eq!(seen.inputs[1].origins, vec![0x3442193e, 0x102]);
    assert_eq!(
        seen.inputs[1].non_witness_utxo,
        Some(bitcoin::consensus::serialize(&transaction(1)))
    );
    assert!(!seen.inputs[1].final_script_witness);
    assert!(!seen.inputs[1].final_script_sig);
}

#[test]
fn bytes_that_are_no_psbt_are_not_read() {
    let message = bitcoin::Psbt::deserialize(&[1, 2, 3]).unwrap_err().to_string();
    assert_eq!(Psbt::deserialize(vec![1, 2, 3]).unwrap_err(), message);
}

#[test]
fn only_two_sighash_types_are_supported() {
    let mut psbt = unsigned(3);
    for flag in [0u32, 1] {
        psbt.inputs[2].sighash_type = Some(PsbtSighashType::from_u32(flag));
        assert!(check_sighashes(&read(&psbt)).is_ok());
    }
    for flag in [2u32, 3, 4, 0x80, 0x81, 0x82, 0x83, 0x84, 0xff, 0x100, 0x101, u32::MAX] {
        psbt.inputs[2].sighash_type = Some(PsbtSighashType::from_u32(flag));
        assert_eq!(
            details(check_sighashes(&read(&psbt))),
            "input 2 requests an unsupported sighash type"
        );
    }
    psbt.inputs[1].sighash_type = Some(PsbtSighashType::from_u32(2));
    assert_eq!(
        details(check_sighashes(&read(&psbt))),
        "input 1 requests an unsupported sighash type"
    );
}

#[test]
fn some_origin_has_to_be_the_devices() {
    let mut psbt = unsigned(2);
    origin(FIRST_KEY, [0xff, 0, 0, 1], &mut psbt, 0);
    origin(SECOND_KEY, [0, 0, 0, 0x2a], &mut psbt, 0);
    origin(FIRST_KEY, [0xff, 0, 0, 1], &mut psbt, 1);
    let seen = read(&psbt);
    assert!(check_origins(&seen, 0x2a).is_ok());
    assert!(check_origins(&seen, 0xff000001).is_ok());
    match check_origins(&seen, 0x3442193e) {
        Err(JadeError::FingerprintMismatch { device, psbt }) => {
            assert_eq!(device, "3442193e");
            assert_eq!(psbt, "0000002a, ff000001");
        }
        other => panic!("{other:?}"),
    }
}

#[test]
fn psbt_without_origins_is_refused() {
    let mut psbt = unsigned(2);
    psbt.inputs[0].bip32_derivation.clear();
    psbt.inputs[1].bip32_derivation.clear();
    match check_origins(&read(&psbt), 0x3442193e) {
        Err(JadeError::FingerprintMismatch { device, psbt }) => {
            assert_eq!(device, "3442193e");
            assert_eq!(psbt, "");
        }
        other => panic!("{other:?}"),
    }
}

#[test]
fn taproot_origins_count() {
    let mut psbt = unsigned(1);
    psbt.inputs[0].bip32_derivation.clear();
    psbt.inputs[0].tap_key_origins.insert(
        PublicKey::from_str(FIRST_KEY).unwrap().x_only_public_key().0,
        (vec![], (Fingerprint::from([0x34, 0x42, 0x19, 0x3e]), DerivationPath::master())),
    );
    assert!(check_origins(&read(&psbt), 0x3442193e).is_ok());
}

#[test]
fn signed_psbt_is_accepted() {
    let sent = unsigned(2);
    let mut signed = sent.clone();
    sign(&mut signed, 1);
    assert!(verify_signed_psbt(&read(&sent), &read(&signed)).is_ok());
}

#[test]
fn each_kind_of_signature_counts() {
    let sent = read(&unsigned(1));
    let mut signed = read(&unsigned(1));
    signed.inputs[0].partial_sigs = 1;
    assert!(verify_signed_psbt(&sent, &signed).is_ok());
    let mut signed = read(&unsigned(1));
    signed.inputs[0].final_script_sig = true;
    assert!(verify_signed_psbt(&sent, &signed).is_ok());
    let mut signed = read(&unsigned(1));
    signed.inputs[0].tap_script_sigs = 1;
    assert!(verify_signed_psbt(&sent, &signed).is_ok());
    assert!(verify_signed_psbt(&signed, &signed).is_err());
    let mut signed = read(&unsigned(1));
    signed.inputs[0].tap_key_sig = true;
    assert!(verify_signed_psbt(&sent, &signed).is_ok());
    assert!(matches!(
        verify_signed_psbt(&signed, &sent),
        Err(JadeError::NothingSigned)
    ));
}

fn script_signature() -> bitcoin::taproot::Signature {
    bitcoin::taproot::Signature {
        signature: bitcoin::secp256k1::schnorr::Signature::from_slice(&[7; 64]).unwrap(),
        sighash_type: bitcoin::TapSighashType::Default,
    }
}

fn script_sign(psbt: &mut bitcoin::Psbt, input: usize, key: &str) {
    psbt.inputs[input].tap_script_sigs.insert(
        (
            PublicKey::from_str(key).unwrap().x_only_public_key().0,
            bitcoin::TapLeafHash::from_script(&ScriptBuf::new(), LeafVersion::TapScript),
        ),
        script_signature(),
    );
}

#[test]
fn taproot_script_signature_is_a_new_signature() {
    let sent = unsigned(2);
    let mut signed = sent.clone();
    script_sign(&mut signed, 1, FIRST_KEY);
    assert_eq!(read(&signed).inputs[1].tap_script_sigs, 1);
    assert!(verify_signed_psbt(&read(&sent), &read(&signed)).is_ok());

    let mut signed_again = signed.clone();
    script_sign(&mut signed_again, 1, SECOND_KEY);
    assert_eq!(read(&signed_again).inputs[1].tap_script_sigs, 2);
    assert!(verify_signed_psbt(&read(&signed), &read(&signed_again)).is_ok());
    assert!(matches!(
        verify_signed_psbt(&read(&signed), &read(&signed)),
        Err(JadeError::NothingSigned)
    ));

    let jade = session();
    let (_, next) = jade.sign_psbt(JadeNetwork::Testnet, parsed(&sent)).ok().unwrap();
    let (_, next) = next.on_fingerprint(child()).ok().unwrap();
    let returned = next.on_signed(Ok(signed.serialize())).unwrap();
    assert_eq!(*returned.serialized(), signed.serialize());
}

#[test]
fn taproot_key_signature_is_a_new_signature() {
    let sent = unsigned(1);
    let mut signed = sent.clone();
    signed.inputs[0].tap_key_sig = Some(script_signature());
    assert!(read(&signed).inputs[0].tap_key_sig);
    assert!(verify_signed_psbt(&read(&sent), &read(&signed)).is_ok());
}

#[test]
fn partial_signature_is_a_new_signature() {
    let sent = unsigned(1);
    let mut signed = sent.clone();
    let mut compact = [0u8; 64];
    compact[31] = 1;
    compact[63] = 1;
    signed.inputs[0].partial_sigs.insert(
        bitcoin::PublicKey::from_str(FIRST_KEY).unwrap(),
        bitcoin::ecdsa::Signature {
            signature: bitcoin::secp256k1::ecdsa::Signature::from_compact(&compact).unwrap(),
            sighash_type: bitcoin::EcdsaSighashType::All,
        },
    );
    assert_eq!(read(&signed).inputs[0].partial_sigs, 1);
    assert!(verify_signed_psbt(&read(&sent), &read(&signed)).is_ok());
}

#[test]
fn echoed_psbt_counts_as_nothing_signed() {
    let mut sent = unsigned(2);
    assert!(matches!(
        verify_signed_psbt(&read(&sent), &read(&sent)),
        Err(JadeError::NothingSigned)
    ));
    sign(&mut sent, 0);
    assert!(matches!(
        verify_signed_psbt(&read(&sent), &read(&sent)),
        Err(JadeError::NothingSigned)
    ));
}

#[test]
fn altered_psbt_is_refused() {
    let sent = unsigned(2);

    let mut other = bitcoin::Psbt::from_unsigned_tx(transaction(3)).unwrap();
    sign(&mut other, 0);
    assert_eq!(
        details(verify_signed_psbt(&read(&sent), &read(&other))),
        "device returned a different unsigned transaction"
    );

    let mut fewer = read(&sent);
    fewer.outputs = 0;
    assert_eq!(
        details(verify_signed_psbt(&read(&sent), &fewer)),
        "device changed the number of inputs or outputs"
    );

    let mut richer = sent.clone();
    richer.inputs[1].witness_utxo = Some(output(2001));
    sign(&mut richer, 0);
    assert_eq!(
        details(verify_signed_psbt(&read(&sent), &read(&richer))),
        "device altered the witness UTXO of input 1"
    );

    let mut padded = sent.clone();
    padded.inputs[0].non_witness_utxo = Some(transaction(1));
    sign(&mut padded, 0);
    assert_eq!(
        details(verify_signed_psbt(&read(&sent), &read(&padded))),
        "device altered the previous transaction of input 0"
    );
}

#[test]
fn signing_asks_for_the_fingerprint_and_submits() {
    let jade = session();
    let psbt = unsigned(2);
    let (request, next) = jade.sign_psbt(JadeNetwork::Testnet, parsed(&psbt)).ok().unwrap();
    match request {
        Request::GetXpub { network, path } => {
            assert_eq!(network, "testnet");
            assert_eq!(path, vec![0x8000_0000]);
        }
        other => panic!("{other:?}"),
    }
    let (request, next) = next.on_fingerprint(child()).ok().unwrap();
    match request {
        Request::SignPsbt { network, psbt: bytes } => {
            assert_eq!(network, "testnet");
            assert_eq!(bytes, psbt.serialize());
        }
        other => panic!("{other:?}"),
    }
    let mut signed = psbt.clone();
    sign(&mut signed, 0);
    let returned = next.on_signed(Ok(signed.serialize())).unwrap();
    assert_eq!(*returned.serialized(), signed.serialize());
}

#[test]
fn foreign_psbt_is_not_submitted() {
    let jade = session();
    let mut psbt = unsigned(1);
    origin(FIRST_KEY, [9, 9, 9, 9], &mut psbt, 0);
    let (_, next) = jade.sign_psbt(JadeNetwork::Testnet, parsed(&psbt)).ok().unwrap();
    assert!(matches!(
        next.on_fingerprint(child()),
        Err(JadeError::FingerprintMismatch { .. })
    ));
}

#[test]
fn without_a_fingerprint_the_origins_are_not_compared() {
    let jade = session();
    let mut psbt = unsigned(1);
    origin(FIRST_KEY, [9, 9, 9, 9], &mut psbt, 0);
    let (_, next) = jade.sign_psbt(JadeNetwork::Testnet, parsed(&psbt)).ok().unwrap();
    assert!(next.on_fingerprint(Err(JadeError::Timeout)).is_ok());
}

#[test]
fn unsupported_sighash_is_refused_before_asking() {
    let jade = session();
    let mut psbt = unsigned(1);
    psbt.inputs[0].sighash_type = Some(PsbtSighashType::from_u32(3));
    assert!(matches!(
        jade.sign_psbt(JadeNetwork::Testnet, parsed(&psbt)),
        Err(JadeError::InvalidPsbt { .. })
    ));
}

/// A PSBT that takes `size` bytes.
fn padded(size: usize) -> bitcoin::Psbt {
    let mut psbt = unsigned(1);
    let key = bitcoin::psbt::raw::Key { type_value: 0xf0, key: vec![] };
    psbt.unknown.insert(key.clone(), vec![0; 10_000]);
    let rest = psbt.serialize().len() - 10_000;
    psbt.unknown.insert(key, vec![0; size - rest]);
    assert_eq!(psbt.serialize().len(), size);
    psbt
}

#[test]
fn large_psbt_is_refused() {
    assert_eq!(MAX_PSBT_BYTES, 16384);
    let jade = session();
    assert!(jade.sign_psbt(JadeNetwork::Testnet, parsed(&padded(16384))).is_ok());
    match jade.sign_psbt(JadeNetwork::Testnet, parsed(&padded(16385))) {
        Err(JadeError::PsbtTooLarge { size, max }) => {
            assert_eq!(size, 16385);
            assert_eq!(max, 16384);
        }
        _ => panic!("a large PSBT was accepted"),
    }
    assert!(check_size(16384).is_ok());
    assert!(matches!(
        check_size(20000),
        Err(JadeError::PsbtTooLarge { size: 20000, max: 16384 })
    ));
}

#[test]
fn psbt_for_another_network_is_refused() {
    let mut jade = session();
    let unlocking = jade.unlock_with(JadeNetwork::Testnet).ok().unwrap();
    jade.on_unlocked(unlocking, Ok(())).unwrap();
    assert!(matches!(
        jade.sign_psbt(JadeNetwork::Mainnet, parsed(&unsigned(1))),
        Err(JadeError::NetworkMismatch { .. })
    ));
}

#[test]
fn reply_has_to_be_a_psbt() {
    let jade = session();
    let (_, next) = jade.sign_psbt(JadeNetwork::Testnet, parsed(&unsigned(1))).ok().unwrap();
    let (_, next) = next.on_fingerprint(child()).ok().unwrap();
    let message = bitcoin::Psbt::deserialize(&[5, 6]).unwrap_err().to_string();
    match next.on_signed(Ok(vec![5, 6])) {
        Err(JadeError::InvalidPsbt { error_details }) => assert_eq!(
            error_details,
            format!("device returned an unparsable PSBT: {message}")
        ),
        _ => panic!("junk was accepted"),
    }
}

#[test]
fn failed_submission_is_passed_on() {
    let jade = session();
    let (_, next) = jade.sign_psbt(JadeNetwork::Testnet, parsed(&unsigned(1))).ok().unwrap();
    let (_, next) = next.on_fingerprint(child()).ok().unwrap();
    assert!(matches!(next.on_signed(Err(JadeError::Timeout)), Err(JadeError::Timeout)));
}

#[test]
fn parsed_reply_is_checked_against_what_was_sent() {
    let sent = unsigned(1);
    let mut signed = sent.clone();
    sign(&mut signed, 0);
    let accepted = accept_signed(&read(&sent), Ok(read(&signed))).unwrap();
    assert!(accepted.inputs[0].final_script_witness);
    assert!(matches!(
        accept_signed(&read(&sent), Ok(read(&sent))),
        Err(JadeError::NothingSigned)
    ));
    match accept_signed(&read(&sent), Err("short".to_string())) {
        Err(JadeError::InvalidPsbt { error_details }) => {
            assert_eq!(error_details, "device returned an unparsable PSBT: short");
        }
        _ => panic!("a failed parse was accepted"),
    }
}
