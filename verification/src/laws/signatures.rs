//! Laws about signing a PSBT.

use vstd::prelude::*;

use crate::client;
use crate::error::Failure;
use crate::keys;
use crate::laws::sessions;
use crate::protocol::Datum;
use crate::psbt::{self, Content, InputContent};
use crate::signing;
use crate::text;
use crate::types::JadeNetwork;

verus! {

/// A PSBT passes the sighash check if and only if no input requests a flag other
/// than zero and one; otherwise the first input that does is named.
pub proof fn only_two_sighash_flags_pass(inputs: Seq<InputContent>, bad: int)
    ensures
        psbt::sighashes_checked(inputs) is Ok <==> forall|i: int|
            0 <= i < inputs.len() ==> ((#[trigger] inputs[i]).sighash_type is None
                || inputs[i].sighash_type == Some(0u32) || inputs[i].sighash_type == Some(1u32)),
        0 <= bad < inputs.len() && inputs[bad].sighash_type is Some && inputs[bad].sighash_type->0
            > 1 && (forall|i: int|
            0 <= i < bad ==> ((#[trigger] inputs[i]).sighash_type is None
                || inputs[i].sighash_type->0 <= 1)) ==> psbt::sighashes_checked(inputs) == Err::<
            (),
            Failure,
        >(
            Failure::Psbt(
                "input "@ + text::decimal(bad as nat) + " requests an unsupported sighash type"@,
            ),
        ),
{
    psbt::sighashes_supported(inputs);
    assert forall|i: int| 0 <= i < inputs.len() implies (psbt::supported(
        #[trigger] inputs[i].sighash_type,
    ) <==> inputs[i].sighash_type is None || inputs[i].sighash_type == Some(0u32)
        || inputs[i].sighash_type == Some(1u32)) by {}
    if psbt::sighashes_checked(inputs) is Ok {
        assert forall|i: int| 0 <= i < inputs.len() implies ((
        #[trigger] inputs[i]).sighash_type is None || inputs[i].sighash_type == Some(0u32)
            || inputs[i].sighash_type == Some(1u32)) by {
            assert(psbt::supported(inputs[i].sighash_type));
        }
    } else {
        let first = psbt::first_unsupported(inputs)->0 as int;
        assert(!psbt::supported(inputs[first].sighash_type));
        if 0 <= bad < inputs.len() && !psbt::supported(inputs[bad].sighash_type) && (forall|i: int|
            0 <= i < bad ==> ((#[trigger] inputs[i]).sighash_type is None
                || inputs[i].sighash_type->0 <= 1)) {
            if first < bad {
                assert(psbt::supported(inputs[first].sighash_type));
            }
            if bad < first {
                assert(psbt::supported(inputs[bad].sighash_type));
            }
        }
    }
}

proof fn origins_of_inputs(inputs: Seq<InputContent>, n: u32)
    ensures
        psbt::all_origins(inputs).contains(n) <==> exists|i: int, k: int|
            0 <= i < inputs.len() && 0 <= k < inputs[i].origins.len()
                && #[trigger] inputs[i].origins[k] == n,
    decreases inputs.len(),
{
    if inputs.len() > 0 {
        let rest = inputs.drop_last();
        let own = inputs.last().origins;
        let (before, all) = (psbt::all_origins(rest), psbt::all_origins(inputs));
        origins_of_inputs(rest, n);
        if all.contains(n) {
            let at = all.index_of(n);
            if at < before.len() {
                assert(before[at] == n);
                let (i, k) = choose|i: int, k: int|
                    0 <= i < rest.len() && 0 <= k < rest[i].origins.len()
                        && #[trigger] rest[i].origins[k] == n;
                assert(inputs[i].origins[k] == n);
            } else {
                assert(inputs[inputs.len() - 1].origins[at - before.len()] == n);
            }
        }
        if exists|i: int, k: int|
            0 <= i < inputs.len() && 0 <= k < inputs[i].origins.len()
                && #[trigger] inputs[i].origins[k] == n {
            let (i, k) = choose|i: int, k: int|
                0 <= i < inputs.len() && 0 <= k < inputs[i].origins.len()
                    && #[trigger] inputs[i].origins[k] == n;
            if i < rest.len() {
                assert(rest[i].origins[k] == n);
                assert(all[before.index_of(n)] == n);
            } else {
                assert(all[before.len() + k] == n);
            }
        }
    }
}

/// A PSBT belongs to a device if and only if some key origin of some input has
/// the device's master fingerprint.
pub proof fn any_origin_of_the_device_passes(inputs: Seq<InputContent>, device: u32)
    ensures
        psbt::origins_checked(inputs, device) is Ok <==> exists|i: int, k: int|
            0 <= i < inputs.len() && 0 <= k < inputs[i].origins.len()
                && #[trigger] inputs[i].origins[k] == device,
{
    origins_of_inputs(inputs, device);
}

/// A PSBT of another device is refused with the device's fingerprint and with
/// those of the PSBT: each that some input has an origin of, once, the smallest
/// first, with a comma and a space between them.
pub proof fn foreign_origins_are_reported(
    inputs: Seq<InputContent>,
    device: u32,
    found: Seq<u32>,
)
    requires
        psbt::origins_checked(inputs, device) is Err,
        forall|i: int, j: int| 0 <= i < j < found.len() ==> found[i] < found[j],
        forall|n: u32| #[trigger]
            found.contains(n) <==> exists|i: int, k: int|
                0 <= i < inputs.len() && 0 <= k < inputs[i].origins.len()
                    && #[trigger] inputs[i].origins[k] == n,
    ensures
        psbt::origins_checked(inputs, device) == Err::<(), Failure>(
            Failure::Fingerprint {
                device: text::fingerprint(device),
                psbt: text::joined(
                    Seq::new(found.len(), |i: int| text::fingerprint(found[i])),
                    ", "@,
                ),
            },
        ),
{
    let seen = psbt::all_origins(inputs);
    assert forall|n: u32| #![trigger found.contains(n)] #![trigger seen.contains(n)]
        found.contains(n) <==> seen.contains(n) by {
        origins_of_inputs(inputs, n);
    }
    psbt::listing_unique(found, seen);
    assert(found.map_values(|n: u32| text::fingerprint(n)) =~= Seq::new(
        found.len(),
        |i: int| text::fingerprint(found[i]),
    ));
}

/// Whether two PSBTs are about one transaction: same unsigned transaction, same
/// number of inputs and outputs, same previous outputs.
pub open spec fn same_transaction(sent: Content, signed: Content) -> bool {
    &&& sent.unsigned_tx == signed.unsigned_tx
    &&& sent.inputs.len() == signed.inputs.len()
    &&& sent.outputs == signed.outputs
    &&& forall|i: int|
        0 <= i < sent.inputs.len() ==> (#[trigger] sent.inputs[i]).witness_utxo
            == signed.inputs[i].witness_utxo && sent.inputs[i].non_witness_utxo
            == signed.inputs[i].non_witness_utxo
}

/// One more partial signature or taproot script signature, or one final witness,
/// final script signature or taproot key signature that was not there, in any
/// one input, is enough to accept what came back, whatever else the input holds.
pub proof fn one_new_signature_is_enough(sent: Content, signed: Content, i: int)
    requires
        same_transaction(sent, signed),
        0 <= i < sent.inputs.len(),
        ({
            ||| signed.inputs[i].partial_sigs > sent.inputs[i].partial_sigs
            ||| signed.inputs[i].tap_script_sigs > sent.inputs[i].tap_script_sigs
            ||| signed.inputs[i].final_script_witness && !sent.inputs[i].final_script_witness
            ||| signed.inputs[i].final_script_sig && !sent.inputs[i].final_script_sig
            ||| signed.inputs[i].tap_key_sig && !sent.inputs[i].tap_key_sig
        }),
    ensures
        psbt::signed_verified(sent, signed) == Ok::<(), Failure>(()),
{
    psbt::accepted_signature(sent, signed);
    assert(psbt::gained(sent.inputs[i], signed.inputs[i]));
}

/// What came back without a new signature in any input is reported as nothing
/// signed, and that is reported of nothing else.
pub proof fn no_new_signature_is_nothing_signed(sent: Content, signed: Content)
    ensures
        psbt::signed_verified(sent, signed) == Err::<(), Failure>(Failure::NothingSigned) <==> {
            &&& same_transaction(sent, signed)
            &&& forall|i: int|
                0 <= i < sent.inputs.len() ==> {
                    &&& signed.inputs[i].partial_sigs <= (#[trigger] sent.inputs[i]).partial_sigs
                    &&& signed.inputs[i].tap_script_sigs <= sent.inputs[i].tap_script_sigs
                    &&& signed.inputs[i].final_script_witness ==> sent.inputs[i].final_script_witness
                    &&& signed.inputs[i].final_script_sig ==> sent.inputs[i].final_script_sig
                    &&& signed.inputs[i].tap_key_sig ==> sent.inputs[i].tap_key_sig
                }
        },
{
    psbt::accepted_signature(sent, signed);
    if sent.inputs.len() == signed.inputs.len() {
        psbt::unaltered(sent.inputs, signed.inputs);
        altered_is_about_the_psbt(sent.inputs, signed.inputs);
    }
    if same_transaction(sent, signed) && psbt::signed_verified(sent, signed) is Err {
        assert forall|i: int| 0 <= i < sent.inputs.len() implies {
            &&& signed.inputs[i].partial_sigs <= (#[trigger] sent.inputs[i]).partial_sigs
            &&& signed.inputs[i].tap_script_sigs <= sent.inputs[i].tap_script_sigs
            &&& signed.inputs[i].final_script_witness ==> sent.inputs[i].final_script_witness
            &&& signed.inputs[i].final_script_sig ==> sent.inputs[i].final_script_sig
            &&& signed.inputs[i].tap_key_sig ==> sent.inputs[i].tap_key_sig
        } by {
            assert(!psbt::gained(sent.inputs[i], signed.inputs[i]));
        }
    }
}

pub(crate) proof fn altered_is_about_the_psbt(sent: Seq<InputContent>, signed: Seq<InputContent>)
    ensures
        psbt::first_altered(sent, signed) matches Some(failure) ==> failure is Psbt,
    decreases sent.len(),
{
    if sent.len() > 0 {
        altered_is_about_the_psbt(sent.drop_last(), signed.drop_last());
    }
}

/// What came back is accepted only if it is about the transaction that was sent.
pub proof fn another_transaction_is_refused(sent: Content, signed: Content)
    ensures
        psbt::signed_verified(sent, signed) is Ok ==> same_transaction(sent, signed),
        sent.unsigned_tx != signed.unsigned_tx ==> psbt::signed_verified(sent, signed) == Err::<
            (),
            Failure,
        >(Failure::Psbt("device returned a different unsigned transaction"@)),
        sent.unsigned_tx == signed.unsigned_tx && (sent.inputs.len() != signed.inputs.len()
            || sent.outputs != signed.outputs) ==> psbt::signed_verified(sent, signed) == Err::<
            (),
            Failure,
        >(Failure::Psbt("device changed the number of inputs or outputs"@)),
{
    psbt::accepted_signature(sent, signed);
}

/// The first input whose previous output was altered is named, with what was
/// altered of it.
pub proof fn altered_outputs_are_reported(sent: Content, signed: Content, i: int)
    requires
        sent.unsigned_tx == signed.unsigned_tx,
        sent.inputs.len() == signed.inputs.len(),
        sent.outputs == signed.outputs,
        0 <= i < sent.inputs.len(),
        forall|k: int|
            0 <= k < i ==> (#[trigger] sent.inputs[k]).witness_utxo
                == signed.inputs[k].witness_utxo && sent.inputs[k].non_witness_utxo
                == signed.inputs[k].non_witness_utxo,
    ensures
        sent.inputs[i].witness_utxo != signed.inputs[i].witness_utxo ==> psbt::signed_verified(
            sent,
            signed,
        ) == Err::<(), Failure>(
            Failure::Psbt(
                "device altered the witness UTXO of input "@ + text::decimal(i as nat),
            ),
        ),
        sent.inputs[i].witness_utxo == signed.inputs[i].witness_utxo
            && sent.inputs[i].non_witness_utxo != signed.inputs[i].non_witness_utxo
            ==> psbt::signed_verified(sent, signed) == Err::<(), Failure>(
            Failure::Psbt(
                "device altered the previous transaction of input "@ + text::decimal(i as nat),
            ),
        ),
{
    let (a, b) = (sent.inputs, signed.inputs);
    psbt::unaltered(a.take(i), b.take(i));
    assert(a.take(i + 1).drop_last() =~= a.take(i));
    assert(b.take(i + 1).drop_last() =~= b.take(i));
    if a[i].witness_utxo != b[i].witness_utxo || a[i].non_witness_utxo != b[i].non_witness_utxo {
        psbt::first_altered_stays(a, b, i + 1);
    }
}

/// A PSBT is submitted if and only if the device takes the network, the PSBT is
/// no larger than 16384 bytes, and no input requests a flag other than zero and
/// one; it is refused for the first of these that fails.
pub proof fn submissions_are_checked(
    unlocked: Option<JadeNetwork>,
    network: JadeNetwork,
    size: nat,
    content: Content,
)
    ensures
        signing::submission_checked(unlocked, network, size, content) is Ok <==> {
            &&& sessions::takes(unlocked, network)
            &&& size <= 16384
            &&& forall|i: int|
                0 <= i < content.inputs.len() ==> ((
                #[trigger] content.inputs[i]).sighash_type is None
                    || content.inputs[i].sighash_type == Some(0u32)
                    || content.inputs[i].sighash_type == Some(1u32))
        },
        !sessions::takes(unlocked, network) ==> {
            let refused = signing::submission_checked(unlocked, network, size, content);
            refused is Err && refused->Err_0 == client::network_checked(unlocked, network)->Err_0
        },
        sessions::takes(unlocked, network) && size > 16384 ==> signing::submission_checked(
            unlocked,
            network,
            size,
            content,
        ) == Err::<(), Failure>(Failure::TooLarge { size: size as int, max: 16384 }),
        sessions::takes(unlocked, network) && size <= 16384 ==> signing::submission_checked(
            unlocked,
            network,
            size,
            content,
        ) == psbt::sighashes_checked(content.inputs),
        signing::size_checked(size) is Ok <==> size <= 16384,
        size > 16384 ==> signing::size_checked(size) == Err::<(), Failure>(
            Failure::TooLarge { size: size as int, max: 16384 },
        ),
{
    only_two_sighash_flags_pass(content.inputs, 0);
}

/// Once the device has told a key below its master key, a PSBT goes to it if and
/// only if some input has a key origin with that key's parent fingerprint. A
/// device that told none is sent the PSBT as it is.
pub proof fn owners_are_checked(content: Content, reply: Result<Datum, Failure>)
    ensures
        reply matches Ok(Datum::Text(xpub)) ==> (keys::extended_key(xpub) matches Ok(key) ==> (
        signing::ownership_checked(content, reply) is Ok <==> exists|i: int, k: int|
            0 <= i < content.inputs.len() && 0 <= k < content.inputs[i].origins.len()
                && #[trigger] content.inputs[i].origins[k] == key.parent_fingerprint)),
        reply matches Ok(Datum::Text(xpub)) ==> (keys::extended_key(xpub) matches Ok(key)
            ==> signing::ownership_checked(content, reply) == psbt::origins_checked(
            content.inputs,
            key.parent_fingerprint,
        )),
        reply matches Ok(Datum::Text(xpub)) ==> (keys::extended_key(xpub) is Err
            ==> signing::ownership_checked(content, reply) is Ok),
        !(reply is Ok && reply->Ok_0 is Text) ==> signing::ownership_checked(content, reply) is Ok,
{
    if let Ok(Datum::Text(xpub)) = reply {
        if let Ok(key) = keys::extended_key(xpub) {
            any_origin_of_the_device_passes(content.inputs, key.parent_fingerprint);
        }
    }
}

/// What the device sent back is returned, as it is, if and only if it can be
/// read and is accepted against what was sent; otherwise the caller gets the
/// failure of the exchange, of the reading or of the comparison.
pub proof fn the_returned_psbt_is_the_devices(
    sent: Content,
    bytes: Seq<u8>,
    failure: Failure,
    parsed: Result<Content, Seq<char>>,
)
    ensures
        signing::signed_returned(sent, Err(failure)) == Err::<Content, Failure>(failure),
        signing::signed_returned(sent, Ok(bytes)) == signing::signed_accepted(
            sent,
            psbt::psbt_content(bytes),
        ),
        parsed matches Err(message) ==> signing::signed_accepted(sent, parsed) == Err::<
            Content,
            Failure,
        >(Failure::Psbt("device returned an unparsable PSBT: "@ + message)),
        parsed matches Ok(signed) ==> {
            &&& psbt::signed_verified(sent, signed) is Ok ==> signing::signed_accepted(sent, parsed)
                == Ok::<Content, Failure>(signed)
            &&& psbt::signed_verified(sent, signed) matches Err(cause) ==> signing::signed_accepted(
                sent,
                parsed,
            ) == Err::<Content, Failure>(cause)
        },
{
}

} // verus!
