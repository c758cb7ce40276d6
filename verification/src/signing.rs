//! Signing a PSBT.

use vstd::prelude::*;

use crate::client::{self, Jade};
use crate::error::{self, Failure, JadeError};
use crate::protocol::{Call, Datum, Reply, Request};
use crate::psbt::{
    self, check_origins, check_sighashes, verify_signed_psbt, Content, Psbt, PsbtFields,
    MAX_PSBT_BYTES,
};
use crate::text;
use crate::types::JadeNetwork;

verus! {

/// Whether a PSBT of `size` bytes fits the device's input buffer.
pub open spec fn size_checked(size: nat) -> Result<(), Failure> {
    if size > MAX_PSBT_BYTES {
        Err(Failure::TooLarge { size: size as int, max: MAX_PSBT_BYTES as int })
    } else {
        Ok(())
    }
}

/// Whether a PSBT of `size` bytes may be submitted, as far as that can be said
/// without asking the device.
pub open spec fn submission_checked(
    unlocked: Option<JadeNetwork>,
    network: JadeNetwork,
    size: nat,
    content: Content,
) -> Result<(), Failure> {
    match client::network_checked(unlocked, network) {
        Err(failure) => Err(failure),
        Ok(_) => match size_checked(size) {
            Err(failure) => Err(failure),
            Ok(_) => psbt::sighashes_checked(content.inputs),
        },
    }
}

/// Whether the device would sign a PSBT, given its reply to the request for
/// the master fingerprint. Without a fingerprint there is nothing to compare.
pub open spec fn ownership_checked(content: Content, reply: Result<Datum, Failure>) -> Result<
    (),
    Failure,
> {
    match client::fingerprint_of(reply) {
        Ok(device) => psbt::origins_checked(content.inputs, device),
        Err(_) => Ok(()),
    }
}

/// The PSBT to return, given what the device sent back, parsed.
pub open spec fn signed_accepted(sent: Content, parsed: Result<Content, Seq<char>>) -> Result<
    Content,
    Failure,
> {
    match parsed {
        Err(message) => Err(Failure::Psbt("device returned an unparsable PSBT: "@ + message)),
        Ok(signed) => match psbt::signed_verified(sent, signed) {
            Err(failure) => Err(failure),
            Ok(_) => Ok(signed),
        },
    }
}

/// The PSBT to return for what the device sent back.
pub open spec fn signed_returned(sent: Content, reply: Result<Seq<u8>, Failure>) -> Result<
    Content,
    Failure,
> {
    match reply {
        Err(failure) => Err(failure),
        Ok(bytes) => signed_accepted(sent, psbt::psbt_content(bytes)),
    }
}

/// A PSBT that waits for the device's master fingerprint.
pub struct SignPsbt {
    network: JadeNetwork,
    psbt: Psbt,
}

/// A PSBT that waits for the device's signatures.
pub struct SubmittedPsbt {
    sent: Psbt,
}

impl SignPsbt {
    /// The PSBT fits the device's input buffer and requests no unsupported
    /// sighash type.
    #[verifier::type_invariant]
    spec fn checked(self) -> bool {
        &&& size_checked(self.psbt.bytes().len()) is Ok
        &&& psbt::sighashes_checked(self.psbt@.inputs) is Ok
    }

    /// The network to sign for.
    pub closed spec fn network(&self) -> JadeNetwork {
        self.network
    }

    /// What the PSBT holds.
    pub closed spec fn content(&self) -> Content {
        self.psbt@
    }

    /// The PSBT in its binary form.
    pub closed spec fn bytes(&self) -> Seq<u8> {
        self.psbt.bytes()
    }
}

impl SubmittedPsbt {
    /// What the PSBT held that was sent.
    pub closed spec fn content(&self) -> Content {
        self.sent@
    }
}

/// Checks that a PSBT of `size` bytes fits the device's input buffer.
pub fn check_size(size: usize) -> (r: Result<(), JadeError>)
    ensures
        error::outcome(r) == size_checked(size as nat),
{
    if size as u64 > MAX_PSBT_BYTES {
        return Err(JadeError::PsbtTooLarge { size: size as u64, max: MAX_PSBT_BYTES });
    }
    Ok(())
}

impl Jade {
    /// Signs a PSBT.
    ///
    /// The reply is checked against what was sent before it is returned: same
    /// unsigned transaction, same input and output counts, unchanged previous
    /// output metadata, and at least one new signature.
    ///
    /// Before the round trip, a PSBT is rejected if it exceeds the device's
    /// input buffer, requests an unsupported sighash type, or carries no BIP32
    /// origin for this device's master fingerprint. That last case is the most
    /// common integration failure: without key origins the device signs nothing
    /// and the problem only surfaces as a finalization error much later.
    pub fn sign_psbt(&self, network: JadeNetwork, psbt: Psbt) -> (r: Result<
        (Request, SignPsbt),
        JadeError,
    >)
        ensures
            match submission_checked(
                self@.unlocked_network,
                network,
                psbt.bytes().len(),
                psbt@,
            ) {
                Ok(_) => {
                    &&& r matches Ok((request, next))
                    &&& request@ == client::master_child_call(network)
                    &&& next.network() == network
                    &&& next.content() == psbt@
                    &&& next.bytes() == psbt.bytes()
                },
                Err(failure) => r matches Err(error) && error@ == failure,
            },
    {
        let request = match self.master_fingerprint(network) {
            Ok(request) => request,
            Err(error) => return Err(error),
        };
        match check_size(psbt.serialized().len()) {
            Ok(_) => {},
            Err(error) => return Err(error),
        }
        match check_sighashes(psbt.fields()) {
            Ok(_) => Ok((request, SignPsbt { network, psbt })),
            Err(error) => Err(error),
        }
    }
}

impl SignPsbt {
    /// Takes the reply to the request for the master fingerprint, and submits
    /// the PSBT.
    ///
    /// Whatever is submitted fits the device's input buffer, requests supported
    /// sighash types only, and, if the device told its master fingerprint,
    /// carries a key origin for it. What was checked is what the submitted bytes
    /// hold.
    pub fn on_fingerprint(self, reply: Reply) -> (r: Result<(Request, SubmittedPsbt), JadeError>)
        ensures
            match ownership_checked(self.content(), error::outcome(reply)) {
                Ok(_) => {
                    &&& r matches Ok((request, next))
                    &&& request@ == (Call::SignPsbt {
                        network: self.network().name(),
                        psbt: self.bytes(),
                    })
                    &&& next.content() == self.content()
                },
                Err(failure) => r matches Err(error) && error@ == failure,
            },
            r is Ok ==> {
                &&& self.bytes().len() <= MAX_PSBT_BYTES
                &&& psbt::psbt_content(self.bytes()) == Ok::<Content, Seq<char>>(self.content())
                &&& forall|i: int|
                    0 <= i < self.content().inputs.len() ==> psbt::supported(
                        #[trigger] self.content().inputs[i].sighash_type,
                    )
                &&& client::fingerprint_of(error::outcome(reply)) matches Ok(device)
                    ==> psbt::all_origins(self.content().inputs).contains(device)
            },
    {
        proof {
            use_type_invariant(&self);
            psbt::sighashes_supported(self.psbt@.inputs);
        }
        match client::read_fingerprint(reply) {
            Ok(device) => {
                match check_origins(self.psbt.fields(), device) {
                    Ok(_) => {},
                    Err(error) => return Err(error),
                }
            },
            Err(_) => {},
        }
        let bytes = self.psbt.serialized().clone();
        assert(bytes@ =~= self.bytes());
        let request = Request::SignPsbt { network: self.network.wire_name(), psbt: bytes };
        Ok((request, SubmittedPsbt { sent: self.psbt }))
    }
}

/// Takes what the device sent back, parsed, and checks it against what was sent.
pub fn accept_signed(sent: &PsbtFields, parsed: Result<PsbtFields, String>) -> (r: Result<
    PsbtFields,
    JadeError,
>)
    ensures
        error::outcome(r) == signed_accepted(sent@, error::answer(parsed)),
{
    let signed = match parsed {
        Ok(signed) => signed,
        Err(message) => return Err(
            JadeError::InvalidPsbt {
                error_details: text::concat(
                    "device returned an unparsable PSBT: ",
                    message.as_str(),
                ),
            },
        ),
    };
    match verify_signed_psbt(sent, &signed) {
        Ok(_) => Ok(signed),
        Err(error) => Err(error),
    }
}

impl SubmittedPsbt {
    /// Takes the bytes that the device sent back.
    pub fn on_signed(self, reply: Result<Vec<u8>, JadeError>) -> (r: Result<Psbt, JadeError>)
        ensures
            error::outcome(r) == signed_returned(self.content(), error::outcome(reply)),
            r matches Ok(signed) ==> reply matches Ok(bytes) && signed.bytes() == bytes@,
    {
        let bytes = match reply {
            Ok(bytes) => bytes,
            Err(error) => return Err(error),
        };
        match accept_signed(self.sent.fields(), PsbtFields::read(bytes.as_slice())) {
            Ok(signed) => Ok(Psbt::new(bytes, signed)),
            Err(error) => Err(error),
        }
    }
}

/// A PSBT that passes the checks before the round trip fits the device's input
/// buffer, requests supported sighash types only and, if the device told its
/// master fingerprint, carries a key origin for it.
pub proof fn submitted_psbt_is_signable(
    unlocked: Option<JadeNetwork>,
    network: JadeNetwork,
    size: nat,
    content: Content,
    reply: Result<Datum, Failure>,
)
    requires
        submission_checked(unlocked, network, size, content) is Ok,
        ownership_checked(content, reply) is Ok,
    ensures
        size <= MAX_PSBT_BYTES,
        forall|i: int|
            0 <= i < content.inputs.len() ==> psbt::supported(
                #[trigger] content.inputs[i].sighash_type,
            ),
        client::fingerprint_of(reply) matches Ok(device) ==> psbt::all_origins(
            content.inputs,
        ).contains(device),
{
    psbt::sighashes_supported(content.inputs);
}

/// Whatever PSBT is returned to the caller is about the transaction that was
/// sent, has its inputs and outputs, alters no previous output, and holds a
/// signature that was not there before.
pub proof fn returned_psbt_is_sound(sent: Content, reply: Result<Seq<u8>, Failure>)
    ensures
        signed_returned(sent, reply) matches Ok(signed) ==> {
            &&& sent.unsigned_tx == signed.unsigned_tx
            &&& sent.inputs.len() == signed.inputs.len()
            &&& sent.outputs == signed.outputs
            &&& forall|i: int|
                0 <= i < sent.inputs.len() ==> {
                    &&& (#[trigger] sent.inputs[i]).witness_utxo == signed.inputs[i].witness_utxo
                    &&& sent.inputs[i].non_witness_utxo == signed.inputs[i].non_witness_utxo
                }
            &&& exists|i: int|
                0 <= i < sent.inputs.len() && psbt::gained(
                    #[trigger] sent.inputs[i],
                    signed.inputs[i],
                )
        },
{
    if let Ok(signed) = signed_returned(sent, reply) {
        psbt::accepted_signature(sent, signed);
    }
}

/// A PSBT without key origins is refused by every device that tells its master
/// fingerprint.
pub proof fn origins_are_needed(content: Content, reply: Result<Datum, Failure>)
    requires
        client::fingerprint_of(reply) is Ok,
        forall|i: int|
            0 <= i < content.inputs.len() ==> (#[trigger] content.inputs[i]).origins.len() == 0,
    ensures
        ownership_checked(content, reply) == Err::<(), Failure>(
            Failure::Fingerprint {
                device: text::fingerprint(client::fingerprint_of(reply)->Ok_0),
                psbt: Seq::empty(),
            },
        ),
{
    no_origins(content.inputs);
    let seen = psbt::all_origins(content.inputs);
    psbt::listing_complete(seen);
    let list = psbt::listing(seen);
    if list.len() > 0 {
        assert(list.contains(list[0]));
    }
    assert(list.map_values(|n: u32| text::fingerprint(n)).len() == 0);
}

proof fn no_origins(inputs: Seq<psbt::InputContent>)
    requires
        forall|i: int| 0 <= i < inputs.len() ==> (#[trigger] inputs[i]).origins.len() == 0,
    ensures
        psbt::all_origins(inputs).len() == 0,
    decreases inputs.len(),
{
    if inputs.len() > 0 {
        let rest = inputs.drop_last();
        assert forall|i: int| 0 <= i < rest.len() implies (#[trigger] rest[i]).origins.len() == 0 by {
            assert(rest[i] == inputs[i]);
        }
        no_origins(rest);
    }
}

} // verus!
