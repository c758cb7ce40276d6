//! Signing a message.

use vstd::prelude::*;

use crate::client::{self, Jade, Progress, Step};
use crate::error::{self, Failure, JadeError};
use crate::keys;
use crate::path;
use crate::protocol::{self, Call, Datum, Reply, Request};
use crate::text;
use crate::types::{JadeNetwork, JadeSignedMessage, SignedMessage};

verus! {

/// A message signature, under way.
#[derive(Debug)]
pub enum SignMessage {
    /// Waits for the key that signs.
    AwaitingKey {
        network: JadeNetwork,
        derivation_path: String,
        path: Vec<u32>,
        message: String,
    },
    /// Waits for the signature.
    AwaitingSignature { address: String, derivation_path: String },
}

/// The mathematical value of a [`SignMessage`].
pub enum Signing {
    AwaitingKey {
        network: JadeNetwork,
        derivation_path: Seq<char>,
        path: Seq<u32>,
        message: Seq<char>,
    },
    AwaitingSignature { address: Seq<char>, derivation_path: Seq<char> },
}

impl View for SignMessage {
    type V = Signing;

    open spec fn view(&self) -> Signing {
        match self {
            SignMessage::AwaitingKey { network, derivation_path, path, message } => {
                Signing::AwaitingKey {
                    network: *network,
                    derivation_path: derivation_path@,
                    path: path@,
                    message: message@,
                }
            },
            SignMessage::AwaitingSignature { address, derivation_path } => {
                Signing::AwaitingSignature {
                    address: address@,
                    derivation_path: derivation_path@,
                }
            },
        }
    }
}

/// How a signature begins on a device that is unlocked for `unlocked`.
pub open spec fn signing_begun(
    unlocked: Option<JadeNetwork>,
    network: JadeNetwork,
    derivation_path: Seq<char>,
    message: Seq<char>,
) -> Result<Progress<Signing, SignedMessage>, Failure> {
    match client::network_checked(unlocked, network) {
        Err(failure) => Err(failure),
        Ok(_) => match path::wire_path(derivation_path, false) {
            Err(failure) => Err(failure),
            Ok(path) => Ok(
                Progress::Exchange {
                    call: Call::GetXpub { network: network.name(), path },
                    next: Signing::AwaitingKey { network, derivation_path, path, message },
                },
            ),
        },
    }
}

impl Signing {
    /// How the signature goes on after a reply.
    pub open spec fn after(self, reply: Result<Datum, Failure>) -> Result<
        Progress<Signing, SignedMessage>,
        Failure,
    > {
        match protocol::text_of(reply) {
            Err(failure) => Err(failure),
            Ok(answer) => match self {
                Signing::AwaitingKey { network, derivation_path, path, message } => {
                    match keys::returned_address(answer, network) {
                        Err(failure) => Err(failure),
                        Ok(address) => Ok(
                            Progress::Exchange {
                                call: Call::SignMessage { message, path },
                                next: Signing::AwaitingSignature { address, derivation_path },
                            },
                        ),
                    }
                },
                Signing::AwaitingSignature { address, derivation_path } => Ok(
                    Progress::Done {
                        result: SignedMessage { signature: answer, address, derivation_path },
                    },
                ),
            },
        }
    }
}

impl Jade {
    /// Signs a message, returning the signature with the address that verifies
    /// it.
    pub fn sign_message(&self, network: JadeNetwork, derivation_path: &str, message: &str) -> (r:
        Result<Step<SignMessage, JadeSignedMessage>, JadeError>)
        ensures
            error::outcome(r) == signing_begun(
                self@.unlocked_network,
                network,
                derivation_path@,
                message@,
            ),
            client::network_checked(self@.unlocked_network, network) is Ok
                ==> path::read_as_written(derivation_path@),
            forall|steps: Seq<u32>|
                text::trimmed(derivation_path@) == #[trigger] path::path_text(steps) && steps.len()
                    > 0 && (self@.unlocked_network is None || self@.unlocked_network == Some(
                    network,
                )) ==> r is Ok && r->Ok_0@ == (Progress::Exchange::<Signing, SignedMessage> {
                    call: Call::GetXpub { network: network.name(), path: steps },
                    next: Signing::AwaitingKey {
                        network,
                        derivation_path: derivation_path@,
                        path: steps,
                        message: message@,
                    },
                }),
    {
        match self.check_network(network) {
            Ok(_) => {},
            Err(error) => return Err(error),
        }
        let path = match path::to_wire(derivation_path, false) {
            Ok(path) => path,
            Err(error) => return Err(error),
        };
        let request_path = path.clone();
        assert(request_path@ =~= path@);
        Ok(
            Step::Exchange {
                request: Request::GetXpub { network: network.wire_name(), path: request_path },
                next: SignMessage::AwaitingKey {
                    network,
                    derivation_path: derivation_path.to_owned(),
                    path,
                    message: message.to_owned(),
                },
            },
        )
    }
}

impl SignMessage {
    /// Takes the reply to the last request.
    pub fn on_reply(self, reply: Reply) -> (r: Result<
        Step<SignMessage, JadeSignedMessage>,
        JadeError,
    >)
        ensures
            error::outcome(r) == self@.after(error::outcome(reply)),
    {
        let answer = match protocol::result_text(reply) {
            Ok(answer) => answer,
            Err(error) => return Err(error),
        };
        match self {
            SignMessage::AwaitingKey { network, derivation_path, path, message } => {
                // Derived here so the caller can verify without a second round
                // trip to the device.
                match keys::segwit_address(answer.as_str(), network) {
                    Ok(address) => Ok(
                        Step::Exchange {
                            request: Request::SignMessage { message, path },
                            next: SignMessage::AwaitingSignature { address, derivation_path },
                        },
                    ),
                    Err(error) => Err(error),
                }
            },
            SignMessage::AwaitingSignature { address, derivation_path } => Ok(
                Step::Done {
                    result: JadeSignedMessage { signature: answer, address, derivation_path },
                },
            ),
        }
    }
}

/// What is signed is the caller's message at the caller's path, and it is
/// returned with the address of the key at that path on the caller's network.
pub proof fn signature_answers_request(
    unlocked: Option<JadeNetwork>,
    network: JadeNetwork,
    derivation_path: Seq<char>,
    message: Seq<char>,
    first: Result<Datum, Failure>,
    second: Result<Datum, Failure>,
)
    requires
        signing_begun(unlocked, network, derivation_path, message) is Ok,
    ensures
        signing_begun(unlocked, network, derivation_path, message) matches Ok(
            Progress::Exchange { call: Call::GetXpub { path, .. }, next },
        ) && path::wire_path(derivation_path, false) == Ok::<Seq<u32>, Failure>(path) && (
        next.after(first) matches Ok(progress) ==> {
            &&& progress matches Progress::Exchange { call, next: last }
            &&& call == (Call::SignMessage { message, path })
            &&& last.after(second) matches Ok(ended) ==> {
                &&& ended matches Progress::Done { result }
                &&& result.derivation_path == derivation_path
                &&& protocol::text_of(second) == Ok::<Seq<char>, Failure>(result.signature)
                &&& protocol::text_of(first) matches Ok(xpub) && keys::returned_address(
                    xpub,
                    network,
                ) == Ok::<Seq<char>, Failure>(result.address)
            }
        }),
{
}

} // verus!
