//! Fetching one extended public key.

use vstd::prelude::*;

use crate::client::{self, Jade, Progress, Step};
use crate::error::{self, Failure, JadeError};
use crate::keys;
use crate::path;
use crate::protocol::{self, Call, Datum, Reply};
use crate::text;
use crate::types::{JadeNetwork, JadeXpubResponse, XpubResponse};

verus! {

/// A request for an extended public key, under way.
#[derive(Debug)]
pub enum GetXpub {
    /// Waits for the key that the master fingerprint is taken from.
    AwaitingFingerprint { network: JadeNetwork, derivation_path: String },
    /// Waits for the requested key.
    AwaitingKey { derivation_path: String, master_fingerprint: String },
}

/// The mathematical value of a [`GetXpub`].
pub enum Fetch {
    AwaitingFingerprint { network: JadeNetwork, derivation_path: Seq<char> },
    AwaitingKey { derivation_path: Seq<char>, master_fingerprint: Seq<char> },
}

impl View for GetXpub {
    type V = Fetch;

    open spec fn view(&self) -> Fetch {
        match self {
            GetXpub::AwaitingFingerprint { network, derivation_path } => {
                Fetch::AwaitingFingerprint {
                    network: *network,
                    derivation_path: derivation_path@,
                }
            },
            GetXpub::AwaitingKey { derivation_path, master_fingerprint } => {
                Fetch::AwaitingKey {
                    derivation_path: derivation_path@,
                    master_fingerprint: master_fingerprint@,
                }
            },
        }
    }
}

/// How a fetch begins on a device that is unlocked for `unlocked`.
pub open spec fn fetch_begun(
    unlocked: Option<JadeNetwork>,
    network: JadeNetwork,
    derivation_path: Seq<char>,
) -> Result<Progress<Fetch, XpubResponse>, Failure> {
    match client::network_checked(unlocked, network) {
        Err(failure) => Err(failure),
        Ok(_) => Ok(
            Progress::Exchange {
                call: client::master_child_call(network),
                next: Fetch::AwaitingFingerprint { network, derivation_path },
            },
        ),
    }
}

impl Fetch {
    /// How the fetch goes on after a reply.
    pub open spec fn after(self, reply: Result<Datum, Failure>) -> Result<
        Progress<Fetch, XpubResponse>,
        Failure,
    > {
        match self {
            Fetch::AwaitingFingerprint { network, derivation_path } => {
                match client::fingerprint_text_of(reply) {
                    Err(failure) => Err(failure),
                    Ok(master_fingerprint) => {
                        match client::xpub_call(network, derivation_path, false) {
                            Err(failure) => Err(failure),
                            Ok(call) => Ok(
                                Progress::Exchange {
                                    call,
                                    next: Fetch::AwaitingKey {
                                        derivation_path,
                                        master_fingerprint,
                                    },
                                },
                            ),
                        }
                    },
                }
            },
            Fetch::AwaitingKey { derivation_path, master_fingerprint } => {
                match protocol::text_of(reply) {
                    Err(failure) => Err(failure),
                    Ok(xpub) => match keys::xpub_verified(xpub, derivation_path) {
                        Err(failure) => Err(failure),
                        Ok(_) => Ok(
                            Progress::Done {
                                result: XpubResponse {
                                    xpub,
                                    derivation_path,
                                    master_fingerprint,
                                },
                            },
                        ),
                    },
                }
            },
        }
    }
}

impl Jade {
    /// Fetches an extended public key, echoed back with the request it answers.
    pub fn get_xpub(&self, network: JadeNetwork, derivation_path: &str) -> (r: Result<
        Step<GetXpub, JadeXpubResponse>,
        JadeError,
    >)
        ensures
            error::outcome(r) == fetch_begun(self@.unlocked_network, network, derivation_path@),
    {
        match self.master_fingerprint(network) {
            Ok(request) => Ok(
                Step::Exchange {
                    request,
                    next: GetXpub::AwaitingFingerprint {
                        network,
                        derivation_path: derivation_path.to_owned(),
                    },
                },
            ),
            Err(error) => Err(error),
        }
    }
}

impl GetXpub {
    /// Takes the reply to the last request.
    pub fn on_reply(self, reply: Reply) -> (r: Result<Step<GetXpub, JadeXpubResponse>, JadeError>)
        ensures
            error::outcome(r) == self@.after(error::outcome(reply)),
            match self@ {
                Fetch::AwaitingFingerprint { derivation_path, .. } => client::fingerprint_of(
                    error::outcome(reply),
                ) is Ok ==> path::read_as_written(derivation_path),
                Fetch::AwaitingKey { derivation_path, .. } => protocol::text_of(
                    error::outcome(reply),
                ) is Ok ==> path::read_as_written(derivation_path),
            },
            forall|steps: Seq<u32>|
                self@ is AwaitingFingerprint && text::trimmed(
                    self@->AwaitingFingerprint_derivation_path,
                ) == #[trigger] path::path_text(steps) && r is Ok ==> (r->Ok_0@ matches
                    Progress::Exchange { call: Call::GetXpub { path, .. }, .. } && path == steps),
    {
        match self {
            GetXpub::AwaitingFingerprint { network, derivation_path } => {
                let master_fingerprint = match client::read_fingerprint_text(reply) {
                    Ok(fingerprint) => fingerprint,
                    Err(error) => return Err(error),
                };
                match client::xpub_request(network, derivation_path.as_str(), false) {
                    Ok(request) => Ok(
                        Step::Exchange {
                            request,
                            next: GetXpub::AwaitingKey { derivation_path, master_fingerprint },
                        },
                    ),
                    Err(error) => Err(error),
                }
            },
            GetXpub::AwaitingKey { derivation_path, master_fingerprint } => {
                let xpub = match protocol::result_text(reply) {
                    Ok(xpub) => xpub,
                    Err(error) => return Err(error),
                };
                match keys::verify_xpub(xpub.as_str(), derivation_path.as_str()) {
                    Ok(_) => Ok(
                        Step::Done {
                            result: JadeXpubResponse { xpub, derivation_path, master_fingerprint },
                        },
                    ),
                    Err(error) => Err(error),
                }
            },
        }
    }
}

/// A key is returned with the path it was asked for and the master fingerprint
/// of the device, both as this session saw them, and it is a key that lies as
/// deep as the path leads.
pub proof fn xpub_answers_request(
    unlocked: Option<JadeNetwork>,
    network: JadeNetwork,
    derivation_path: Seq<char>,
    first: Result<Datum, Failure>,
    second: Result<Datum, Failure>,
)
    requires
        fetch_begun(unlocked, network, derivation_path) is Ok,
    ensures
        fetch_begun(unlocked, network, derivation_path) matches Ok(Progress::Exchange { next, .. })
            && (next.after(first) matches Ok(Progress::Exchange { call, next: last }) ==> {
            &&& client::xpub_call(network, derivation_path, false) == Ok::<Call, Failure>(call)
            &&& last.after(second) matches Ok(progress) ==> {
                &&& progress matches Progress::Done { result }
                &&& result.derivation_path == derivation_path
                &&& client::fingerprint_text_of(first) == Ok::<Seq<char>, Failure>(
                    result.master_fingerprint,
                )
                &&& protocol::text_of(second) == Ok::<Seq<char>, Failure>(result.xpub)
                &&& keys::xpub_verified(result.xpub, derivation_path) is Ok
            }
        }),
{
}

} // verus!
