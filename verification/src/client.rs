//! The device session.
//!
//! [`Jade`] is what the host remembers of one device between operations. It
//! does no input or output itself: an operation yields the [`Request`] to send,
//! and takes what became of it. Whoever drives the session sends one request,
//! waits for its reply and only then goes on, which is the order Jade's
//! firmware insists on.

use std::sync::atomic::AtomicBool;
use std::sync::Arc;

use vstd::prelude::*;

use crate::entropy;
use crate::error::{self, Failure, JadeError};
use crate::keys;
use crate::path;
use crate::protocol::{self, Call, Datum, Reply, Request, Value, VersionReply};
use crate::text;
use crate::transport::{CancelHandle, JadeConnection};
use crate::types::{JadeNetwork, JadePingStatus, JadeState, JadeVersionInfo, Version};

verus! {

/// An open session with a Jade device.
pub struct Jade {
    connection: JadeConnection,
    version: JadeVersionInfo,
    unlocked_network: Option<JadeNetwork>,
}

/// The mathematical value of a [`Jade`].
pub struct Session {
    /// The version summary, as of the last read.
    pub version: Version,
    /// The network the device was unlocked for.
    pub unlocked_network: Option<JadeNetwork>,
}

impl View for Jade {
    type V = Session;

    closed spec fn view(&self) -> Session {
        Session { version: self.version@, unlocked_network: self.unlocked_network }
    }
}

impl Session {
    /// The session once the device is unlocked for `network`.
    pub open spec fn unlocked_for(self, network: JadeNetwork) -> Session {
        Session { unlocked_network: Some(network), ..self }
    }

    /// The session once the device is locked.
    pub open spec fn logged_out(self) -> Session {
        Session { unlocked_network: None, ..self }
    }

    /// The session after the version summary was read again, if it was.
    pub open spec fn reread(self, summary: Result<Version, Failure>) -> Session {
        match summary {
            Ok(version) => Session { version, ..self },
            Err(_) => self,
        }
    }
}

/// What an operation wants next: a request sent, or nothing more.
pub enum Step<S, T> {
    /// Send the request, and hand what became of it to `next`.
    Exchange { request: Request, next: S },
    /// The operation is complete.
    Done { result: T },
}

/// The mathematical value of a [`Step`].
pub enum Progress<S, T> {
    Exchange { call: Call, next: S },
    Done { result: T },
}

impl<S: View, T: View> View for Step<S, T> {
    type V = Progress<S::V, T::V>;

    open spec fn view(&self) -> Progress<S::V, T::V> {
        match self {
            Step::Exchange { request, next } => Progress::Exchange { call: request@, next: next@ },
            Step::Done { result } => Progress::Done { result: result@ },
        }
    }
}

/// Whether a request for `network` suits a device that is unlocked for
/// `unlocked`.
pub open spec fn network_checked(unlocked: Option<JadeNetwork>, network: JadeNetwork) -> Result<
    (),
    Failure,
> {
    match unlocked {
        Some(other) => if other == network {
            Ok(())
        } else {
            Err(
                Failure::Network(
                    "the device was unlocked for "@ + other.name() + " but the request is for "@
                        + network.name(),
                ),
            )
        },
        None => Ok(()),
    }
}

/// The request for the key at `path`.
pub open spec fn xpub_call(network: JadeNetwork, path: Seq<char>, allow_master: bool) -> Result<
    Call,
    Failure,
> {
    match path::wire_path(path, allow_master) {
        Ok(steps) => Ok(Call::GetXpub { network: network.name(), path: steps }),
        Err(failure) => Err(failure),
    }
}

/// The request that the master fingerprint is taken from: the key at `m/0'`.
pub open spec fn master_child_call(network: JadeNetwork) -> Call {
    Call::GetXpub { network: network.name(), path: seq![path::HARDENED] }
}

/// The master fingerprint in the reply to [`master_child_call`].
pub open spec fn fingerprint_of(reply: Result<Datum, Failure>) -> Result<u32, Failure> {
    match protocol::text_of(reply) {
        Err(failure) => Err(failure),
        Ok(xpub) => match keys::returned_key(xpub) {
            Err(failure) => Err(failure),
            Ok(key) => Ok(key.parent_fingerprint),
        },
    }
}

/// The master fingerprint in a reply, as text.
pub open spec fn fingerprint_text_of(reply: Result<Datum, Failure>) -> Result<Seq<char>, Failure> {
    match fingerprint_of(reply) {
        Ok(n) => Ok(text::fingerprint(n)),
        Err(failure) => Err(failure),
    }
}

/// The request for the key at `path`.
pub fn xpub_request(network: JadeNetwork, path: &str, allow_master: bool) -> (r: Result<
    Request,
    JadeError,
>)
    ensures
        error::outcome(r) == xpub_call(network, path@, allow_master),
        path::read_as_written(path@),
        forall|steps: Seq<u32>|
            text::trimmed(path@) == #[trigger] path::path_text(steps) && steps.len() > 0 ==> r is Ok
                && r->Ok_0@ == (Call::GetXpub { network: network.name(), path: steps }),
{
    match path::to_wire(path, allow_master) {
        Ok(steps) => Ok(Request::GetXpub { network: network.wire_name(), path: steps }),
        Err(error) => Err(error),
    }
}

/// The request that the master fingerprint is taken from.
fn master_child_request(network: JadeNetwork) -> (r: Request)
    ensures
        r@ == master_child_call(network),
{
    proof {
        reveal_strlit("m/0'");
        reveal_strlit("m");
        reveal_strlit("/");
        reveal_strlit("'");
        let steps = seq![path::HARDENED];
        assert(steps.drop_last() =~= Seq::empty());
        assert(path::path_text(steps.drop_last()) == "m"@);
        assert(path::path_text(steps) =~= "m/0'"@);
        assert(text::trimmed("m/0'"@) == "m/0'"@);
    }
    let steps = path::to_wire("m/0'", false);
    Request::GetXpub { network: network.wire_name(), path: steps.unwrap() }
}

/// The master fingerprint in the reply to [`Jade::master_fingerprint`].
pub fn read_fingerprint(reply: Reply) -> (r: Result<u32, JadeError>)
    ensures
        error::outcome(r) == fingerprint_of(error::outcome(reply)),
        reply matches Ok(Value::Text(xpub)) ==> (keys::extended_key(xpub@) matches Ok(key) ==> r
            == Ok::<u32, JadeError>(key.parent_fingerprint)),
{
    let xpub = match protocol::result_text(reply) {
        Ok(xpub) => xpub,
        Err(error) => return Err(error),
    };
    match keys::read_key(xpub.as_str()) {
        Ok(key) => Ok(key.parent_fingerprint),
        Err(error) => Err(error),
    }
}

/// The master fingerprint in the reply to [`Jade::master_fingerprint`], eight
/// lowercase hexadecimal characters.
pub fn read_fingerprint_text(reply: Reply) -> (r: Result<String, JadeError>)
    ensures
        error::outcome(r) == fingerprint_text_of(error::outcome(reply)),
{
    match read_fingerprint(reply) {
        Ok(n) => Ok(text::fingerprint_text(n)),
        Err(error) => Err(error),
    }
}

/// A session that waits for the device's version summary.
pub struct Connecting {
    connection: JadeConnection,
}

/// A session that waits for the device to take the host's entropy.
pub struct Contributing {
    connection: JadeConnection,
    version: JadeVersionInfo,
}

impl Connecting {
    /// The flag that the link is aborted by.
    pub closed spec fn flag(&self) -> Arc<AtomicBool> {
        self.connection.flag()
    }

    /// Takes the version summary, and contributes entropy.
    pub fn on_version(self, reply: VersionReply) -> (r: Result<(Request, Contributing), JadeError>)
        ensures
            match r {
                Ok((request, next)) => {
                    &&& reply.summary() == Ok::<Version, Failure>(next.version())
                    &&& next.flag() == self.flag()
                    &&& request@ matches Call::AddEntropy { entropy } && entropy.len()
                        == entropy::ENTROPY_BYTES == 32
                },
                Err(error) => match reply.summary() {
                    Err(failure) => error@ == failure,
                    Ok(_) => error@ == Failure::Io("the operating system has no entropy"@),
                },
            },
    {
        match protocol::read_version(reply) {
            Ok(version) => self.contribute(version, entropy::fresh()),
            Err(error) => Err(error),
        }
    }

    /// Contributes `entropy`, if there is any, to the device's pool.
    pub fn contribute(self, version: JadeVersionInfo, entropy: Result<Vec<u8>, JadeError>) -> (r:
        Result<(Request, Contributing), JadeError>)
        ensures
            match (r, entropy) {
                (Ok((request, next)), Ok(entropy)) => {
                    &&& request@ == Call::AddEntropy { entropy: entropy@ }
                    &&& next.version() == version@
                    &&& next.flag() == self.flag()
                },
                (Err(error), Err(cause)) => error@ == cause@,
                _ => false,
            },
    {
        match entropy {
            Ok(entropy) => Ok(
                (
                    Request::AddEntropy { entropy },
                    Contributing { connection: self.connection, version },
                ),
            ),
            Err(error) => Err(error),
        }
    }
}

impl Contributing {
    /// The flag that the link is aborted by.
    pub closed spec fn flag(&self) -> Arc<AtomicBool> {
        self.connection.flag()
    }

    /// The version summary that was read.
    pub closed spec fn version(&self) -> Version {
        self.version@
    }

    /// Takes the device's reply, and opens the session.
    pub fn on_reply(self, reply: Reply) -> (r: Result<Jade, JadeError>)
        ensures
            match protocol::bool_of(error::outcome(reply)) {
                Err(failure) => r matches Err(error) && error@ == failure,
                Ok(_) => {
                    &&& r matches Ok(jade)
                    &&& jade.flag() == self.flag()
                    &&& jade@ == (Session { version: self.version(), unlocked_network: None })
                },
            },
    {
        match protocol::result_bool(reply) {
            Ok(_) => Ok(
                Jade {
                    connection: self.connection,
                    version: self.version,
                    unlocked_network: None,
                },
            ),
            Err(error) => Err(error),
        }
    }
}

/// An unlock that waits on the pinserver exchange.
pub struct Unlocking {
    network: JadeNetwork,
}

impl Unlocking {
    /// The network to unlock for.
    pub closed spec fn for_network(&self) -> JadeNetwork {
        self.network
    }

    /// The network to unlock for.
    pub fn network(&self) -> (r: JadeNetwork)
        ensures
            r == self.for_network(),
    {
        self.network
    }
}

impl Jade {
    /// The flag that the link is aborted by.
    pub closed spec fn flag(&self) -> Arc<AtomicBool> {
        self.connection.flag()
    }

    /// Opens a device over a link that is aborted by `aborted`.
    ///
    /// Reads the version summary and contributes 32 bytes of host entropy to the
    /// device's pool. [`Jade::version_info`] then says what to do next:
    /// [`JadeState::Locked`] means call [`Jade::unlock_with`],
    /// [`JadeState::Ready`] means the device is already usable, and
    /// [`JadeState::Uninit`] means the user has to create or restore a wallet on
    /// the device itself, which cannot be driven from here.
    pub fn connect(aborted: Arc<AtomicBool>) -> (r: (Request, Connecting))
        ensures
            r.0@ == Call::GetVersionInfo,
            r.1.flag() == aborted,
    {
        (Request::GetVersionInfo, Connecting { connection: JadeConnection::new(aborted) })
    }

    /// The version summary, as of the last read.
    pub fn version_info(&self) -> (r: &JadeVersionInfo)
        ensures
            r@ == self@.version,
    {
        &self.version
    }

    /// The network the device was unlocked for, if it has been unlocked.
    pub fn unlocked_network(&self) -> (r: Option<JadeNetwork>)
        ensures
            r == self@.unlocked_network,
    {
        self.unlocked_network
    }

    /// A handle that can abort an operation from another task.
    pub fn cancel_handle(&self) -> (r: CancelHandle)
        ensures
            r.flag() == self.flag(),
    {
        self.connection.cancel_handle()
    }

    /// Asks for the version summary, which [`Jade::refresh_version_info`] takes
    /// from the reply.
    pub fn request_version_info(&self) -> (r: Request)
        ensures
            r@ == Call::GetVersionInfo,
    {
        Request::GetVersionInfo
    }

    /// Takes a newly read version summary. A failed read leaves the session as
    /// it was.
    pub fn refresh_version_info(&mut self, reply: VersionReply) -> (r: Result<
        &JadeVersionInfo,
        JadeError,
    >)
        ensures
            final(self).flag() == old(self).flag(),
            final(self)@ == old(self)@.reread(reply.summary()),
            match reply.summary() {
                Ok(version) => r matches Ok(info) && info@ == version,
                Err(failure) => r matches Err(error) && error@ == failure,
            },
    {
        match protocol::read_version(reply) {
            Ok(version) => {
                self.version = version;
                Ok(&self.version)
            },
            Err(error) => Err(error),
        }
    }

    /// Asks whether the device is idle, busy, or waiting on the user.
    pub fn ping(&self) -> (r: Request)
        ensures
            r@ == Call::Ping,
    {
        Request::Ping
    }

    /// What the reply to [`Jade::ping`] reports.
    pub fn on_ping(&self, reply: Reply) -> (r: Result<JadePingStatus, JadeError>)
        ensures
            error::outcome(r) == protocol::status_of(error::outcome(reply)),
    {
        protocol::result_status(reply)
    }

    /// Unlocks the device for `network`.
    ///
    /// A device with no wallet starts an on-device setup flow that can take
    /// minutes and cannot be driven from here, so it is refused. Any other is
    /// unlocked by the pinserver exchange, whose end [`Jade::on_unlocked`]
    /// takes.
    pub fn unlock_with(&self, network: JadeNetwork) -> (r: Result<Unlocking, JadeError>)
        ensures
            match r {
                Ok(unlocking) => self@.version.state != JadeState::Uninit
                    && unlocking.for_network() == network,
                Err(error) => self@.version.state == JadeState::Uninit && error@
                    == Failure::Uninitialized,
            },
    {
        if self.version.jade_state == JadeState::Uninit {
            return Err(JadeError::DeviceUninitialized);
        }
        Ok(Unlocking { network })
    }

    /// Takes the end of the pinserver exchange, and re-reads the version
    /// summary, whose state still reads locked until [`Jade::on_reread`].
    pub fn on_unlocked(&mut self, unlocking: Unlocking, exchange: Result<(), JadeError>) -> (r:
        Result<Request, JadeError>)
        ensures
            final(self).flag() == old(self).flag(),
            match exchange {
                Ok(_) => {
                    &&& r matches Ok(request)
                    &&& request@ == Call::GetVersionInfo
                    &&& final(self)@ == old(self)@.unlocked_for(unlocking.for_network())
                },
                Err(cause) => {
                    &&& r matches Err(error)
                    &&& error@ == cause@
                    &&& final(self)@ == old(self)@
                },
            },
    {
        match exchange {
            Ok(_) => {
                self.unlocked_network = Some(unlocking.network);
                Ok(self.request_version_info())
            },
            Err(error) => Err(error),
        }
    }

    /// Locks the device and zeroes its in-memory key material.
    pub fn logout(&self) -> (r: Request)
        ensures
            r@ == Call::Logout,
    {
        Request::Logout
    }

    /// Takes the reply to [`Jade::logout`], and re-reads the version summary for
    /// [`Jade::on_reread`].
    pub fn on_logout(&mut self, reply: Reply) -> (r: Result<Request, JadeError>)
        ensures
            final(self).flag() == old(self).flag(),
            match protocol::bool_of(error::outcome(reply)) {
                Ok(_) => {
                    &&& r matches Ok(request)
                    &&& request@ == Call::GetVersionInfo
                    &&& final(self)@ == old(self)@.logged_out()
                },
                Err(failure) => {
                    &&& r matches Err(error)
                    &&& error@ == failure
                    &&& final(self)@ == old(self)@
                },
            },
    {
        match protocol::result_bool(reply) {
            Ok(_) => {
                self.unlocked_network = None;
                Ok(self.request_version_info())
            },
            Err(error) => Err(error),
        }
    }

    /// Takes the reply to the request of [`Jade::on_unlocked`] or
    /// [`Jade::on_logout`].
    ///
    /// The device is unlocked or locked by then, so a failed read is no failure
    /// of the operation: it leaves the summary as it was.
    pub fn on_reread(&mut self, reply: VersionReply)
        ensures
            final(self).flag() == old(self).flag(),
            final(self)@ == old(self)@.reread(reply.summary()),
    {
        match protocol::read_version(reply) {
            Ok(version) => {
                self.version = version;
            },
            Err(_) => {},
        }
    }

    /// Checks a requested network against the one that was unlocked.
    pub fn check_network(&self, network: JadeNetwork) -> (r: Result<(), JadeError>)
        ensures
            error::outcome(r) == network_checked(self@.unlocked_network, network),
    {
        match self.unlocked_network {
            Some(unlocked) => if unlocked == network {
                Ok(())
            } else {
                let details = text::concat("the device was unlocked for ", unlocked.wire_name());
                let details = text::concat(details.as_str(), " but the request is for ");
                let details = text::concat(details.as_str(), network.wire_name());
                Err(JadeError::NetworkMismatch { error_details: details })
            },
            None => Ok(()),
        }
    }

    /// Asks for the device's master fingerprint, which
    /// [`read_fingerprint_text`] takes from the reply.
    ///
    /// It is the parent fingerprint of `m/0'`. Requesting the master key itself
    /// would rely on the device accepting an empty path.
    pub fn master_fingerprint(&self, network: JadeNetwork) -> (r: Result<Request, JadeError>)
        ensures
            error::outcome(r) == match network_checked(self@.unlocked_network, network) {
                Ok(_) => Ok(master_child_call(network)),
                Err(failure) => Err(failure),
            },
    {
        match self.check_network(network) {
            Ok(_) => Ok(master_child_request(network)),
            Err(error) => Err(error),
        }
    }
}

/// A device that was unlocked for one network accepts requests for that network
/// and no other; one that was not unlocked is not bound to any.
pub proof fn unlocked_network_binds(unlocked: JadeNetwork, requested: JadeNetwork)
    ensures
        network_checked(Some(unlocked), requested) is Ok <==> requested == unlocked,
        network_checked(None, requested) is Ok,
{
}

/// What an unlock or a logout did to the session outlives the version summary
/// being read again, whether that read succeeds or not.
pub proof fn reread_keeps_the_network(
    session: Session,
    network: JadeNetwork,
    summary: Result<Version, Failure>,
)
    ensures
        session.unlocked_for(network).reread(summary).unlocked_network == Some(network),
        session.logged_out().reread(summary).unlocked_network is None,
        summary is Err ==> session.unlocked_for(network).reread(summary) == session.unlocked_for(
            network,
        ),
        summary is Err ==> session.logged_out().reread(summary) == session.logged_out(),
{
}

/// The master fingerprint is reported as eight lowercase hexadecimal
/// characters.
pub proof fn master_fingerprint_characters(reply: Result<Datum, Failure>)
    ensures
        fingerprint_text_of(reply) matches Ok(fingerprint) ==> {
            &&& fingerprint.len() == 8
            &&& forall|i: int|
                0 <= i < 8 ==> {
                    let c = #[trigger] fingerprint[i];
                    '0' <= c <= '9' || 'a' <= c <= 'f'
                }
        },
{
    if let Ok(n) = fingerprint_of(reply) {
        text::fingerprint_characters(n);
    }
}

} // verus!
