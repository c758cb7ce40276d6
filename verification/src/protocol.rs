//! Requests to the device and the values it replies with.

use vstd::prelude::*;

use crate::error::{self, Failure, JadeError};
use crate::text;
use crate::types::{JadePingStatus, JadeVersionInfo, Version, WireVersionInfo};

verus! {

/// Seconds to wait for calls the device answers on its own.
pub const QUICK_TIMEOUT_SECS: u64 = 60;

/// Seconds to wait for calls that wait on a physical button press.
pub const CONFIRM_TIMEOUT_SECS: u64 = 300;

/// A request, with the parameters that go on the wire.
#[derive(Debug, Clone)]
pub enum Request {
    GetVersionInfo,
    AddEntropy { entropy: Vec<u8> },
    Ping,
    Logout,
    GetXpub { network: &'static str, path: Vec<u32> },
    GetReceiveAddress { network: &'static str, variant: &'static str, path: Vec<u32> },
    SignMessage { message: String, path: Vec<u32> },
    SignPsbt { network: &'static str, psbt: Vec<u8> },
}

/// The mathematical value of a [`Request`].
pub enum Call {
    GetVersionInfo,
    AddEntropy { entropy: Seq<u8> },
    Ping,
    Logout,
    GetXpub { network: Seq<char>, path: Seq<u32> },
    GetReceiveAddress { network: Seq<char>, variant: Seq<char>, path: Seq<u32> },
    SignMessage { message: Seq<char>, path: Seq<u32> },
    SignPsbt { network: Seq<char>, psbt: Seq<u8> },
}

impl View for Request {
    type V = Call;

    open spec fn view(&self) -> Call {
        match self {
            Request::GetVersionInfo => Call::GetVersionInfo,
            Request::AddEntropy { entropy } => Call::AddEntropy { entropy: entropy@ },
            Request::Ping => Call::Ping,
            Request::Logout => Call::Logout,
            Request::GetXpub { network, path } => Call::GetXpub {
                network: network@,
                path: path@,
            },
            Request::GetReceiveAddress { network, variant, path } => Call::GetReceiveAddress {
                network: network@,
                variant: variant@,
                path: path@,
            },
            Request::SignMessage { message, path } => Call::SignMessage {
                message: message@,
                path: path@,
            },
            Request::SignPsbt { network, psbt } => Call::SignPsbt {
                network: network@,
                psbt: psbt@,
            },
        }
    }
}

impl Call {
    /// The method's name on the wire.
    pub open spec fn method_name(self) -> Seq<char> {
        match self {
            Call::GetVersionInfo => "get_version_info"@,
            Call::AddEntropy { .. } => "add_entropy"@,
            Call::Ping => "ping"@,
            Call::Logout => "logout"@,
            Call::GetXpub { .. } => "get_xpub"@,
            Call::GetReceiveAddress { .. } => "get_receive_address"@,
            Call::SignMessage { .. } => "sign_message"@,
            Call::SignPsbt { .. } => "sign_psbt"@,
        }
    }

    /// Whether the device waits on a physical button press to answer.
    pub open spec fn waits_on_user(self) -> bool {
        self is GetReceiveAddress || self is SignMessage || self is SignPsbt
    }
}

impl Request {
    /// The method's name on the wire.
    pub fn method(&self) -> (r: &'static str)
        ensures
            r@ == self@.method_name(),
    {
        match self {
            Request::GetVersionInfo => "get_version_info",
            Request::AddEntropy { .. } => "add_entropy",
            Request::Ping => "ping",
            Request::Logout => "logout",
            Request::GetXpub { .. } => "get_xpub",
            Request::GetReceiveAddress { .. } => "get_receive_address",
            Request::SignMessage { .. } => "sign_message",
            Request::SignPsbt { .. } => "sign_psbt",
        }
    }

    /// How long to wait for the reply, in seconds.
    pub fn timeout_secs(&self) -> (r: u64)
        ensures
            r == if self@.waits_on_user() {
                CONFIRM_TIMEOUT_SECS
            } else {
                QUICK_TIMEOUT_SECS
            },
            r == if self@ is GetReceiveAddress || self@ is SignMessage || self@ is SignPsbt {
                300u64
            } else {
                60u64
            },
    {
        match self {
            Request::GetReceiveAddress { .. } => CONFIRM_TIMEOUT_SECS,
            Request::SignMessage { .. } => CONFIRM_TIMEOUT_SECS,
            Request::SignPsbt { .. } => CONFIRM_TIMEOUT_SECS,
            _ => QUICK_TIMEOUT_SECS,
        }
    }
}

/// A value in a reply.
#[derive(Debug, Clone)]
pub enum Value {
    Integer(i128),
    Bool(bool),
    Text(String),
    Bytes(Vec<u8>),
    /// A value of a kind that no reply handled here consists of.
    Other,
}

/// The mathematical value of a [`Value`].
pub enum Datum {
    Integer(int),
    Bool(bool),
    Text(Seq<char>),
    Bytes(Seq<u8>),
    Other,
}

impl View for Value {
    type V = Datum;

    open spec fn view(&self) -> Datum {
        match self {
            Value::Integer(n) => Datum::Integer(*n as int),
            Value::Bool(b) => Datum::Bool(*b),
            Value::Text(s) => Datum::Text(s@),
            Value::Bytes(b) => Datum::Bytes(b@),
            Value::Other => Datum::Other,
        }
    }
}

/// What became of a request: the value in the device's reply, or the failure
/// to get one.
pub type Reply = Result<Value, JadeError>;

/// The text that a reply consists of.
pub open spec fn text_of(reply: Result<Datum, Failure>) -> Result<Seq<char>, Failure> {
    match reply {
        Err(failure) => Err(failure),
        Ok(Datum::Text(s)) => Ok(s),
        Ok(_) => Err(Failure::Protocol("expected a text result"@)),
    }
}

/// The truth value that a reply consists of.
pub open spec fn bool_of(reply: Result<Datum, Failure>) -> Result<bool, Failure> {
    match reply {
        Err(failure) => Err(failure),
        Ok(Datum::Bool(b)) => Ok(b),
        Ok(_) => Err(Failure::Protocol("expected a boolean result"@)),
    }
}

/// The status that a reply to a ping reports.
pub open spec fn status_of(reply: Result<Datum, Failure>) -> Result<JadePingStatus, Failure> {
    match reply {
        Err(failure) => Err(failure),
        Ok(Datum::Integer(n)) => if 0 <= n <= u64::MAX {
            Ok(JadePingStatus::numbered(n))
        } else {
            Err(Failure::Protocol("expected an integer ping result"@))
        },
        Ok(_) => Err(Failure::Protocol("expected an integer ping result"@)),
    }
}

/// The text that a reply consists of.
pub fn result_text(reply: Reply) -> (r: Result<String, JadeError>)
    ensures
        error::outcome(r) == text_of(error::outcome(reply)),
{
    match reply {
        Err(error) => Err(error),
        Ok(Value::Text(s)) => Ok(s),
        Ok(_) => Err(JadeError::protocol("expected a text result".to_owned())),
    }
}

/// The truth value that a reply consists of.
pub fn result_bool(reply: Reply) -> (r: Result<bool, JadeError>)
    ensures
        error::outcome(r) == bool_of(error::outcome(reply)),
{
    match reply {
        Err(error) => Err(error),
        Ok(Value::Bool(b)) => Ok(b),
        Ok(_) => Err(JadeError::protocol("expected a boolean result".to_owned())),
    }
}

/// The status that a reply to a ping reports.
pub fn result_status(reply: Reply) -> (r: Result<JadePingStatus, JadeError>)
    ensures
        error::outcome(r) == status_of(error::outcome(reply)),
{
    match reply {
        Err(error) => Err(error),
        Ok(Value::Integer(n)) => if 0 <= n && n <= u64::MAX as i128 {
            Ok(JadePingStatus::from_wire(n as u64))
        } else {
            Err(JadeError::protocol("expected an integer ping result".to_owned()))
        },
        Ok(_) => Err(JadeError::protocol("expected an integer ping result".to_owned())),
    }
}

/// What became of a request for the version summary.
#[derive(Debug, Clone)]
pub enum VersionReply {
    /// The device sent a summary.
    Summary(WireVersionInfo),
    /// The device sent something else; the message says what is wrong with it.
    Malformed(String),
    /// There was no reply, or the device replied with an error.
    Failed(JadeError),
}

impl VersionReply {
    /// The summary, or why there is none.
    pub open spec fn summary(self) -> Result<Version, Failure> {
        match self {
            VersionReply::Summary(wire) => Ok(wire@),
            VersionReply::Malformed(message) => Err(
                Failure::Protocol("unexpected get_version_info reply: "@ + message@),
            ),
            VersionReply::Failed(error) => Err(error@),
        }
    }
}

/// The version summary that a reply holds.
pub fn read_version(reply: VersionReply) -> (r: Result<JadeVersionInfo, JadeError>)
    ensures
        error::outcome(r) == reply.summary(),
{
    match reply {
        VersionReply::Summary(wire) => Ok(JadeVersionInfo::from_wire(wire)),
        VersionReply::Malformed(message) => Err(
            JadeError::protocol(
                text::concat("unexpected get_version_info reply: ", message.as_str()),
            ),
        ),
        VersionReply::Failed(error) => Err(error),
    }
}

} // verus!
