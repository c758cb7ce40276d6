//! What can go wrong.

use vstd::prelude::*;

verus! {

/// An operation that did not complete.
#[derive(Debug, Clone)]
pub enum JadeError {
    /// The device answered in a way the protocol does not allow.
    ProtocolError { error_details: String },
    /// The link failed while bytes were moving.
    TransportError { error_details: String },
    /// The link could not be opened.
    ConnectionError { error_details: String },
    /// Work on the host itself failed.
    IoError { error_details: String },
    /// The deadline of a request passed.
    Timeout,
    /// The link is closed.
    DeviceDisconnected,
    /// The device holds no wallet yet.
    DeviceUninitialized,
    /// The request is for another network than the device was unlocked for.
    NetworkMismatch { error_details: String },
    /// The firmware is too old for the request.
    UnsupportedFirmware { installed: String, required: String },
    /// The derivation path cannot be used.
    InvalidPath { error_details: String },
    /// The device shows another address than the caller expected.
    AddressMismatch { expected: String, returned: String },
    /// The PSBT does not fit the device's input buffer.
    PsbtTooLarge { size: u64, max: u64 },
    /// The PSBT is one the device would refuse, or not the one that was sent.
    InvalidPsbt { error_details: String },
    /// No key origin of the PSBT belongs to this device.
    FingerprintMismatch { device: String, psbt: String },
    /// The device returned the PSBT without a new signature.
    NothingSigned,
}

/// The mathematical value of a [`JadeError`].
pub enum Failure {
    Protocol(Seq<char>),
    Transport(Seq<char>),
    Connection(Seq<char>),
    Io(Seq<char>),
    Timeout,
    Disconnected,
    Uninitialized,
    Network(Seq<char>),
    Firmware { installed: Seq<char>, required: Seq<char> },
    Path(Seq<char>),
    Address { expected: Seq<char>, returned: Seq<char> },
    TooLarge { size: int, max: int },
    Psbt(Seq<char>),
    Fingerprint { device: Seq<char>, psbt: Seq<char> },
    NothingSigned,
}

impl View for JadeError {
    type V = Failure;

    open spec fn view(&self) -> Failure {
        match self {
            JadeError::ProtocolError { error_details } => Failure::Protocol(error_details@),
            JadeError::TransportError { error_details } => Failure::Transport(error_details@),
            JadeError::ConnectionError { error_details } => Failure::Connection(error_details@),
            JadeError::IoError { error_details } => Failure::Io(error_details@),
            JadeError::Timeout => Failure::Timeout,
            JadeError::DeviceDisconnected => Failure::Disconnected,
            JadeError::DeviceUninitialized => Failure::Uninitialized,
            JadeError::NetworkMismatch { error_details } => Failure::Network(error_details@),
            JadeError::UnsupportedFirmware { installed, required } => Failure::Firmware {
                installed: installed@,
                required: required@,
            },
            JadeError::InvalidPath { error_details } => Failure::Path(error_details@),
            JadeError::AddressMismatch { expected, returned } => Failure::Address {
                expected: expected@,
                returned: returned@,
            },
            JadeError::PsbtTooLarge { size, max } => Failure::TooLarge {
                size: *size as int,
                max: *max as int,
            },
            JadeError::InvalidPsbt { error_details } => Failure::Psbt(error_details@),
            JadeError::FingerprintMismatch { device, psbt } => Failure::Fingerprint {
                device: device@,
                psbt: psbt@,
            },
            JadeError::NothingSigned => Failure::NothingSigned,
        }
    }
}

/// The mathematical value of a result: the view of what it holds.
pub open spec fn outcome<T: View>(r: Result<T, JadeError>) -> Result<T::V, Failure> {
    match r {
        Ok(value) => Ok(value@),
        Err(error) => Err(error@),
    }
}

/// The mathematical value of a result whose error is only a message.
pub open spec fn answer<T: View>(r: Result<T, String>) -> Result<T::V, Seq<char>> {
    match r {
        Ok(value) => Ok(value@),
        Err(message) => Err(message@),
    }
}

impl JadeError {
    /// A [`JadeError::ProtocolError`] with the given details.
    pub fn protocol(error_details: String) -> (r: JadeError)
        ensures
            r@ == Failure::Protocol(error_details@),
    {
        JadeError::ProtocolError { error_details }
    }

    /// A [`JadeError::TransportError`] with the given details.
    pub fn transport(error_details: String) -> (r: JadeError)
        ensures
            r@ == Failure::Transport(error_details@),
    {
        JadeError::TransportError { error_details }
    }
}

} // verus!
