//! Displaying an address on the device.

use vstd::prelude::*;

use crate::client::{self, Jade, Session};
use crate::error::{self, Failure, JadeError};
use crate::path;
use crate::protocol::{self, Call, Datum, Reply, Request, Value};
use crate::text;
use crate::types::{
    self, version_at_least, JadeAddressVariant, JadeNetwork, MIN_JADE_FIRMWARE_TAPROOT,
};

verus! {

/// Whether firmware `version` can display addresses of `variant`.
pub open spec fn firmware_checked(version: Seq<char>, variant: JadeAddressVariant) -> Result<
    (),
    Failure,
> {
    if variant == JadeAddressVariant::Tr && !types::at_least(version, MIN_JADE_FIRMWARE_TAPROOT@) {
        Err(Failure::Firmware { installed: version, required: MIN_JADE_FIRMWARE_TAPROOT@ })
    } else {
        Ok(())
    }
}

/// Whether a path of purpose `purpose`, if it has one, suits `variant`.
pub open spec fn purpose_checked(purpose: Option<u32>, variant: JadeAddressVariant) -> Result<
    (),
    Failure,
> {
    match purpose {
        Some(n) => if n == variant.account_purpose() {
            Ok(())
        } else {
            Err(
                Failure::Path(
                    "path purpose "@ + text::decimal(n as nat) + " does not match the "@
                        + variant.name() + " variant"@,
                ),
            )
        },
        None => Ok(()),
    }
}

/// The request to display an address.
pub open spec fn display_call(
    session: Session,
    network: JadeNetwork,
    variant: JadeAddressVariant,
    derivation_path: Seq<char>,
) -> Result<Call, Failure> {
    match client::network_checked(session.unlocked_network, network) {
        Err(failure) => Err(failure),
        Ok(_) => match firmware_checked(session.version.version, variant) {
            Err(failure) => Err(failure),
            Ok(_) => match purpose_checked(path::purpose_of(derivation_path), variant) {
                Err(failure) => Err(failure),
                Ok(_) => match path::wire_path(derivation_path, false) {
                    Err(failure) => Err(failure),
                    Ok(steps) => Ok(
                        Call::GetReceiveAddress {
                            network: network.name(),
                            variant: variant.name(),
                            path: steps,
                        },
                    ),
                },
            },
        },
    }
}

/// Whether the device shows the expected address.
pub open spec fn address_checked(expected: Seq<char>, reply: Result<Datum, Failure>) -> Result<
    (),
    Failure,
> {
    match protocol::text_of(reply) {
        Err(failure) => Err(failure),
        Ok(returned) => if returned == expected {
            Ok(())
        } else {
            Err(Failure::Address { expected, returned })
        },
    }
}

/// Checks that a path of purpose `purpose`, if it has one, suits `variant`.
///
/// A legacy variant under an `m/84'` path is a caller bug worth catching before
/// the device displays something misleading.
pub fn check_purpose(purpose: Option<u32>, variant: JadeAddressVariant) -> (r: Result<
    (),
    JadeError,
>)
    ensures
        error::outcome(r) == purpose_checked(purpose, variant),
{
    match purpose {
        Some(n) => if n == variant.purpose() {
            Ok(())
        } else {
            let mut details = "path purpose ".to_owned();
            text::push_decimal(&mut details, n as u64);
            let details = text::concat(details.as_str(), " does not match the ");
            let details = text::concat(details.as_str(), variant.wire_name());
            let details = text::concat(details.as_str(), " variant");
            Err(JadeError::InvalidPath { error_details: details })
        },
        None => Ok(()),
    }
}

/// Checks that firmware `version` can display addresses of `variant`.
///
/// Taproot addresses arrived in 1.0.34. Older firmware answers with a generic
/// parameter error, which says nothing useful.
pub fn check_firmware(version: &str, variant: JadeAddressVariant) -> (r: Result<(), JadeError>)
    ensures
        error::outcome(r) == firmware_checked(version@, variant),
{
    if variant == JadeAddressVariant::Tr && !version_at_least(version, MIN_JADE_FIRMWARE_TAPROOT) {
        return Err(
            JadeError::UnsupportedFirmware {
                installed: version.to_owned(),
                required: MIN_JADE_FIRMWARE_TAPROOT.to_owned(),
            },
        );
    }
    Ok(())
}

/// An address on the device's screen, to be compared.
#[derive(Debug)]
pub struct VerifyAddress {
    expected_address: String,
}

impl VerifyAddress {
    /// The address that the caller knows.
    pub closed spec fn expected(&self) -> Seq<char> {
        self.expected_address@
    }

    /// Compares the address that the device shows.
    pub fn on_reply(self, reply: Reply) -> (r: Result<(), JadeError>)
        ensures
            error::outcome(r) == address_checked(self.expected(), error::outcome(reply)),
            r is Ok <==> (reply matches Ok(Value::Text(returned)) && returned@ == self.expected()),
    {
        let returned = match protocol::result_text(reply) {
            Ok(returned) => returned,
            Err(error) => return Err(error),
        };
        if returned != self.expected_address {
            return Err(
                JadeError::AddressMismatch { expected: self.expected_address, returned },
            );
        }
        Ok(())
    }
}

impl Jade {
    /// Displays an address on the device, to check it against
    /// `expected_address`.
    ///
    /// Jade always prompts on screen for this call, so it is a verification step
    /// rather than a way to fetch an address: the caller already knows the
    /// address from the account key. Comparing the two catches corruption and
    /// firmware bugs. A wholly malicious device is still caught by the user
    /// reading the device screen.
    pub fn verify_address(
        &self,
        network: JadeNetwork,
        variant: JadeAddressVariant,
        derivation_path: &str,
        expected_address: &str,
    ) -> (r: Result<(Request, VerifyAddress), JadeError>)
        ensures
            match display_call(self@, network, variant, derivation_path@) {
                Ok(call) => {
                    &&& r matches Ok((request, next))
                    &&& request@ == call
                    &&& next.expected() == expected_address@
                },
                Err(failure) => r matches Err(error) && error@ == failure,
            },
            client::network_checked(self@.unlocked_network, network) is Ok && firmware_checked(
                self@.version.version,
                variant,
            ) is Ok ==> path::read_as_written(derivation_path@),
            forall|steps: Seq<u32>|
                text::trimmed(derivation_path@) == #[trigger] path::path_text(steps) && r is Ok
                    ==> r->Ok_0.0@ == (Call::GetReceiveAddress {
                    network: network.name(),
                    variant: variant.name(),
                    path: steps,
                }),
    {
        match self.check_network(network) {
            Ok(_) => {},
            Err(error) => return Err(error),
        }
        match check_firmware(self.version_info().jade_version.as_str(), variant) {
            Ok(_) => {},
            Err(error) => return Err(error),
        }
        match check_purpose(path::purpose(derivation_path), variant) {
            Ok(_) => {},
            Err(error) => return Err(error),
        }
        let steps = match path::to_wire(derivation_path, false) {
            Ok(steps) => steps,
            Err(error) => return Err(error),
        };
        let request = Request::GetReceiveAddress {
            network: network.wire_name(),
            variant: variant.wire_name(),
            path: steps,
        };
        Ok((request, VerifyAddress { expected_address: expected_address.to_owned() }))
    }
}

/// Firmware that can display addresses of a variant goes on to do so in every
/// later version.
pub proof fn later_firmware_suffices(
    earlier: Seq<char>,
    later: Seq<char>,
    variant: JadeAddressVariant,
)
    requires
        firmware_checked(earlier, variant) is Ok,
        types::at_least(later, earlier),
    ensures
        firmware_checked(later, variant) is Ok,
{
    if variant == JadeAddressVariant::Tr {
        types::version_order_transitive(later, earlier, MIN_JADE_FIRMWARE_TAPROOT@);
    }
}

} // verus!
