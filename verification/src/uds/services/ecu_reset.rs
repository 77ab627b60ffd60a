//! ECU Reset.

use vstd::prelude::*;
use vstd::std_specs::convert::{FromSpec, FromSpecImpl};
use crate::uds::client::{failure_of, verdict_for, Reply, Step, UdsClient, Verdict};
use crate::uds::error::{Failure, UdsError};
use crate::uds::pdus::ecu_reset::{ResetRequest, ResetResponse, SID_RESET_REQ};
use crate::uds::pdus::{answer, RxPdu, TxPdu};
use crate::uds::text::{decimal, push_decimal};

verus! {

/// The kinds of reset that a server performs. `Other` stands for every kind
/// that has no name here.
#[derive(Debug, Clone, Copy, PartialEq, Eq, Structural)]
pub enum ResetType {
    Hard,
    KeyOffOn,
    EnableRapidPowerShutdown,
    DisableRapidPowerShutdown,
    Other(u8),
}

impl ResetType {
    /// The kind of reset that `byte` stands for.
    pub open spec fn of_byte(byte: u8) -> ResetType {
        match byte {
            0x01 => ResetType::Hard,
            0x02 => ResetType::KeyOffOn,
            0x03 => ResetType::EnableRapidPowerShutdown,
            0x04 => ResetType::DisableRapidPowerShutdown,
            _ => ResetType::Other(byte),
        }
    }

    /// The byte that stands for this kind of reset.
    pub open spec fn byte(self) -> u8 {
        match self {
            ResetType::Hard => 0x01,
            ResetType::KeyOffOn => 0x02,
            ResetType::EnableRapidPowerShutdown => 0x03,
            ResetType::DisableRapidPowerShutdown => 0x04,
            ResetType::Other(byte) => byte,
        }
    }
}

impl From<u8> for ResetType {
    fn from(reset: u8) -> (r: ResetType) {
        match reset {
            0x01 => ResetType::Hard,
            0x02 => ResetType::KeyOffOn,
            0x03 => ResetType::EnableRapidPowerShutdown,
            0x04 => ResetType::DisableRapidPowerShutdown,
            reset => ResetType::Other(reset),
        }
    }
}

impl FromSpecImpl<u8> for ResetType {
    open spec fn obeys_from_spec() -> bool {
        true
    }

    open spec fn from_spec(reset: u8) -> ResetType {
        ResetType::of_byte(reset)
    }
}

impl From<ResetType> for u8 {
    fn from(reset: ResetType) -> (r: u8) {
        match reset {
            ResetType::Hard => 0x01,
            ResetType::KeyOffOn => 0x02,
            ResetType::EnableRapidPowerShutdown => 0x03,
            ResetType::DisableRapidPowerShutdown => 0x04,
            ResetType::Other(reset) => reset,
        }
    }
}

impl FromSpecImpl<ResetType> for u8 {
    open spec fn obeys_from_spec() -> bool {
        true
    }

    open spec fn from_spec(reset: ResetType) -> u8 {
        reset.byte()
    }
}

/// Every byte stands for a kind of reset that is written as that byte
/// again.
pub proof fn lemma_reset_type_round_trip(byte: u8)
    ensures
        ResetType::of_byte(byte).byte() == byte,
        <u8 as FromSpec<ResetType>>::from_spec(<ResetType as FromSpec<u8>>::from_spec(byte))
            == byte,
{
}

/// The words that report a response for another kind of reset than the one
/// asked for.
pub open spec fn reset_mismatch_text(requested: u8, received: u8) -> Seq<char> {
    "Expected response for reset type "@ + decimal(requested as nat) + " but got for "@ + decimal(
        received as nat,
    )
}

/// The exchange that resets the server.
pub struct Reset {
    /// The kind of reset that was asked for.
    pub reset_type: u8,
}

impl Reset {
    /// Takes the next received message.
    ///
    /// The call goes on while the server asks for more time. It succeeds on
    /// the response that names the kind of reset that was asked for.
    pub fn step(self, data: &[u8]) -> (r: Step<Reset, ()>)
        ensures
            match verdict_for::<ResetRequest, ResetResponse>(data@) {
                Verdict::Pending => r == Step::<Reset, ()>::Wait(self),
                Verdict::Positive => if data@[1] == self.reset_type {
                    r matches Step::Done(Ok(_))
                } else {
                    r.fails_with(
                        Failure::InvalidResponse(reset_mismatch_text(self.reset_type, data@[1])),
                    )
                },
                refusal => r.fails_with(failure_of(refusal).unwrap()),
            },
    {
        match UdsClient::receive::<ResetRequest, ResetResponse>(data) {
            Reply::Pending => Step::Wait(self),
            Reply::Done(Err(error)) => Step::Done(Err(error)),
            Reply::Done(Ok(response)) => {
                if response.reset_type != self.reset_type {
                    let mut words = String::from_str("Expected response for reset type ");
                    push_decimal(&mut words, self.reset_type as usize);
                    words.append(" but got for ");
                    push_decimal(&mut words, response.reset_type as usize);
                    return Step::Done(Err(UdsError::InvalidResponse(words)));
                }
                Step::Done(Ok(()))
            },
        }
    }
}

impl UdsClient {
    /// Opens the exchange that resets the server: the request `11 RT` is to
    /// be transmitted.
    pub fn reset(reset_type: u8) -> (r: Step<Reset, ()>)
        ensures
            r.sends((Reset { reset_type }), seq![SID_RESET_REQ, reset_type]),
    {
        let request = ResetRequest::new(reset_type);
        Step::Send(Reset { reset_type }, request.serialize())
    }
}

/// A server that grants a reset with the kind of reset is understood: its
/// answer passes for the response, and what is read of it is that kind.
pub proof fn lemma_reset_answer(reset_type: u8, response: ResetResponse)
    requires
        response.holds(answer(seq![SID_RESET_REQ, reset_type], seq![reset_type])),
    ensures
        verdict_for::<ResetRequest, ResetResponse>(
            answer(seq![SID_RESET_REQ, reset_type], seq![reset_type]),
        ) == Verdict::Positive,
        response.reset_type == reset_type,
{
    assert(0x11u8 | 0x40u8 == 0x51u8) by (bit_vector);
}

} // verus!
