//! Diagnostic Session Control: enter a session and learn the server's
//! timing.

use core::time::Duration;
use vstd::prelude::*;
use vstd::std_specs::convert::{FromSpec, FromSpecImpl};
use crate::uds::client::{failure_of, verdict_for, Reply, Step, UdsClient, Verdict};
use crate::uds::error::{Failure, UdsError};
use crate::uds::pdus::dsc::{SessionRequest, SessionResponse, SID_SESSION_REQ};
use crate::uds::pdus::{answer, be16, be16_bytes, RxPdu, TxPdu};
use crate::uds::text::{hex, push_hex_byte};

verus! {

/// The sessions that a server offers. `Other` stands for every session that
/// has no name here.
#[derive(Debug, Clone, Copy, PartialEq, Eq, Structural)]
pub enum SessionType {
    Default,
    Programming,
    Extended,
    SafetySystem,
    Other(u8),
}

impl SessionType {
    /// The session that `byte` stands for.
    pub open spec fn of_byte(byte: u8) -> SessionType {
        match byte {
            0x01 => SessionType::Default,
            0x02 => SessionType::Programming,
            0x03 => SessionType::Extended,
            0x04 => SessionType::SafetySystem,
            _ => SessionType::Other(byte),
        }
    }

    /// The byte that stands for this session.
    pub open spec fn byte(self) -> u8 {
        match self {
            SessionType::Default => 0x01,
            SessionType::Programming => 0x02,
            SessionType::Extended => 0x03,
            SessionType::SafetySystem => 0x04,
            SessionType::Other(byte) => byte,
        }
    }
}

impl From<u8> for SessionType {
    fn from(st: u8) -> (r: SessionType) {
        match st {
            0x01 => SessionType::Default,
            0x02 => SessionType::Programming,
            0x03 => SessionType::Extended,
            0x04 => SessionType::SafetySystem,
            st => SessionType::Other(st),
        }
    }
}

impl FromSpecImpl<u8> for SessionType {
    open spec fn obeys_from_spec() -> bool {
        true
    }

    open spec fn from_spec(st: u8) -> SessionType {
        SessionType::of_byte(st)
    }
}

impl From<SessionType> for u8 {
    fn from(session: SessionType) -> (r: u8) {
        match session {
            SessionType::Default => 0x01,
            SessionType::Programming => 0x02,
            SessionType::Extended => 0x03,
            SessionType::SafetySystem => 0x04,
            SessionType::Other(st) => st,
        }
    }
}

impl FromSpecImpl<SessionType> for u8 {
    open spec fn obeys_from_spec() -> bool {
        true
    }

    open spec fn from_spec(session: SessionType) -> u8 {
        session.byte()
    }
}

/// Every byte stands for a session that is written as that byte again.
pub proof fn lemma_session_type_round_trip(byte: u8)
    ensures
        SessionType::of_byte(byte).byte() == byte,
        <u8 as FromSpec<SessionType>>::from_spec(<SessionType as FromSpec<u8>>::from_spec(byte))
            == byte,
{
}

/// The length of time that `core::time::Duration::from_millis` makes of a
/// number of milliseconds.
pub uninterp spec fn duration_of_millis(millis: u64) -> Duration;

/// `core::time::Duration::from_millis` takes every number and returns the
/// length of time of that many milliseconds; the same number gives the same
/// length.
pub assume_specification[ Duration::from_millis ](millis: u64) -> (r: Duration)
    ensures
        r == duration_of_millis(millis),
;

/// The words that report a response for another session than the one asked
/// for.
pub open spec fn session_mismatch_text(requested: u8, received: u8) -> Seq<char> {
    "Requested session id 0x"@ + hex(requested as nat, 2)
        + " but received response for session id 0x"@ + hex(received as nat, 2)
}

/// The exchange that enters a session: one request, then messages until the
/// response.
pub struct StartSession {
    /// The session that was asked for.
    pub session_id: u8,
}

impl StartSession {
    /// Takes the next received message.
    ///
    /// The call goes on while the server asks for more time. Where the
    /// response names the session that was asked for, the call ends with the
    /// two times of the response: the first counts milliseconds, the second
    /// tens of milliseconds. A response for another session ends it with
    /// `Other`.
    pub fn step(self, data: &[u8]) -> (r: Step<StartSession, (Duration, Duration)>)
        ensures
            match verdict_for::<SessionRequest, SessionResponse>(data@) {
                Verdict::Pending => r == Step::<StartSession, (Duration, Duration)>::Wait(self),
                Verdict::Positive => if data@[1] == self.session_id {
                    r matches Step::Done(Ok(times)) && times.0 == duration_of_millis(
                        be16(data@[2], data@[3]) as u64,
                    ) && times.1 == duration_of_millis((be16(data@[4], data@[5]) * 10) as u64)
                } else {
                    r.fails_with(Failure::Other(session_mismatch_text(self.session_id, data@[1])))
                },
                refusal => r.fails_with(failure_of(refusal).unwrap()),
            },
    {
        match UdsClient::receive::<SessionRequest, SessionResponse>(data) {
            Reply::Pending => Step::Wait(self),
            Reply::Done(Err(error)) => Step::Done(Err(error)),
            Reply::Done(Ok(response)) => {
                if response.session_type != self.session_id {
                    let mut words = String::from_str("Requested session id 0x");
                    push_hex_byte(&mut words, self.session_id);
                    words.append(" but received response for session id 0x");
                    push_hex_byte(&mut words, response.session_type);
                    return Step::Done(Err(UdsError::Other(words)));
                }
                let p2 = Duration::from_millis(response.p2 as u64);
                let p2_extended = Duration::from_millis(response.p2_extended as u64 * 10);
                Step::Done(Ok((p2, p2_extended)))
            },
        }
    }
}

impl UdsClient {
    /// Opens the exchange that enters the session `session_id`: the request
    /// `10 ST` is to be transmitted.
    pub fn start_session(session_id: u8) -> (r: Step<StartSession, (Duration, Duration)>)
        ensures
            r.sends((StartSession { session_id }), seq![SID_SESSION_REQ, session_id]),
    {
        let request = SessionRequest::new(session_id);
        Step::Send(StartSession { session_id }, request.serialize())
    }
}

/// A server that grants the request for a session with that session and
/// two times is understood: its answer passes for the response, and what is
/// read of it are that session and those times.
pub proof fn lemma_session_answer(
    session_type: u8,
    p2: u16,
    p2_extended: u16,
    response: SessionResponse,
)
    requires
        response.holds(
            answer(
                seq![SID_SESSION_REQ, session_type],
                seq![session_type] + be16_bytes(p2) + be16_bytes(p2_extended),
            ),
        ),
    ensures
        verdict_for::<SessionRequest, SessionResponse>(
            answer(
                seq![SID_SESSION_REQ, session_type],
                seq![session_type] + be16_bytes(p2) + be16_bytes(p2_extended),
            ),
        ) == Verdict::Positive,
        response.session_type == session_type,
        response.p2 == p2,
        response.p2_extended == p2_extended,
{
    assert(0x10u8 | 0x40u8 == 0x50u8) by (bit_vector);
}

} // verus!
