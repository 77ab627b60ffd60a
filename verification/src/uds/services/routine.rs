//! Routine Control.

use vstd::prelude::*;
use vstd::std_specs::convert::{FromSpec, FromSpecImpl};
use crate::uds::client::{failure_of, verdict_for, Reply, Step, UdsClient, Verdict};
use crate::uds::error::{Failure, UdsError};
use crate::uds::pdus::routine::{RoutineRequest, RoutineResponse, SID_ROUTINE_REQ};
use crate::uds::pdus::{answer, be16, be16_bytes, RxPdu, TxPdu};
use crate::uds::text::{hex, push_hex_byte, push_hex_word};

verus! {

/// What to do with a routine. `Other` stands for every action that has no
/// name here.
#[derive(Debug, Clone, Copy, PartialEq, Eq, Structural)]
pub enum RoutineAction {
    Start,
    Stop,
    Result,
    Other(u8),
}

impl RoutineAction {
    /// The action that `byte` stands for.
    pub open spec fn of_byte(byte: u8) -> RoutineAction {
        match byte {
            0x01 => RoutineAction::Start,
            0x02 => RoutineAction::Stop,
            0x03 => RoutineAction::Result,
            _ => RoutineAction::Other(byte),
        }
    }

    /// The byte that stands for this action.
    pub open spec fn byte(self) -> u8 {
        match self {
            RoutineAction::Start => 0x01,
            RoutineAction::Stop => 0x02,
            RoutineAction::Result => 0x03,
            RoutineAction::Other(byte) => byte,
        }
    }
}

impl From<u8> for RoutineAction {
    fn from(id: u8) -> (r: RoutineAction) {
        match id {
            0x01 => RoutineAction::Start,
            0x02 => RoutineAction::Stop,
            0x03 => RoutineAction::Result,
            id => RoutineAction::Other(id),
        }
    }
}

impl FromSpecImpl<u8> for RoutineAction {
    open spec fn obeys_from_spec() -> bool {
        true
    }

    open spec fn from_spec(id: u8) -> RoutineAction {
        RoutineAction::of_byte(id)
    }
}

impl From<RoutineAction> for u8 {
    fn from(action: RoutineAction) -> (r: u8) {
        match action {
            RoutineAction::Start => 0x01,
            RoutineAction::Stop => 0x02,
            RoutineAction::Result => 0x03,
            RoutineAction::Other(id) => id,
        }
    }
}

impl FromSpecImpl<RoutineAction> for u8 {
    open spec fn obeys_from_spec() -> bool {
        true
    }

    open spec fn from_spec(action: RoutineAction) -> u8 {
        action.byte()
    }
}

/// Every byte stands for an action that is written as that byte again.
pub proof fn lemma_routine_action_round_trip(byte: u8)
    ensures
        RoutineAction::of_byte(byte).byte() == byte,
        <u8 as FromSpec<RoutineAction>>::from_spec(<RoutineAction as FromSpec<u8>>::from_spec(byte))
            == byte,
{
}

/// The words that report a response for another action than the one asked
/// for.
pub open spec fn action_mismatch_text(requested: u8, received: u8) -> Seq<char> {
    "Expected response for control action 0x"@ + hex(requested as nat, 2) + " but got "@ + hex(
        received as nat,
        2,
    )
}

/// The words that report a response for another routine than the one asked
/// for.
pub open spec fn routine_mismatch_text(requested: u16, received: u16) -> Seq<char> {
    "Expected response for routine 0x"@ + hex(requested as nat, 4) + " but got "@ + hex(
        received as nat,
        4,
    )
}

/// The exchange that controls a routine.
pub struct ControlRoutine {
    /// The byte of the action that was asked for.
    pub action: u8,
    /// The routine that was asked for.
    pub routine_id: u16,
}

impl ControlRoutine {
    /// Takes the next received message.
    ///
    /// The call goes on while the server asks for more time. It ends with
    /// the parameters of the response, the bytes after the fifth, where the
    /// response names the action and the routine that were asked for; the
    /// action is compared first.
    pub fn step(self, data: &[u8]) -> (r: Step<ControlRoutine, Vec<u8>>)
        ensures
            match verdict_for::<RoutineRequest, RoutineResponse>(data@) {
                Verdict::Pending => r == Step::<ControlRoutine, Vec<u8>>::Wait(self),
                Verdict::Positive => if data@[1] != self.action {
                    r.fails_with(
                        Failure::InvalidResponse(action_mismatch_text(self.action, data@[1])),
                    )
                } else if be16(data@[2], data@[3]) != self.routine_id {
                    r.fails_with(
                        Failure::InvalidResponse(
                            routine_mismatch_text(self.routine_id, be16(data@[2], data@[3])),
                        ),
                    )
                } else {
                    r matches Step::Done(Ok(params)) && params@ == data@.subrange(
                        5,
                        data@.len() as int,
                    )
                },
                refusal => r.fails_with(failure_of(refusal).unwrap()),
            },
    {
        match UdsClient::receive::<RoutineRequest, RoutineResponse>(data) {
            Reply::Pending => Step::Wait(self),
            Reply::Done(Err(error)) => Step::Done(Err(error)),
            Reply::Done(Ok(response)) => {
                if response.control != self.action {
                    let mut words = String::from_str("Expected response for control action 0x");
                    push_hex_byte(&mut words, self.action);
                    words.append(" but got ");
                    push_hex_byte(&mut words, response.control);
                    return Step::Done(Err(UdsError::InvalidResponse(words)));
                }
                if response.routine_id != self.routine_id {
                    let mut words = String::from_str("Expected response for routine 0x");
                    push_hex_word(&mut words, self.routine_id);
                    words.append(" but got ");
                    push_hex_word(&mut words, response.routine_id);
                    return Step::Done(Err(UdsError::InvalidResponse(words)));
                }
                Step::Done(Ok(response.params))
            },
        }
    }
}

impl UdsClient {
    /// Opens the exchange that controls the routine `routine_id`: the
    /// request `31 CT RID_hi RID_lo [params…]` is to be transmitted.
    pub fn control_routine(action: RoutineAction, routine_id: u16, params: &[u8]) -> (r: Step<
        ControlRoutine,
        Vec<u8>,
    >)
        ensures
            r.sends(
                (ControlRoutine { action: action.byte(), routine_id }),
                seq![SID_ROUTINE_REQ, action.byte()] + be16_bytes(routine_id) + params@,
            ),
    {
        let action: u8 = u8::from(action);
        let request = RoutineRequest::new(action, routine_id, params);
        Step::Send(ControlRoutine { action, routine_id }, request.serialize())
    }
}

/// A server that grants a routine request with the action, the routine, a
/// byte of information and parameters is understood: its answer passes for
/// the response, and what is read of it are those four.
pub proof fn lemma_routine_answer(
    control: u8,
    routine_id: u16,
    request_params: Seq<u8>,
    info: u8,
    params: Seq<u8>,
    response: RoutineResponse,
)
    requires
        params.len() + 5 <= usize::MAX,
        response.holds(
            answer(
                seq![SID_ROUTINE_REQ, control] + be16_bytes(routine_id) + request_params,
                seq![control] + be16_bytes(routine_id) + seq![info] + params,
            ),
        ),
    ensures
        verdict_for::<RoutineRequest, RoutineResponse>(
            answer(
                seq![SID_ROUTINE_REQ, control] + be16_bytes(routine_id) + request_params,
                seq![control] + be16_bytes(routine_id) + seq![info] + params,
            ),
        ) == Verdict::Positive,
        response.control == control,
        response.routine_id == routine_id,
        response.info == info,
        response.params@ == params,
{
    assert(0x31u8 | 0x40u8 == 0x71u8) by (bit_vector);
    let message = answer(
        seq![SID_ROUTINE_REQ, control] + be16_bytes(routine_id) + request_params,
        seq![control] + be16_bytes(routine_id) + seq![info] + params,
    );
    assert(message.subrange(5, message.len() as int) =~= params);
}

} // verus!
