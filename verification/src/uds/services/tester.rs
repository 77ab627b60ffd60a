//! Tester Present.

use vstd::prelude::*;
use crate::uds::client::{failure_of, verdict_for, Reply, Step, UdsClient, Verdict};
use crate::uds::pdus::tester::{TesterRequest, TesterResponse, SID_TESTER_REQ};
use crate::uds::pdus::{answer, TxPdu};

verus! {

/// The exchange that tells the server that the client is still there.
pub struct TesterPresent {}

impl TesterPresent {
    /// Takes the next received message.
    ///
    /// The call goes on while the server asks for more time. It succeeds on
    /// every message that has the identifier and the length of the
    /// response; nothing else of the response is looked at.
    pub fn step(self, data: &[u8]) -> (r: Step<TesterPresent, ()>)
        ensures
            match verdict_for::<TesterRequest, TesterResponse>(data@) {
                Verdict::Pending => r == Step::<TesterPresent, ()>::Wait(self),
                Verdict::Positive => r matches Step::Done(Ok(_)),
                refusal => r.fails_with(failure_of(refusal).unwrap()),
            },
    {
        match UdsClient::receive::<TesterRequest, TesterResponse>(data) {
            Reply::Pending => Step::Wait(self),
            Reply::Done(Err(error)) => Step::Done(Err(error)),
            Reply::Done(Ok(_)) => Step::Done(Ok(())),
        }
    }
}

impl UdsClient {
    /// Opens the exchange: the request `3E 00` is to be transmitted.
    pub fn tester_present() -> (r: Step<TesterPresent, ()>)
        ensures
            r.sends((TesterPresent {  }), seq![SID_TESTER_REQ, 0x00u8]),
    {
        let request = TesterRequest::new();
        Step::Send(TesterPresent {  }, request.serialize())
    }
}

/// A server that grants Tester Present with a zero byte is understood: its
/// answer passes for the response.
pub proof fn lemma_tester_answer()
    ensures
        verdict_for::<TesterRequest, TesterResponse>(
            answer(seq![SID_TESTER_REQ, 0x00u8], seq![0x00u8]),
        ) == Verdict::Positive,
{
    assert(0x3Eu8 | 0x40u8 == 0x7Eu8) by (bit_vector);
}

} // verus!
