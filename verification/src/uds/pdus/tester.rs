//! Tester Present.

use vstd::prelude::*;
use crate::uds::pdus::{RxPdu, TxPdu};

verus! {

/// The identifier that opens the request.
pub const SID_TESTER_REQ: u8 = 0x3E;

/// The identifier that opens the positive response.
pub const SID_TESTER_RES: u8 = 0x7E;

/// Tells the server that the client is still there: `3E 00`.
pub struct TesterRequest {}

impl TesterRequest {
    /// Makes the request.
    pub fn new() -> (r: Self)
        ensures
            r.wire() == seq![SID_TESTER_REQ, 0x00u8],
    {
        Self {  }
    }
}

impl TxPdu for TesterRequest {
    open spec fn spec_sid() -> u8 {
        SID_TESTER_REQ
    }

    closed spec fn wire(&self) -> Seq<u8> {
        seq![SID_TESTER_REQ, 0x00u8]
    }

    proof fn lemma_wire_opens_with_sid(&self) {
    }

    fn sid() -> (r: u8) {
        SID_TESTER_REQ
    }

    fn serialize(&self) -> (r: Vec<u8>) {
        let mut buffer: Vec<u8> = Vec::new();
        buffer.push(SID_TESTER_REQ);
        buffer.push(0x00);
        assert(buffer@ =~= self.wire());
        buffer
    }
}

/// The server heard the client: `7E 00`. Nothing of it is kept.
pub struct TesterResponse {}

impl RxPdu for TesterResponse {
    open spec fn spec_sid() -> u8 {
        SID_TESTER_RES
    }

    open spec fn spec_len_min() -> usize {
        2
    }

    open spec fn spec_len_max() -> usize {
        2
    }

    open spec fn supported(data: Seq<u8>) -> bool {
        true
    }

    open spec fn holds(&self, data: Seq<u8>) -> bool {
        true
    }

    proof fn lemma_bounds() {
    }

    fn sid() -> (r: u8) {
        SID_TESTER_RES
    }

    fn len_min() -> (r: usize) {
        2
    }

    fn len_max() -> (r: usize) {
        2
    }

    fn supports(data: &[u8]) -> (r: bool) {
        true
    }

    fn deserialize(data: &[u8]) -> (r: Self) {
        Self {  }
    }
}

} // verus!
