//! ECU Reset.

use vstd::prelude::*;
use crate::uds::pdus::{RxPdu, TxPdu};

verus! {

/// The identifier that opens the request.
pub const SID_RESET_REQ: u8 = 0x11;

/// The identifier that opens the positive response.
pub const SID_RESET_RES: u8 = 0x51;

/// Asks the server to reset: `11 RT`.
pub struct ResetRequest {
    reset_type: u8,
}

impl ResetRequest {
    /// Makes the request of the given fields.
    pub fn new(reset_type: u8) -> (r: Self)
        ensures
            r.wire() == seq![SID_RESET_REQ, reset_type],
    {
        Self { reset_type }
    }
}

impl TxPdu for ResetRequest {
    open spec fn spec_sid() -> u8 {
        SID_RESET_REQ
    }

    closed spec fn wire(&self) -> Seq<u8> {
        seq![SID_RESET_REQ, self.reset_type]
    }

    proof fn lemma_wire_opens_with_sid(&self) {
    }

    fn sid() -> (r: u8) {
        SID_RESET_REQ
    }

    fn serialize(&self) -> (r: Vec<u8>) {
        let mut buffer: Vec<u8> = Vec::new();
        buffer.push(SID_RESET_REQ);
        buffer.push(self.reset_type);
        assert(buffer@ =~= self.wire());
        buffer
    }
}

/// The server will reset: `51 RT`.
pub struct ResetResponse {
    pub reset_type: u8,
}

impl RxPdu for ResetResponse {
    open spec fn spec_sid() -> u8 {
        SID_RESET_RES
    }

    open spec fn spec_len_min() -> usize {
        2
    }

    open spec fn spec_len_max() -> usize {
        2
    }

    open spec fn supported(data: Seq<u8>) -> bool {
        true
    }

    open spec fn holds(&self, data: Seq<u8>) -> bool {
        self.reset_type == data[1]
    }

    proof fn lemma_bounds() {
    }

    fn sid() -> (r: u8) {
        SID_RESET_RES
    }

    fn len_min() -> (r: usize) {
        2
    }

    fn len_max() -> (r: usize) {
        2
    }

    fn supports(data: &[u8]) -> (r: bool) {
        true
    }

    fn deserialize(data: &[u8]) -> (r: Self) {
        Self { reset_type: data[1] }
    }
}

} // verus!
