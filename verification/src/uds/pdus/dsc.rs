//! Diagnostic Session Control.

use vstd::prelude::*;
use crate::uds::pdus::{be16, read_be16, RxPdu, TxPdu};

verus! {

/// The identifier that opens the request.
pub const SID_SESSION_REQ: u8 = 0x10;

/// The identifier that opens the positive response.
pub const SID_SESSION_RES: u8 = 0x50;

/// Asks the server to enter a session: `10 ST`.
pub struct SessionRequest {
    session_type: u8,
}

impl SessionRequest {
    /// Makes the request of the given fields.
    pub fn new(session_type: u8) -> (r: Self)
        ensures
            r.wire() == seq![SID_SESSION_REQ, session_type],
    {
        Self { session_type }
    }
}

impl TxPdu for SessionRequest {
    open spec fn spec_sid() -> u8 {
        SID_SESSION_REQ
    }

    closed spec fn wire(&self) -> Seq<u8> {
        seq![SID_SESSION_REQ, self.session_type]
    }

    proof fn lemma_wire_opens_with_sid(&self) {
    }

    fn sid() -> (r: u8) {
        SID_SESSION_REQ
    }

    fn serialize(&self) -> (r: Vec<u8>) {
        let mut buffer: Vec<u8> = Vec::new();
        buffer.push(SID_SESSION_REQ);
        buffer.push(self.session_type);
        assert(buffer@ =~= self.wire());
        buffer
    }
}

/// The server entered a session: `50 ST`, then two times of two bytes each.
pub struct SessionResponse {
    pub session_type: u8,
    /// The time the server takes to answer, in milliseconds.
    pub p2: u16,
    /// The time the server takes to answer after it asked for more time, in
    /// units of ten milliseconds.
    pub p2_extended: u16,
}

impl RxPdu for SessionResponse {
    open spec fn spec_sid() -> u8 {
        SID_SESSION_RES
    }

    open spec fn spec_len_min() -> usize {
        6
    }

    open spec fn spec_len_max() -> usize {
        6
    }

    open spec fn supported(data: Seq<u8>) -> bool {
        true
    }

    open spec fn holds(&self, data: Seq<u8>) -> bool {
        &&& self.session_type == data[1]
        &&& self.p2 == be16(data[2], data[3])
        &&& self.p2_extended == be16(data[4], data[5])
    }

    proof fn lemma_bounds() {
    }

    fn sid() -> (r: u8) {
        SID_SESSION_RES
    }

    fn len_min() -> (r: usize) {
        6
    }

    fn len_max() -> (r: usize) {
        6
    }

    fn supports(data: &[u8]) -> (r: bool) {
        true
    }

    fn deserialize(data: &[u8]) -> (r: Self) {
        Self {
            session_type: data[1],
            p2: read_be16(data[2], data[3]),
            p2_extended: read_be16(data[4], data[5]),
        }
    }
}

} // verus!
