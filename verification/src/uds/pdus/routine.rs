//! Routine Control.

use vstd::prelude::*;
use crate::uds::pdus::{be16, be16_bytes, copy_tail, push_be16, push_bytes, read_be16, RxPdu, TxPdu};

verus! {

/// The identifier that opens the request.
pub const SID_ROUTINE_REQ: u8 = 0x31;

/// The identifier that opens the positive response.
pub const SID_ROUTINE_RES: u8 = 0x71;

/// Starts, stops or asks for the result of a routine:
/// `31 CT RID_hi RID_lo [params…]`.
pub struct RoutineRequest<'a> {
    control: u8,
    routine_id: u16,
    params: &'a [u8],
}

impl<'a> RoutineRequest<'a> {
    /// Makes the request of the given fields.
    pub fn new(control: u8, routine_id: u16, params: &'a [u8]) -> (r: Self)
        ensures
            r.wire() == seq![SID_ROUTINE_REQ, control] + be16_bytes(routine_id) + params@,
    {
        Self { control, routine_id, params }
    }
}

impl<'a> TxPdu for RoutineRequest<'a> {
    open spec fn spec_sid() -> u8 {
        SID_ROUTINE_REQ
    }

    closed spec fn wire(&self) -> Seq<u8> {
        seq![SID_ROUTINE_REQ, self.control] + be16_bytes(self.routine_id) + self.params@
    }

    proof fn lemma_wire_opens_with_sid(&self) {
    }

    fn sid() -> (r: u8) {
        SID_ROUTINE_REQ
    }

    fn serialize(&self) -> (r: Vec<u8>) {
        let mut buffer: Vec<u8> = Vec::new();
        buffer.push(SID_ROUTINE_REQ);
        buffer.push(self.control);
        push_be16(&mut buffer, self.routine_id);
        push_bytes(&mut buffer, self.params);
        assert(buffer@ =~= self.wire());
        buffer
    }
}

/// What the routine answered: `71 CT RID_hi RID_lo INFO [params…]`.
pub struct RoutineResponse {
    pub control: u8,
    pub routine_id: u16,
    pub info: u8,
    pub params: Vec<u8>,
}

impl RxPdu for RoutineResponse {
    open spec fn spec_sid() -> u8 {
        SID_ROUTINE_RES
    }

    open spec fn spec_len_min() -> usize {
        5
    }

    open spec fn spec_len_max() -> usize {
        usize::MAX
    }

    open spec fn supported(data: Seq<u8>) -> bool {
        true
    }

    open spec fn holds(&self, data: Seq<u8>) -> bool {
        &&& self.control == data[1]
        &&& self.routine_id == be16(data[2], data[3])
        &&& self.info == data[4]
        &&& self.params@ == data.subrange(5, data.len() as int)
    }

    proof fn lemma_bounds() {
    }

    fn sid() -> (r: u8) {
        SID_ROUTINE_RES
    }

    fn len_min() -> (r: usize) {
        5
    }

    fn len_max() -> (r: usize) {
        usize::MAX
    }

    fn supports(data: &[u8]) -> (r: bool) {
        true
    }

    fn deserialize(data: &[u8]) -> (r: Self) {
        Self {
            control: data[1],
            routine_id: read_be16(data[2], data[3]),
            info: data[4],
            params: copy_tail(data, 5),
        }
    }
}

} // verus!
