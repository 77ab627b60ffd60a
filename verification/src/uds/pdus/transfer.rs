//! Transfer Data and Request Transfer Exit.

use vstd::prelude::*;
use crate::uds::pdus::{copy_tail, push_bytes, RxPdu, TxPdu};

verus! {

/// The identifier that opens a Transfer Data request.
pub const SID_TRANSFER_REQ: u8 = 0x36;

/// The identifier that opens the positive response to Transfer Data.
pub const SID_TRANSFER_RES: u8 = 0x76;

/// The identifier that opens a Request Transfer Exit.
pub const SID_TRANSFER_EXIT_REQ: u8 = 0x37;

/// The identifier that opens the positive response to Request Transfer
/// Exit.
pub const SID_TRANSFER_EXIT_RES: u8 = 0x77;

/// Carries one block of a download: `36 BSC [payload…]`.
pub struct TransferRequest<'a> {
    block_seq_counter: u8,
    payload: &'a [u8],
}

impl<'a> TransferRequest<'a> {
    /// Makes the request of the given fields.
    pub fn new(block_seq_counter: u8, data: &'a [u8]) -> (r: Self)
        ensures
            r.wire() == seq![SID_TRANSFER_REQ, block_seq_counter] + data@,
    {
        Self { block_seq_counter, payload: data }
    }
}

impl<'a> TxPdu for TransferRequest<'a> {
    open spec fn spec_sid() -> u8 {
        SID_TRANSFER_REQ
    }

    closed spec fn wire(&self) -> Seq<u8> {
        seq![SID_TRANSFER_REQ, self.block_seq_counter] + self.payload@
    }

    proof fn lemma_wire_opens_with_sid(&self) {
    }

    fn sid() -> (r: u8) {
        SID_TRANSFER_REQ
    }

    fn serialize(&self) -> (r: Vec<u8>) {
        let mut buffer: Vec<u8> = Vec::new();
        buffer.push(SID_TRANSFER_REQ);
        buffer.push(self.block_seq_counter);
        push_bytes(&mut buffer, self.payload);
        assert(buffer@ =~= self.wire());
        buffer
    }
}

/// The server took a block: `76 BSC [payload…]`.
pub struct TransferResponse {
    pub block_seq_counter: u8,
    pub payload: Vec<u8>,
}

impl RxPdu for TransferResponse {
    open spec fn spec_sid() -> u8 {
        SID_TRANSFER_RES
    }

    open spec fn spec_len_min() -> usize {
        2
    }

    open spec fn spec_len_max() -> usize {
        usize::MAX
    }

    open spec fn supported(data: Seq<u8>) -> bool {
        true
    }

    open spec fn holds(&self, data: Seq<u8>) -> bool {
        &&& self.block_seq_counter == data[1]
        &&& self.payload@ == data.subrange(2, data.len() as int)
    }

    proof fn lemma_bounds() {
    }

    fn sid() -> (r: u8) {
        SID_TRANSFER_RES
    }

    fn len_min() -> (r: usize) {
        2
    }

    fn len_max() -> (r: usize) {
        usize::MAX
    }

    fn supports(data: &[u8]) -> (r: bool) {
        true
    }

    fn deserialize(data: &[u8]) -> (r: Self) {
        Self { block_seq_counter: data[1], payload: copy_tail(data, 2) }
    }
}

/// Ends a download: `37 [payload…]`.
pub struct TransferExitRequest<'a> {
    payload: &'a [u8],
}

impl<'a> TransferExitRequest<'a> {
    /// Makes the request of the given fields.
    pub fn new(payload: &'a [u8]) -> (r: Self)
        ensures
            r.wire() == seq![SID_TRANSFER_EXIT_REQ] + payload@,
    {
        Self { payload }
    }
}

impl<'a> TxPdu for TransferExitRequest<'a> {
    open spec fn spec_sid() -> u8 {
        SID_TRANSFER_EXIT_REQ
    }

    closed spec fn wire(&self) -> Seq<u8> {
        seq![SID_TRANSFER_EXIT_REQ] + self.payload@
    }

    proof fn lemma_wire_opens_with_sid(&self) {
    }

    fn sid() -> (r: u8) {
        SID_TRANSFER_EXIT_REQ
    }

    fn serialize(&self) -> (r: Vec<u8>) {
        let mut buffer: Vec<u8> = Vec::new();
        buffer.push(SID_TRANSFER_EXIT_REQ);
        push_bytes(&mut buffer, self.payload);
        assert(buffer@ =~= self.wire());
        buffer
    }
}

/// The server ended the download: `77 [payload…]`.
pub struct TransferExitResponse {
    pub payload: Vec<u8>,
}

impl RxPdu for TransferExitResponse {
    open spec fn spec_sid() -> u8 {
        SID_TRANSFER_EXIT_RES
    }

    open spec fn spec_len_min() -> usize {
        1
    }

    open spec fn spec_len_max() -> usize {
        usize::MAX
    }

    open spec fn supported(data: Seq<u8>) -> bool {
        true
    }

    open spec fn holds(&self, data: Seq<u8>) -> bool {
        self.payload@ == data.subrange(1, data.len() as int)
    }

    proof fn lemma_bounds() {
    }

    fn sid() -> (r: u8) {
        SID_TRANSFER_EXIT_RES
    }

    fn len_min() -> (r: usize) {
        1
    }

    fn len_max() -> (r: usize) {
        usize::MAX
    }

    fn supports(data: &[u8]) -> (r: bool) {
        true
    }

    fn deserialize(data: &[u8]) -> (r: Self) {
        Self { payload: copy_tail(data, 1) }
    }
}

} // verus!
