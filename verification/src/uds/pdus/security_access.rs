//! Security Access: the request for a seed and the request that sends the key.

use vstd::prelude::*;
use crate::uds::pdus::{copy_tail, push_bytes, RxPdu, TxPdu};

verus! {

/// The identifier that opens the request.
pub const SID_SEC_REQ: u8 = 0x27;

/// The identifier that opens the positive response.
pub const SID_SEC_RES: u8 = 0x67;

/// Asks for the seed of a security level: `27 SL [data…]`.
pub struct SeedRequest<'a> {
    sec_level: u8,
    data: &'a [u8],
}

impl<'a> SeedRequest<'a> {
    /// Makes the request of the given fields.
    pub fn new(sec_level: u8, data: &'a [u8]) -> (r: Self)
        ensures
            r.wire() == seq![SID_SEC_REQ, sec_level] + data@,
    {
        Self { sec_level, data }
    }
}

impl<'a> TxPdu for SeedRequest<'a> {
    open spec fn spec_sid() -> u8 {
        SID_SEC_REQ
    }

    closed spec fn wire(&self) -> Seq<u8> {
        seq![SID_SEC_REQ, self.sec_level] + self.data@
    }

    proof fn lemma_wire_opens_with_sid(&self) {
    }

    fn sid() -> (r: u8) {
        SID_SEC_REQ
    }

    fn serialize(&self) -> (r: Vec<u8>) {
        let mut buffer: Vec<u8> = Vec::new();
        buffer.push(SID_SEC_REQ);
        buffer.push(self.sec_level);
        push_bytes(&mut buffer, self.data);
        assert(buffer@ =~= self.wire());
        buffer
    }
}

/// The seed of a security level: `67 SL [seed…]`.
pub struct SeedResponse {
    pub sec_level: u8,
    pub seed: Vec<u8>,
}

impl RxPdu for SeedResponse {
    open spec fn spec_sid() -> u8 {
        SID_SEC_RES
    }

    open spec fn spec_len_min() -> usize {
        2
    }

    open spec fn spec_len_max() -> usize {
        usize::MAX
    }

    open spec fn supported(data: Seq<u8>) -> bool {
        true
    }

    open spec fn holds(&self, data: Seq<u8>) -> bool {
        &&& self.sec_level == data[1]
        &&& self.seed@ == data.subrange(2, data.len() as int)
    }

    proof fn lemma_bounds() {
    }

    fn sid() -> (r: u8) {
        SID_SEC_RES
    }

    fn len_min() -> (r: usize) {
        2
    }

    fn len_max() -> (r: usize) {
        usize::MAX
    }

    fn supports(data: &[u8]) -> (r: bool) {
        true
    }

    fn deserialize(data: &[u8]) -> (r: Self) {
        Self { sec_level: data[1], seed: copy_tail(data, 2) }
    }
}

/// Sends the key of a security level: `27 SL+1 [key…]`, where the level
/// written is that of the key, one above the level of the seed.
pub struct KeyRequest<'a> {
    sec_level: u8,
    key: &'a [u8],
}

impl<'a> KeyRequest<'a> {
    /// Makes the request of the given fields.
    pub fn new(sec_level: u8, key: &'a [u8]) -> (r: Self)
        ensures
            r.wire() == seq![SID_SEC_REQ, sec_level] + key@,
    {
        Self { sec_level, key }
    }
}

impl<'a> TxPdu for KeyRequest<'a> {
    open spec fn spec_sid() -> u8 {
        SID_SEC_REQ
    }

    closed spec fn wire(&self) -> Seq<u8> {
        seq![SID_SEC_REQ, self.sec_level] + self.key@
    }

    proof fn lemma_wire_opens_with_sid(&self) {
    }

    fn sid() -> (r: u8) {
        SID_SEC_REQ
    }

    fn serialize(&self) -> (r: Vec<u8>) {
        let mut buffer: Vec<u8> = Vec::new();
        buffer.push(SID_SEC_REQ);
        buffer.push(self.sec_level);
        push_bytes(&mut buffer, self.key);
        assert(buffer@ =~= self.wire());
        buffer
    }
}

/// The server took the key: `67 SL+1`.
pub struct KeyResponse {
    pub sec_level: u8,
}

impl RxPdu for KeyResponse {
    open spec fn spec_sid() -> u8 {
        SID_SEC_RES
    }

    open spec fn spec_len_min() -> usize {
        2
    }

    open spec fn spec_len_max() -> usize {
        2
    }

    open spec fn supported(data: Seq<u8>) -> bool {
        true
    }

    open spec fn holds(&self, data: Seq<u8>) -> bool {
        self.sec_level == data[1]
    }

    proof fn lemma_bounds() {
    }

    fn sid() -> (r: u8) {
        SID_SEC_RES
    }

    fn len_min() -> (r: usize) {
        2
    }

    fn len_max() -> (r: usize) {
        2
    }

    fn supports(data: &[u8]) -> (r: bool) {
        true
    }

    fn deserialize(data: &[u8]) -> (r: Self) {
        Self { sec_level: data[1] }
    }
}

} // verus!
