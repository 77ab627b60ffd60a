//! Request Download.

use vstd::prelude::*;
use crate::uds::pdus::{be16, be32_bytes, push_be32, read_be16, RxPdu, TxPdu};

verus! {

/// The identifier that opens the request.
pub const SID_DOWNLOAD_REQ: u8 = 0x34;

/// The identifier that opens the positive response.
pub const SID_DOWNLOAD_RES: u8 = 0x74;

/// The only address and length format that is written: four bytes of
/// address, four bytes of size.
pub const ADDR_LEN_FORMAT: u8 = 0x44;

/// The only length format that is read: a block length of two bytes.
pub const LENGTH_FORMAT: u8 = 0x20;

/// Announces a download: `34 DF 44 A3 A2 A1 A0 S3 S2 S1 S0`.
pub struct DownloadRequest {
    data_format: u8,
    addr_len_format: u8,
    memory_addr: u32,
    memory_size: u32,
}

impl DownloadRequest {
    /// Makes the request of the given fields.
    pub fn new(data_format: u8, memory_addr: u32, memory_size: u32) -> (r: Self)
        ensures
            r.wire() == seq![SID_DOWNLOAD_REQ, data_format, ADDR_LEN_FORMAT] + be32_bytes(
                memory_addr,
            ) + be32_bytes(memory_size),
    {
        Self { data_format, addr_len_format: ADDR_LEN_FORMAT, memory_addr, memory_size }
    }
}

impl TxPdu for DownloadRequest {
    open spec fn spec_sid() -> u8 {
        SID_DOWNLOAD_REQ
    }

    closed spec fn wire(&self) -> Seq<u8> {
        seq![SID_DOWNLOAD_REQ, self.data_format, self.addr_len_format] + be32_bytes(
            self.memory_addr,
        ) + be32_bytes(self.memory_size)
    }

    proof fn lemma_wire_opens_with_sid(&self) {
    }

    fn sid() -> (r: u8) {
        SID_DOWNLOAD_REQ
    }

    fn serialize(&self) -> (r: Vec<u8>) {
        let mut buffer: Vec<u8> = Vec::new();
        buffer.push(SID_DOWNLOAD_REQ);
        buffer.push(self.data_format);
        buffer.push(self.addr_len_format);
        push_be32(&mut buffer, self.memory_addr);
        push_be32(&mut buffer, self.memory_size);
        assert(buffer@ =~= self.wire());
        buffer
    }
}

/// The server takes the download: `74 LFID BL_hi BL_lo`.
pub struct DownloadResponse {
    pub length_format_id: u8,
    /// The longest Transfer Data message that the server takes.
    pub block_len: u16,
}

impl RxPdu for DownloadResponse {
    open spec fn spec_sid() -> u8 {
        SID_DOWNLOAD_RES
    }

    open spec fn spec_len_min() -> usize {
        4
    }

    open spec fn spec_len_max() -> usize {
        4
    }

    open spec fn supported(data: Seq<u8>) -> bool {
        data[1] == LENGTH_FORMAT
    }

    open spec fn holds(&self, data: Seq<u8>) -> bool {
        &&& self.length_format_id == data[1]
        &&& self.block_len == be16(data[2], data[3])
    }

    proof fn lemma_bounds() {
    }

    fn sid() -> (r: u8) {
        SID_DOWNLOAD_RES
    }

    fn len_min() -> (r: usize) {
        4
    }

    fn len_max() -> (r: usize) {
        4
    }

    fn supports(data: &[u8]) -> (r: bool) {
        data[1] == LENGTH_FORMAT
    }

    fn deserialize(data: &[u8]) -> (r: Self) {
        Self { length_format_id: data[1], block_len: read_be16(data[2], data[3]) }
    }
}

} // verus!
