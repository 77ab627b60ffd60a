//! The messages of each service: what a request looks like on the wire and
//! what a response carries.
//!
//! All integers are big-endian. A request starts with its service
//! identifier; the positive response to it starts with that identifier plus
//! `0x40`.

use vstd::prelude::*;

pub mod download;
pub mod dsc;
pub mod ecu_reset;
pub mod routine;
pub mod security_access;
pub mod tester;
pub mod transfer;

verus! {

/// A request that can be put on the wire.
pub trait TxPdu {
    /// The service identifier of every request of this type.
    spec fn spec_sid() -> u8;

    /// The bytes that carry this request.
    spec fn wire(&self) -> Seq<u8>;

    /// Every request opens with its service identifier.
    proof fn lemma_wire_opens_with_sid(&self)
        ensures
            self.wire().len() >= 1,
            self.wire()[0] == Self::spec_sid(),
    ;

    /// The service identifier of every request of this type.
    fn sid() -> (r: u8)
        ensures
            r == Self::spec_sid(),
    ;

    /// Writes the request out as the bytes of one message.
    fn serialize(&self) -> (r: Vec<u8>)
        ensures
            r@ == self.wire(),
    ;
}

/// A positive response that can be read from the wire.
pub trait RxPdu: Sized {
    /// The identifier that opens every response of this type.
    spec fn spec_sid() -> u8;

    /// The shortest message that is a response of this type.
    spec fn spec_len_min() -> usize;

    /// The longest message that is a response of this type.
    spec fn spec_len_max() -> usize;

    /// Whether the parser reads `data`, a message that is already known to
    /// have the right identifier and a length within the bounds.
    spec fn supported(data: Seq<u8>) -> bool;

    /// Whether this value holds exactly the fields that `data` carries.
    spec fn holds(&self, data: Seq<u8>) -> bool;

    /// No response is empty: the bounds leave room for the identifier.
    proof fn lemma_bounds()
        ensures
            1 <= Self::spec_len_min() <= Self::spec_len_max(),
    ;

    /// The identifier that opens every response of this type.
    fn sid() -> (r: u8)
        ensures
            r == Self::spec_sid(),
    ;

    /// The shortest message that is a response of this type.
    fn len_min() -> (r: usize)
        ensures
            r == Self::spec_len_min(),
    ;

    /// The longest message that is a response of this type.
    fn len_max() -> (r: usize)
        ensures
            r == Self::spec_len_max(),
    ;

    /// Tells whether `deserialize` reads `data`.
    fn supports(data: &[u8]) -> (r: bool)
        requires
            Self::spec_len_min() <= data@.len() <= Self::spec_len_max(),
            data@.len() >= 1,
            data@[0] == Self::spec_sid(),
        ensures
            r == Self::supported(data@),
    ;

    /// Reads the fields of a response from a message that has the right
    /// identifier, a length within the bounds, and a form that the parser
    /// supports.
    fn deserialize(data: &[u8]) -> (r: Self)
        requires
            Self::spec_len_min() <= data@.len() <= Self::spec_len_max(),
            data@.len() >= 1,
            data@[0] == Self::spec_sid(),
            Self::supported(data@),
        ensures
            r.holds(data@),
    ;
}

/// Whether `res_sid` is the identifier of the positive response to a
/// request with the identifier `req_sid`.
pub open spec fn pairs_with(req_sid: u8, res_sid: u8) -> bool {
    &&& res_sid == req_sid + 0x40
    &&& res_sid == req_sid | 0x40u8
    &&& res_sid != 0x7F
}

/// What a server makes of a request that it grants: the identifier of the
/// request with `0x40` set, then `payload`.
pub open spec fn answer(request: Seq<u8>, payload: Seq<u8>) -> Seq<u8> {
    seq![request[0] | 0x40u8] + payload
}

/// The 16-bit number whose big-endian bytes are `hi` and `lo`.
pub open spec fn be16(hi: u8, lo: u8) -> u16 {
    (hi as int * 256 + lo as int) as u16
}

/// The two big-endian bytes of `value`.
pub open spec fn be16_bytes(value: u16) -> Seq<u8> {
    seq![(value / 256) as u8, (value % 256) as u8]
}

/// The four big-endian bytes of `value`.
pub open spec fn be32_bytes(value: u32) -> Seq<u8> {
    seq![
        (value / 0x100_0000) as u8,
        (value / 0x1_0000 % 256) as u8,
        (value / 0x100 % 256) as u8,
        (value % 256) as u8,
    ]
}

/// Reads a big-endian 16-bit number.
pub(crate) fn read_be16(hi: u8, lo: u8) -> (r: u16)
    ensures
        r == be16(hi, lo),
{
    let high: u16 = hi as u16;
    let low: u16 = lo as u16;
    high * 256 + low
}

/// Appends the two big-endian bytes of `value`.
pub(crate) fn push_be16(buffer: &mut Vec<u8>, value: u16)
    ensures
        final(buffer)@ == old(buffer)@ + be16_bytes(value),
{
    buffer.push((value / 256) as u8);
    buffer.push((value % 256) as u8);
    assert(final(buffer)@ =~= old(buffer)@ + be16_bytes(value));
}

/// Appends the four big-endian bytes of `value`.
pub(crate) fn push_be32(buffer: &mut Vec<u8>, value: u32)
    ensures
        final(buffer)@ == old(buffer)@ + be32_bytes(value),
{
    buffer.push((value / 0x100_0000) as u8);
    buffer.push((value / 0x1_0000 % 256) as u8);
    buffer.push((value / 0x100 % 256) as u8);
    buffer.push((value % 256) as u8);
    assert(final(buffer)@ =~= old(buffer)@ + be32_bytes(value));
}

/// Appends all of `bytes`.
pub(crate) fn push_bytes(buffer: &mut Vec<u8>, bytes: &[u8])
    ensures
        final(buffer)@ == old(buffer)@ + bytes@,
{
    buffer.extend_from_slice(bytes);
    assert(final(buffer)@ =~= old(buffer)@ + bytes@);
}

/// Copies the bytes of `data` from `from` to its end.
pub(crate) fn copy_tail(data: &[u8], from: usize) -> (r: Vec<u8>)
    requires
        from <= data@.len(),
    ensures
        r@ == data@.subrange(from as int, data@.len() as int),
{
    vstd::slice::slice_to_vec(vstd::slice::slice_subrange(data, from, data.len()))
}

/// The positive response to every request opens with the identifier of the
/// request plus `0x40`, which is that identifier with bit six set; and none
/// opens like a negative response.
pub proof fn lemma_response_sids()
    ensures
        pairs_with(dsc::SID_SESSION_REQ, dsc::SID_SESSION_RES),
        pairs_with(ecu_reset::SID_RESET_REQ, ecu_reset::SID_RESET_RES),
        pairs_with(security_access::SID_SEC_REQ, security_access::SID_SEC_RES),
        pairs_with(routine::SID_ROUTINE_REQ, routine::SID_ROUTINE_RES),
        pairs_with(download::SID_DOWNLOAD_REQ, download::SID_DOWNLOAD_RES),
        pairs_with(transfer::SID_TRANSFER_REQ, transfer::SID_TRANSFER_RES),
        pairs_with(transfer::SID_TRANSFER_EXIT_REQ, transfer::SID_TRANSFER_EXIT_RES),
        pairs_with(tester::SID_TESTER_REQ, tester::SID_TESTER_RES),
{
    assert(0x10u8 | 0x40u8 == 0x50u8) by (bit_vector);
    assert(0x11u8 | 0x40u8 == 0x51u8) by (bit_vector);
    assert(0x27u8 | 0x40u8 == 0x67u8) by (bit_vector);
    assert(0x31u8 | 0x40u8 == 0x71u8) by (bit_vector);
    assert(0x34u8 | 0x40u8 == 0x74u8) by (bit_vector);
    assert(0x36u8 | 0x40u8 == 0x76u8) by (bit_vector);
    assert(0x37u8 | 0x40u8 == 0x77u8) by (bit_vector);
    assert(0x3Eu8 | 0x40u8 == 0x7Eu8) by (bit_vector);
}

/// Reading the bytes of a 16-bit number gives the number back.
pub proof fn lemma_be16_round_trip(value: u16)
    ensures
        be16(be16_bytes(value)[0], be16_bytes(value)[1]) == value,
{
}

} // verus!
