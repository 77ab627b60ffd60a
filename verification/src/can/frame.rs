//! CAN frames.
//!
//! A frame holds an identifier word, a length code and eight data bytes.
//! The low bits of the word are the identifier; bit 31 marks an identifier of
//! twenty-nine bits, bit 30 a remote transmission request.

use vstd::prelude::*;
use crate::can::id::{CanId, ExtendedId, StandardId};

verus! {

/// The bit of the identifier word that marks an extended frame.
pub const CAN_EFF_FLAG: u32 = 0x8000_0000;

/// The bit of the identifier word that marks a remote transmission request.
pub const CAN_RTR_FLAG: u32 = 0x4000_0000;

/// The bits of the identifier word that hold a standard identifier.
pub const CAN_SFF_MASK: u32 = 0x0000_07FF;

/// The bits of the identifier word that hold an extended identifier.
pub const CAN_EFF_MASK: u32 = 0x1FFF_FFFF;

/// The most data bytes that a frame carries.
pub const CAN_MAX_DLEN: usize = 8;

/// The fields of a frame as the kernel lays them out, padding left out.
#[derive(Debug, Clone, Copy, PartialEq, Eq)]
pub struct RawFrame {
    /// The identifier with the two flags.
    pub can_id: u32,
    /// The data length code.
    pub can_dlc: u8,
    /// The data. Only the first `can_dlc` bytes mean anything.
    pub data: [u8; 8],
}

/// The identifier word of a frame with the identifier `id`.
pub open spec fn id_word(id: CanId, remote: bool) -> u32 {
    let flagged = match id {
        CanId::Standard(_) => id.raw(),
        CanId::Extended(_) => id.raw() | CAN_EFF_FLAG,
    };
    if remote {
        flagged | CAN_RTR_FLAG
    } else {
        flagged
    }
}

/// The eight data bytes of a frame that carries `data`: `data`, then
/// zeros.
pub open spec fn padded(data: Seq<u8>) -> Seq<u8> {
    Seq::new(
        8,
        |i: int|
            if i < data.len() {
                data[i]
            } else {
                0u8
            },
    )
}

/// A complete CAN frame, header included.
pub struct CanFrame {
    inner: RawFrame,
}

impl View for CanFrame {
    type V = RawFrame;

    closed spec fn view(&self) -> RawFrame {
        self.inner
    }
}

impl CanFrame {
    /// Whether the frame carries an identifier of twenty-nine bits.
    pub open spec fn spec_is_extended(&self) -> bool {
        self@.can_id & CAN_EFF_FLAG != 0
    }

    /// Whether the frame is a remote transmission request.
    pub open spec fn spec_is_remote_frame(&self) -> bool {
        self@.can_id & CAN_RTR_FLAG != 0
    }

    /// The identifier of the frame.
    pub open spec fn spec_id(&self) -> CanId {
        if self.spec_is_extended() {
            CanId::Extended(ExtendedId::of_raw(self@.can_id & CAN_EFF_MASK))
        } else {
            CanId::Standard(StandardId::of_raw((self@.can_id & CAN_SFF_MASK) as u16))
        }
    }

    /// Takes a frame as the kernel gave it. Nothing of it is checked.
    pub fn from_inner(can_frame: RawFrame) -> (r: CanFrame)
        ensures
            r@ == can_frame,
    {
        CanFrame { inner: can_frame }
    }

    /// The frame as the kernel takes it.
    pub fn inner(&self) -> (r: &RawFrame)
        ensures
            *r == self@,
    {
        &self.inner
    }

    /// Makes a data frame, unless `data` has more than eight bytes.
    pub fn new(id: CanId, data: &[u8]) -> (r: Option<CanFrame>)
        ensures
            r is Some <==> data@.len() <= CAN_MAX_DLEN,
            r matches Some(frame) ==> {
                &&& frame@.can_id == id_word(id, false)
                &&& frame@.can_dlc == data@.len()
                &&& frame@.data@ == padded(data@)
                &&& frame.spec_id() == id
                &&& !frame.spec_is_remote_frame()
                &&& frame.spec_is_extended() == (id is Extended)
            },
    {
        if data.len() > CAN_MAX_DLEN {
            return None;
        }
        let can_id: u32 = identifier_word(id, false);
        let mut bytes: [u8; 8] = [0u8; 8];
        let mut at: usize = 0;
        while at < data.len()
            invariant
                at <= data@.len() <= CAN_MAX_DLEN,
                forall|i: int| 0 <= i < at ==> bytes@[i] == data@[i],
                forall|i: int| at <= i < 8 ==> bytes@[i] == 0u8,
            decreases data@.len() - at,
        {
            bytes[at] = data[at];
            at = at + 1;
        }
        assert(bytes@ =~= padded(data@));
        let frame = CanFrame { inner: RawFrame { can_id, can_dlc: data.len() as u8, data: bytes } };
        Some(frame)
    }

    /// Makes a remote transmission request for `dlc` bytes, unless `dlc` is
    /// more than eight.
    pub fn new_remote(id: CanId, dlc: usize) -> (r: Option<CanFrame>)
        ensures
            r is Some <==> dlc <= CAN_MAX_DLEN,
            r matches Some(frame) ==> {
                &&& frame@.can_id == id_word(id, true)
                &&& frame@.can_dlc == dlc
                &&& frame@.data@ == padded(Seq::empty())
                &&& frame.spec_id() == id
                &&& frame.spec_is_remote_frame()
                &&& frame.spec_is_extended() == (id is Extended)
            },
    {
        if dlc > CAN_MAX_DLEN {
            return None;
        }
        let can_id: u32 = identifier_word(id, true);
        let bytes: [u8; 8] = [0u8; 8];
        assert(bytes@ =~= padded(Seq::empty()));
        let frame = CanFrame { inner: RawFrame { can_id, can_dlc: dlc as u8, data: bytes } };
        Some(frame)
    }

    /// Whether the frame carries an identifier of twenty-nine bits.
    pub fn is_extended(&self) -> (r: bool)
        ensures
            r == self.spec_is_extended(),
    {
        self.inner.can_id & CAN_EFF_FLAG != 0
    }

    /// Whether the frame is a remote transmission request.
    pub fn is_remote_frame(&self) -> (r: bool)
        ensures
            r == self.spec_is_remote_frame(),
    {
        self.inner.can_id & CAN_RTR_FLAG != 0
    }

    /// The identifier of the frame: the low twenty-nine bits of the word
    /// where the frame is extended, else the low eleven.
    pub fn id(&self) -> (r: CanId)
        ensures
            r == self.spec_id(),
    {
        let word: u32 = self.inner.can_id;
        if self.is_extended() {
            let raw: u32 = word & CAN_EFF_MASK;
            assert(word & 0x1FFF_FFFF <= 0x1FFF_FFFF) by (bit_vector);
            CanId::Extended(ExtendedId::new(raw).unwrap())
        } else {
            let low: u32 = word & CAN_SFF_MASK;
            assert(word & 0x0000_07FF <= 0x0000_07FF) by (bit_vector);
            CanId::Standard(StandardId::new(low as u16).unwrap())
        }
    }

    /// The data length code.
    pub fn dlc(&self) -> (r: usize)
        ensures
            r == self@.can_dlc,
    {
        self.inner.can_dlc as usize
    }

    /// All eight data bytes, whatever the length code.
    pub fn data(&self) -> (r: &[u8])
        ensures
            r@ == self@.data@,
    {
        self.inner.data.as_slice()
    }
}

/// Computes the identifier word of a frame.
fn identifier_word(id: CanId, remote: bool) -> (r: u32)
    ensures
        r == id_word(id, remote),
        (r & CAN_RTR_FLAG != 0) == remote,
        (r & CAN_EFF_FLAG != 0) == (id is Extended),
        id matches CanId::Extended(extended) ==> ExtendedId::of_raw(r & CAN_EFF_MASK) == extended,
        id matches CanId::Standard(standard) ==> StandardId::of_raw((r & CAN_SFF_MASK) as u16)
            == standard,
{
    let flagged: u32 = match id {
        CanId::Extended(extended_id) => {
            let raw: u32 = extended_id.as_raw();
            assert(raw <= 0x1FFF_FFFF ==> (raw | 0x8000_0000) & 0x1FFF_FFFF == raw && (raw
                | 0x8000_0000) & 0x8000_0000 != 0 && (raw | 0x8000_0000) & 0x4000_0000 == 0 && ((raw
                | 0x8000_0000) | 0x4000_0000) & 0x1FFF_FFFF == raw && ((raw | 0x8000_0000)
                | 0x4000_0000) & 0x8000_0000 != 0 && ((raw | 0x8000_0000) | 0x4000_0000)
                & 0x4000_0000 != 0) by (bit_vector);
            raw | CAN_EFF_FLAG
        },
        CanId::Standard(standard_id) => {
            let raw: u32 = standard_id.as_raw() as u32;
            assert(raw <= 0x7FF ==> raw & 0x0000_07FF == raw && raw & 0x8000_0000 == 0 && raw
                & 0x4000_0000 == 0 && (raw | 0x4000_0000) & 0x0000_07FF == raw && (raw
                | 0x4000_0000) & 0x8000_0000 == 0 && (raw | 0x4000_0000) & 0x4000_0000 != 0)
                by (bit_vector);
            raw
        },
    };
    if remote {
        flagged | CAN_RTR_FLAG
    } else {
        flagged
    }
}

} // verus!
