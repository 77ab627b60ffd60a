//! ISO-TP: the options of a transport socket and the identifiers it is
//! bound to.

use vstd::prelude::*;
use crate::can::id::CanId;

verus! {

/// The byte that pads frames unless another is set.
pub const DEFAULT_PAD_CONTENT: u8 = 0xCC;

/// One switch among the options of a transport socket.
#[derive(Debug, Clone, Copy, PartialEq, Eq, Structural)]
pub enum IsotpOptionsFlag {
    /// Listen only: send no flow control frames.
    ListenMode,
    /// Use extended addressing.
    ExtendedAddr,
    /// Pad the frames that are sent.
    TxPadding,
    /// Expect padding in the frames that are received.
    RxPadding,
    /// Check the length of received padding.
    CheckPadLen,
    /// Check the bytes of received padding.
    ChkPadData,
    /// Handle errors as on a half-duplex line.
    HalfDuplex,
    /// Ignore the separation time that the peer asks for.
    ForceTxStMin,
    /// Ignore consecutive frames that come too early.
    ForceRxStMin,
    /// Receive with an extended address of its own.
    RxExtAddr,
    /// Let a write return only once the last frame is out.
    WaitTxDone,
    /// Address one to many with single frames.
    SfBroadcast,
    /// Transmit one to many without flow control.
    CfBroadcast,
}

impl IsotpOptionsFlag {
    /// The bit that stands for the switch.
    pub open spec fn spec_bits(self) -> u32 {
        match self {
            IsotpOptionsFlag::ListenMode => 0x0001,
            IsotpOptionsFlag::ExtendedAddr => 0x0002,
            IsotpOptionsFlag::TxPadding => 0x0004,
            IsotpOptionsFlag::RxPadding => 0x0008,
            IsotpOptionsFlag::CheckPadLen => 0x0010,
            IsotpOptionsFlag::ChkPadData => 0x0020,
            IsotpOptionsFlag::HalfDuplex => 0x0040,
            IsotpOptionsFlag::ForceTxStMin => 0x0080,
            IsotpOptionsFlag::ForceRxStMin => 0x0100,
            IsotpOptionsFlag::RxExtAddr => 0x0200,
            IsotpOptionsFlag::WaitTxDone => 0x0400,
            IsotpOptionsFlag::SfBroadcast => 0x0800,
            IsotpOptionsFlag::CfBroadcast => 0x1000,
        }
    }

    /// The bit that stands for the switch.
    pub fn bits(self) -> (r: u32)
        ensures
            r == self.spec_bits(),
    {
        match self {
            IsotpOptionsFlag::ListenMode => 0x0001,
            IsotpOptionsFlag::ExtendedAddr => 0x0002,
            IsotpOptionsFlag::TxPadding => 0x0004,
            IsotpOptionsFlag::RxPadding => 0x0008,
            IsotpOptionsFlag::CheckPadLen => 0x0010,
            IsotpOptionsFlag::ChkPadData => 0x0020,
            IsotpOptionsFlag::HalfDuplex => 0x0040,
            IsotpOptionsFlag::ForceTxStMin => 0x0080,
            IsotpOptionsFlag::ForceRxStMin => 0x0100,
            IsotpOptionsFlag::RxExtAddr => 0x0200,
            IsotpOptionsFlag::WaitTxDone => 0x0400,
            IsotpOptionsFlag::SfBroadcast => 0x0800,
            IsotpOptionsFlag::CfBroadcast => 0x1000,
        }
    }
}

/// The options of a transport socket, as the kernel reads them.
#[derive(Debug, Clone, Copy, PartialEq, Eq)]
pub struct IsoTpOptions {
    /// The switches that are on, one bit each.
    pub flags: u32,
    /// The time between two frames, in nanoseconds.
    pub frame_txtime: u32,
    /// The address for extended addressing.
    pub ext_address: u8,
    /// The byte that pads frames that are sent.
    pub txpad_content: u8,
    /// The byte that pads frames that are received.
    pub rxpad_content: u8,
    /// The address for extended addressing of what is received.
    pub rx_ext_address: u8,
}

impl IsoTpOptions {
    /// Whether the switch `flag` is on.
    pub open spec fn has(self, flag: IsotpOptionsFlag) -> bool {
        self.flags & flag.spec_bits() != 0
    }

    /// The options that a socket starts with: no switch is on, and frames
    /// are padded with `CC`.
    pub fn new() -> (r: IsoTpOptions)
        ensures
            r == (IsoTpOptions {
                flags: 0,
                frame_txtime: 0,
                ext_address: 0,
                txpad_content: DEFAULT_PAD_CONTENT,
                rxpad_content: DEFAULT_PAD_CONTENT,
                rx_ext_address: 0,
            }),
            forall|flag: IsotpOptionsFlag| !r.has(flag),
    {
        assert(forall|bits: u32| 0u32 & bits == 0) by (bit_vector);
        IsoTpOptions {
            flags: 0x00,
            frame_txtime: 0x00,
            ext_address: 0x00,
            txpad_content: DEFAULT_PAD_CONTENT,
            rxpad_content: DEFAULT_PAD_CONTENT,
            rx_ext_address: 0x00,
        }
    }

    /// Switches `flag` on. Nothing else changes.
    pub fn set_flag(&mut self, flag: IsotpOptionsFlag)
        ensures
            *final(self) == (IsoTpOptions {
                flags: old(self).flags | flag.spec_bits(),
                ..*old(self)
            }),
            final(self).has(flag),
            forall|other: IsotpOptionsFlag|
                other != flag ==> final(self).has(other) == old(self).has(other),
    {
        proof {
            lemma_flags_differ(flag, flag);
            let before = self.flags;
            let bit = flag.spec_bits();
            assert forall|other: IsotpOptionsFlag| other != flag implies ((before | bit)
                & other.spec_bits() != 0) == (before & other.spec_bits() != 0) by {
                lemma_flags_differ(flag, other);
                let mask = other.spec_bits();
                assert(bit & mask == 0 ==> (before | bit) & mask == before & mask) by (bit_vector);
            }
            assert(bit != 0 ==> (before | bit) & bit != 0) by (bit_vector);
        }
        self.flags = self.flags | flag.bits();
    }

    /// Switches `flag` off. Nothing else changes.
    pub fn clear_flag(&mut self, flag: IsotpOptionsFlag)
        ensures
            *final(self) == (IsoTpOptions {
                flags: old(self).flags & !flag.spec_bits(),
                ..*old(self)
            }),
            !final(self).has(flag),
            forall|other: IsotpOptionsFlag|
                other != flag ==> final(self).has(other) == old(self).has(other),
    {
        proof {
            lemma_flags_differ(flag, flag);
            let before = self.flags;
            let bit = flag.spec_bits();
            assert forall|other: IsotpOptionsFlag| other != flag implies ((before & !bit)
                & other.spec_bits() != 0) == (before & other.spec_bits() != 0) by {
                lemma_flags_differ(flag, other);
                let mask = other.spec_bits();
                assert(bit & mask == 0 ==> (before & !bit) & mask == before & mask) by (bit_vector);
            }
            assert((before & !bit) & bit == 0) by (bit_vector);
        }
        self.flags = self.flags & !flag.bits();
    }
}

/// The options that a connection is opened with: a write returns only once
/// the last frame is out, and no other switch is on.
pub fn connection_options() -> (r: IsoTpOptions)
    ensures
        r == (IsoTpOptions {
            flags: IsotpOptionsFlag::WaitTxDone.spec_bits(),
            frame_txtime: 0,
            ext_address: 0,
            txpad_content: DEFAULT_PAD_CONTENT,
            rxpad_content: DEFAULT_PAD_CONTENT,
            rx_ext_address: 0,
        }),
        forall|flag: IsotpOptionsFlag| r.has(flag) <==> flag == IsotpOptionsFlag::WaitTxDone,
{
    let mut options = IsoTpOptions::new();
    options.set_flag(IsotpOptionsFlag::WaitTxDone);
    assert(0u32 | 0x0400u32 == 0x0400u32) by (bit_vector);
    options
}

/// Every switch is a bit of its own: none is zero, and two switches share
/// no bit.
pub proof fn lemma_flags_differ(a: IsotpOptionsFlag, b: IsotpOptionsFlag)
    ensures
        a.spec_bits() != 0,
        a != b ==> a.spec_bits() & b.spec_bits() == 0,
{
    let x = a.spec_bits();
    let y = b.spec_bits();
    if a != b {
        assert(x & y == 0) by (bit_vector)
            requires
                x == 0x0001 || x == 0x0002 || x == 0x0004 || x == 0x0008 || x == 0x0010
                || x == 0x0020 || x == 0x0040 || x == 0x0080 || x == 0x0100 || x == 0x0200
                || x == 0x0400 || x == 0x0800 || x == 0x1000,
                y == 0x0001 || y == 0x0002 || y == 0x0004 || y == 0x0008 || y == 0x0010
                || y == 0x0020 || y == 0x0040 || y == 0x0080 || y == 0x0100 || y == 0x0200
                || y == 0x0400 || y == 0x0800 || y == 0x1000,
                x != y,
        ;
    }
}

/// The two identifiers that a transport socket is bound to.
#[derive(Debug, Clone, Copy, PartialEq, Eq)]
pub struct IsotpAddress {
    /// The identifier of the frames that the socket receives.
    pub rx_id: u32,
    /// The identifier of the frames that the socket sends.
    pub tx_id: u32,
}

/// The address of a socket that sends with `tx_id` and receives with
/// `rx_id`. The identifiers are written as plain numbers, without a mark of
/// their length.
pub fn can_address(tx_id: CanId, rx_id: CanId) -> (r: IsotpAddress)
    ensures
        r == (IsotpAddress { rx_id: rx_id.raw(), tx_id: tx_id.raw() }),
{
    IsotpAddress { rx_id: rx_id.as_raw(), tx_id: tx_id.as_raw() }
}

} // verus!
