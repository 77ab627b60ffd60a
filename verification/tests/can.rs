use ddose::can::frame::{CAN_EFF_FLAG, CAN_RTR_FLAG};
use ddose::isotp::{can_address, connection_options, IsotpAddress};
use ddose::{CanFrame, CanId, ExtendedId, IsoTpOptions, IsotpOptionsFlag, RawFrame, StandardId};

fn standard(raw: u16) -> CanId {
    CanId::Standard(StandardId::new(raw).unwrap())
}

fn extended(raw: u32) -> CanId {
    CanId::Extended(ExtendedId::new(raw).unwrap())
}

#[test]
fn identifiers_have_eleven_or_twenty_nine_bits() {
    assert_eq!(StandardId::new(0).unwrap().as_raw(), 0);
    assert_eq!(StandardId::new(0x7FF).unwrap().as_raw(), 0x7FF);
    assert!(StandardId::new(0x800).is_none());
    assert!(StandardId::new(0xFFFF).is_none());
    assert_eq!(ExtendedId::new(0).unwrap().as_raw(), 0);
    assert_eq!(ExtendedId::new(0x1FFF_FFFF).unwrap().as_raw(), 0x1FFF_FFFF);
    assert!(ExtendedId::new(0x2000_0000).is_none());
    assert!(ExtendedId::new(0xFFFF_FFFF).is_none());
    assert_eq!(standard(0x123).as_raw(), 0x123);
    assert_eq!(extended(0x0123_4567).as_raw(), 0x0123_4567);
}

#[test]
fn data_frame_with_standard_id() {
    let frame = CanFrame::new(standard(0x123), &[0xDE, 0xAD]).unwrap();
    assert_eq!(frame.inner().can_id, 0x123);
    assert_eq!(frame.inner().can_dlc, 2);
    assert_eq!(frame.inner().data, [0xDE, 0xAD, 0, 0, 0, 0, 0, 0]);
    assert!(!frame.is_extended());
    assert!(!frame.is_remote_frame());
    assert_eq!(frame.id(), standard(0x123));
    assert_eq!(frame.dlc(), 2);
    assert_eq!(frame.data(), &[0xDE, 0xAD, 0, 0, 0, 0, 0, 0]);
}

#[test]
fn data_frame_with_extended_id() {
    let frame = CanFrame::new(extended(0x1ABC_DEF0), &[1, 2, 3, 4, 5, 6, 7, 8]).unwrap();
    assert_eq!(frame.inner().can_id, 0x1ABC_DEF0 | CAN_EFF_FLAG);
    assert_eq!(frame.inner().can_dlc, 8);
    assert!(frame.is_extended());
    assert!(!frame.is_remote_frame());
    assert_eq!(frame.id(), extended(0x1ABC_DEF0));
    assert_eq!(frame.data(), &[1, 2, 3, 4, 5, 6, 7, 8]);
    // An extended identifier may be as small as a standard one.
    let frame = CanFrame::new(extended(0x7), &[]).unwrap();
    assert_eq!(frame.inner().can_id, 0x8000_0007);
    assert_eq!(frame.id(), extended(0x7));
    assert_eq!(frame.dlc(), 0);
}

#[test]
fn frame_takes_at_most_eight_bytes() {
    assert!(CanFrame::new(standard(1), &[0; 8]).is_some());
    assert!(CanFrame::new(standard(1), &[0; 9]).is_none());
    assert!(CanFrame::new_remote(standard(1), 8).is_some());
    assert!(CanFrame::new_remote(standard(1), 9).is_none());
}

#[test]
fn remote_frame() {
    let frame = CanFrame::new_remote(standard(0x7FF), 4).unwrap();
    assert_eq!(frame.inner().can_id, 0x7FF | CAN_RTR_FLAG);
    assert_eq!(frame.dlc(), 4);
    assert_eq!(frame.data(), &[0; 8]);
    assert!(frame.is_remote_frame());
    assert!(!frame.is_extended());
    assert_eq!(frame.id(), standard(0x7FF));
    let frame = CanFrame::new_remote(extended(0x1FFF_FFFF), 0).unwrap();
    assert_eq!(frame.inner().can_id, 0xDFFF_FFFF);
    assert!(frame.is_remote_frame());
    assert!(frame.is_extended());
    assert_eq!(frame.id(), extended(0x1FFF_FFFF));
}

#[test]
fn frame_from_the_kernel_is_read_by_its_flags() {
    let raw = RawFrame { can_id: 0xFFFF_FFFF, can_dlc: 15, data: [9; 8] };
    let frame = CanFrame::from_inner(raw);
    assert_eq!(*frame.inner(), raw);
    assert!(frame.is_extended());
    assert!(frame.is_remote_frame());
    assert_eq!(frame.id(), extended(0x1FFF_FFFF));
    assert_eq!(frame.dlc(), 15);
    let frame = CanFrame::from_inner(RawFrame { can_id: 0x0000_FABC, can_dlc: 1, data: [0; 8] });
    assert!(!frame.is_extended());
    assert_eq!(frame.id(), standard(0x2BC));
}

#[test]
fn options_start_with_no_flag_and_cc_padding() {
    let options = IsoTpOptions::new();
    assert_eq!(options.flags, 0);
    assert_eq!(options.frame_txtime, 0);
    assert_eq!(options.ext_address, 0);
    assert_eq!(options.txpad_content, 0xCC);
    assert_eq!(options.rxpad_content, 0xCC);
    assert_eq!(options.rx_ext_address, 0);
}

#[test]
fn flags_are_set_and_cleared_one_by_one() {
    let mut options = IsoTpOptions::new();
    options.set_flag(IsotpOptionsFlag::WaitTxDone);
    assert_eq!(options.flags, 0x0400);
    options.set_flag(IsotpOptionsFlag::TxPadding);
    options.set_flag(IsotpOptionsFlag::CfBroadcast);
    assert_eq!(options.flags, 0x1404);
    options.set_flag(IsotpOptionsFlag::TxPadding);
    assert_eq!(options.flags, 0x1404);
    options.clear_flag(IsotpOptionsFlag::WaitTxDone);
    assert_eq!(options.flags, 0x1004);
    options.clear_flag(IsotpOptionsFlag::ListenMode);
    assert_eq!(options.flags, 0x1004);
    assert_eq!(options.txpad_content, 0xCC);
    assert_eq!(options.rxpad_content, 0xCC);
}

#[test]
fn every_flag_has_its_bit() {
    let table: [(IsotpOptionsFlag, u32); 13] = [
        (IsotpOptionsFlag::ListenMode, 0x0001),
        (IsotpOptionsFlag::ExtendedAddr, 0x0002),
        (IsotpOptionsFlag::TxPadding, 0x0004),
        (IsotpOptionsFlag::RxPadding, 0x0008),
        (IsotpOptionsFlag::CheckPadLen, 0x0010),
        (IsotpOptionsFlag::ChkPadData, 0x0020),
        (IsotpOptionsFlag::HalfDuplex, 0x0040),
        (IsotpOptionsFlag::ForceTxStMin, 0x0080),
        (IsotpOptionsFlag::ForceRxStMin, 0x0100),
        (IsotpOptionsFlag::RxExtAddr, 0x0200),
        (IsotpOptionsFlag::WaitTxDone, 0x0400),
        (IsotpOptionsFlag::SfBroadcast, 0x0800),
        (IsotpOptionsFlag::CfBroadcast, 0x1000),
    ];
    for (flag, bits) in table {
        assert_eq!(flag.bits(), bits);
        let mut options = IsoTpOptions::new();
        options.set_flag(flag);
        assert_eq!(options.flags, bits);
        options.flags = 0xFFFF_FFFF;
        options.clear_flag(flag);
        assert_eq!(options.flags, !bits);
    }
}

#[test]
fn address_holds_the_plain_identifiers() {
    assert_eq!(
        can_address(standard(0x101), standard(0x100)),
        IsotpAddress { rx_id: 0x100, tx_id: 0x101 }
    );
    assert_eq!(
        can_address(extended(0x18DA_F110), extended(0x18DA_10F1)),
        IsotpAddress { rx_id: 0x18DA_10F1, tx_id: 0x18DA_F110 }
    );
}

#[test]
fn connection_waits_for_the_end_of_a_write() {
    let options = connection_options();
    assert_eq!(options.flags, 0x0400);
    assert_eq!(options.frame_txtime, 0);
    assert_eq!(options.ext_address, 0);
    assert_eq!(options.txpad_content, 0xCC);
    assert_eq!(options.rxpad_content, 0xCC);
    assert_eq!(options.rx_ext_address, 0);
}

#[test]
fn identifiers_of_either_length_are_can_ids() {
    let id = StandardId::new(0x100).unwrap();
    assert_eq!(CanId::from(id), CanId::Standard(id));
    let id = ExtendedId::new(0x100).unwrap();
    assert_eq!(CanId::from(id), CanId::Extended(id));
    assert_ne!(CanId::from(StandardId::new(0x100).unwrap()), CanId::from(id));
}
