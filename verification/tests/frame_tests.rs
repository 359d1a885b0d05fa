use socketcan_core::frame::{
    can_frame, can_frame_default, can_frame_from_bytes, canfd_frame, canfd_frame_default,
    canfd_frame_from_bytes, AsPtr, CanRawFrame, FdFlags, IdFlags, CANFD_BRS, CANFD_ESI,
    CAN_EFF_FLAG, CAN_ERR_FLAG, CAN_RTR_FLAG,
};

#[test]
fn id_flags_read_the_top_bits() {
    let f = IdFlags::new(CAN_EFF_FLAG | 0x123);
    assert!(f.is_extended());
    assert!(!f.is_remote());
    assert!(!f.is_error());

    let f = IdFlags::new(CAN_RTR_FLAG);
    assert!(!f.is_extended());
    assert!(f.is_remote());
    assert!(!f.is_error());

    let f = IdFlags::new(CAN_ERR_FLAG | 0x2);
    assert!(f.is_error());

    let f = IdFlags::new(0x1FFF_FFFF);
    assert!(!f.is_extended() && !f.is_remote() && !f.is_error());
}

#[test]
fn fd_flags_read_brs_and_esi() {
    assert!(FdFlags::new(CANFD_BRS).is_brs());
    assert!(!FdFlags::new(CANFD_BRS).is_esi());
    assert!(FdFlags::new(CANFD_ESI).is_esi());
    assert!(FdFlags::new(CANFD_BRS | CANFD_ESI).is_brs());
    assert!(!FdFlags::new(0).is_brs() && !FdFlags::new(0).is_esi());
}

#[test]
fn defaults_are_all_zero() {
    let f = can_frame_default();
    assert_eq!(f.can_id, 0);
    assert_eq!(f.can_dlc, 0);
    assert_eq!(f.data, [0u8; 8]);

    let f = canfd_frame_default();
    assert_eq!(f.can_id, 0);
    assert_eq!(f.len, 0);
    assert_eq!(f.flags, 0);
    assert_eq!(f.data, [0u8; 64]);
}

#[test]
fn can_frame_byte_image_layout() {
    let mut f = can_frame_default();
    f.can_id = 0x0000_0123;
    f.can_dlc = 3;
    f.data = [0xAA, 0xBB, 0xCC, 0, 0, 0, 0, 0];
    let bytes = f.as_bytes();
    assert_eq!(f.size(), 16);
    assert_eq!(bytes.len(), 16);
    // ID word least-significant byte first, length code, three reserved
    // zero bytes, then the payload.
    assert_eq!(
        bytes,
        vec![0x23, 0x01, 0, 0, 3, 0, 0, 0, 0xAA, 0xBB, 0xCC, 0, 0, 0, 0, 0]
    );
}

#[test]
fn can_frame_bytes_round_trip() {
    let mut f = can_frame_default();
    f.can_id = CAN_EFF_FLAG | 0x1ABC_DEF0 & 0x1FFF_FFFF;
    f.can_dlc = 8;
    f.data = [1, 2, 3, 4, 5, 6, 7, 8];
    let bytes = f.as_bytes();
    let back = can_frame_from_bytes(&bytes).unwrap();
    assert_eq!(back, f);
}

#[test]
fn can_frame_from_bytes_needs_exact_size() {
    assert!(can_frame_from_bytes(&[]).is_none());
    assert!(can_frame_from_bytes(&[0u8; 15]).is_none());
    assert!(can_frame_from_bytes(&[0u8; 17]).is_none());
    assert!(can_frame_from_bytes(&[0u8; 16]).is_some());
}

#[test]
fn canfd_frame_byte_image_layout() {
    let mut f = canfd_frame_default();
    f.can_id = 0x0000_0456;
    f.len = 12;
    f.flags = (CANFD_BRS | CANFD_ESI) as u8;
    f.data[0] = 0x11;
    f.data[63] = 0x99;
    let bytes = f.as_bytes();
    assert_eq!(f.size(), 72);
    assert_eq!(bytes.len(), 72);
    assert_eq!(&bytes[..8], &[0x56, 0x04, 0, 0, 12, 3, 0, 0]);
    assert_eq!(bytes[8], 0x11);
    assert_eq!(bytes[71], 0x99);
}

#[test]
fn canfd_frame_bytes_round_trip() {
    let mut f = canfd_frame_default();
    f.can_id = 0x1FFF_FFFF;
    f.len = 64;
    for (i, b) in f.data.iter_mut().enumerate() {
        *b = i as u8;
    }
    let bytes = f.as_bytes();
    let back = canfd_frame_from_bytes(&bytes).unwrap();
    assert_eq!(back, f);
    assert!(canfd_frame_from_bytes(&bytes[..71]).is_none());
}

#[test]
fn raw_frame_wraps_both_kinds() {
    let classic = can_frame_default();
    let fd = canfd_frame_default();
    assert!(matches!(CanRawFrame::from(classic), CanRawFrame::Classic(_)));
    assert!(matches!(CanRawFrame::from(fd), CanRawFrame::Fd(_)));
}
