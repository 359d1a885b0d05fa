use socketcan_core::embedded::{Error, ErrorKind, Frame};
use socketcan_core::error::{CanError, ConstructionError};
use socketcan_core::frame::{
    can_frame_default, id_from_raw, AsPtr, CanErrorFrame, Frame as SocketFrame, CAN_EFF_FLAG,
    CAN_ERR_FLAG, CAN_RTR_FLAG,
};
use socketcan_core::id::{ExtendedId, Id, StandardId};

#[test]
fn new_error_rejects_long_payloads() {
    // Fails exactly when the payload exceeds the classic maximum of 8.
    assert!(matches!(
        CanErrorFrame::new_error(0x1, &[0u8; 9]),
        Err(ConstructionError::TooMuchData)
    ));
    assert!(matches!(
        CanErrorFrame::new_error(0x1, &[0u8; 64]),
        Err(ConstructionError::TooMuchData)
    ));
    assert!(CanErrorFrame::new_error(0x1, &[0u8; 8]).is_ok());
    assert!(CanErrorFrame::new_error(0x1, &[]).is_ok());
}

#[test]
fn new_error_forces_flags_and_length() {
    // The requested ID word carries all three flags; ERR is forced on and
    // the others are forced off, whatever the caller passed.
    let f =
        CanErrorFrame::new_error(CAN_EFF_FLAG | CAN_RTR_FLAG | CAN_ERR_FLAG | 0x42, &[1, 2]).unwrap();
    assert_eq!(f.error_bits(), 0x42);
    let word = f.id_word();
    assert_ne!(word & CAN_ERR_FLAG, 0);
    assert_eq!(word & CAN_EFF_FLAG, 0);
    assert_eq!(word & CAN_RTR_FLAG, 0);
    // The length code is always the full classic length.
    assert_eq!(f.dlc(), 8);
    assert_eq!(f.data(), &[1, 2, 0, 0, 0, 0, 0, 0][..]);
}

#[test]
fn new_error_scenario_lost_arbitration_bits() {
    let f = CanErrorFrame::new_error(0x0002, &[5]).unwrap();
    assert_eq!(f.error_bits(), 0x0002);
    assert_eq!(f.data(), &[5, 0, 0, 0, 0, 0, 0, 0][..]);
}

#[test]
fn try_from_requires_the_err_flag() {
    let mut raw = can_frame_default();
    raw.can_id = 0x123;
    assert!(matches!(
        CanErrorFrame::try_from(raw),
        Err(ConstructionError::WrongFrameType)
    ));

    raw.can_id = CAN_ERR_FLAG | 0x20;
    raw.can_dlc = 2;
    let f = CanErrorFrame::try_from(raw).unwrap();
    assert_eq!(f.error_bits(), 0x20);
    assert_eq!(f.dlc(), 2);
}

#[test]
fn error_round_trip_recovers_each_case() {
    let cases = [
        CanError::TransmitTimeout,
        CanError::LostArbitration(5),
        CanError::ControllerProblem(3),
        CanError::ProtocolViolation { vtype: 2, location: 7 },
        CanError::TransceiverError,
        CanError::NoAck,
        CanError::BusOff,
        CanError::BusError,
        CanError::Restarted,
        CanError::Unknown(0x12345),
    ];
    for err in cases {
        let frame = CanErrorFrame::from(err);
        assert_eq!(frame.into_error(), err);
    }
}

#[test]
fn decoding_failure_is_lossy_on_purpose() {
    // A decoding failure has no canonical bit pattern: it encodes to code
    // 0 and comes back as Unknown(0), not as itself.
    let frame = CanErrorFrame::from(CanError::DecodingFailure);
    assert_eq!(frame.error_bits(), 0);
    assert_eq!(frame.into_error(), CanError::Unknown(0));
}

#[test]
fn error_encoding_table_payload_bytes() {
    let f = CanErrorFrame::from(CanError::LostArbitration(9));
    assert_eq!(f.error_bits(), 0x0002);
    assert_eq!(f.data(), &[9, 0, 0, 0, 0, 0, 0, 0][..]);

    let f = CanErrorFrame::from(CanError::ControllerProblem(4));
    assert_eq!(f.error_bits(), 0x0004);
    assert_eq!(f.data(), &[0, 4, 0, 0, 0, 0, 0, 0][..]);

    let f = CanErrorFrame::from(CanError::ProtocolViolation { vtype: 6, location: 8 });
    assert_eq!(f.error_bits(), 0x0008);
    assert_eq!(f.data(), &[0, 0, 6, 8, 0, 0, 0, 0][..]);

    let f = CanErrorFrame::from(CanError::Restarted);
    assert_eq!(f.error_bits(), 0x0100);
    assert_eq!(f.data(), &[0u8; 8][..]);
}

#[test]
fn unknown_codes_decode_to_unknown() {
    let raw_bits = 0x0003; // not an assigned code
    let f = CanErrorFrame::new_error(raw_bits, &[]).unwrap();
    assert_eq!(f.into_error(), CanError::Unknown(0x0003));
}

#[test]
fn error_frame_capability_surface() {
    // Building through the generic frame capability sets the error bit.
    let id = id_from_raw(0x42).unwrap();
    let f: CanErrorFrame = Frame::new(id, &[1]).unwrap();
    assert_ne!(f.id_word() & CAN_ERR_FLAG, 0);
    assert!(<CanErrorFrame as Frame>::new(id, &[0u8; 9]).is_none());

    // A remote error frame cannot be built.
    assert!(<CanErrorFrame as Frame>::new_remote(id, 0).is_none());
    assert!(CanErrorFrame::remote_from_raw_id(0x42, 4).is_none());

    // An error frame is neither remote nor data, and never extended.
    assert!(!f.is_remote_frame());
    assert!(!f.is_data_frame());
    assert!(!f.is_extended());
    assert!(f.is_standard());

    // It carries no identifier of its own.
    assert_eq!(f.id(), Id::Standard(StandardId::new(0).unwrap()));
    assert_eq!(f.len(), f.dlc());
}

#[test]
fn error_frame_is_immutable_through_setters() {
    let mut f = CanErrorFrame::new_error(0x40, &[7]).unwrap();
    let word = f.id_word();
    f.set_id(Id::Extended(ExtendedId::new(0x1FFFF).unwrap()));
    assert_eq!(f.id_word(), word);
    assert_eq!(
        f.set_data(&[1, 2, 3]),
        Err(ConstructionError::WrongFrameType)
    );
    assert_eq!(f.data(), &[7, 0, 0, 0, 0, 0, 0, 0][..]);
}

#[test]
fn error_frame_raw_id_masks_to_standard_width() {
    let f = CanErrorFrame::new_error(0x1FFF_FFFF, &[]).unwrap();
    // An error frame is never extended, so raw_id strips to 11 bits.
    assert_eq!(f.raw_id(), 0x7FF);
}

#[test]
fn error_frame_from_raw_id_bounds() {
    assert!(CanErrorFrame::from_raw_id(0x2000_0000, &[]).is_none());
    assert!(CanErrorFrame::from_raw_id(0x123, &[0u8; 9]).is_none());
    let f = CanErrorFrame::from_raw_id(0x123, &[1, 2, 3]).unwrap();
    assert_eq!(f.error_bits(), 0x123);
}

#[test]
fn error_frame_byte_view() {
    let f = CanErrorFrame::new_error(0x2, &[5]).unwrap();
    assert_eq!(f.size(), 16);
    let bytes = f.as_bytes();
    assert_eq!(bytes.len(), 16);
    // ERR flag in the high byte of the little-endian ID word.
    assert_eq!(
        bytes,
        vec![0x02, 0, 0, 0x20, 8, 0, 0, 0, 5, 0, 0, 0, 0, 0, 0, 0]
    );
}

#[test]
fn error_kind_classifies_itself() {
    let kinds = [
        ErrorKind::Overrun,
        ErrorKind::FrameFormat,
        ErrorKind::Parity,
        ErrorKind::Noise,
        ErrorKind::Other,
    ];
    for k in kinds {
        assert_eq!(k.kind(), k);
    }
}

#[test]
fn error_kind_messages() {
    assert_eq!(
        ErrorKind::Overrun.message(),
        "The peripheral receive buffer was overrun"
    );
    assert_eq!(ErrorKind::Parity.message(), "Parity check failed");
    assert_eq!(
        ErrorKind::Noise.message(),
        "Serial line is too noisy to read valid data"
    );
    assert_eq!(
        ErrorKind::FrameFormat.message(),
        "Received data does not conform to the peripheral configuration"
    );
    assert_eq!(
        ErrorKind::Other.message(),
        "A different error occurred. The original error may contain more information"
    );
}
