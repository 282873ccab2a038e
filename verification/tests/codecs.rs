use canopeners::enums::{EmergencyErrorCode, EmergencyErrorRegister};
use canopeners::{CanFrame, CanId, CanOpenError, Emergency, Guard, GuardStatus, Message, Nmt, NmtFunction, Pdo, ReqRes, Sync};

fn blank_frame() -> CanFrame {
    CanFrame::new(0, Vec::new())
}

#[test]
fn nmt_enter_operational_to_node_10() {
    let nmt = Nmt::new(NmtFunction::EnterOperational, 10);
    let mut frame = blank_frame();
    nmt.encode(&mut frame);
    assert_eq!(frame.id, CanId::Standard(0x000));
    assert_eq!(frame.data, vec![0x01, 0x0A]);
}

#[test]
fn nmt_round_trip() {
    let nmt = Nmt::new(NmtFunction::ResetCommunication, 0x7F);
    let mut frame = blank_frame();
    nmt.encode(&mut frame);
    let back = Nmt::decode(&frame).unwrap();
    assert_eq!(back, nmt);
}

#[test]
fn nmt_short_payload_is_parse_error() {
    let frame = CanFrame::new(0x000, vec![0x01]);
    assert_eq!(Nmt::decode(&frame), Err(CanOpenError::ParseError));
}

#[test]
fn nmt_unknown_function_is_parse_error() {
    let frame = CanFrame::new(0x000, vec![0x7E, 0x0A]);
    assert_eq!(Nmt::decode(&frame), Err(CanOpenError::ParseError));
}

#[test]
fn sync_round_trip() {
    let mut frame = blank_frame();
    Sync.encode(&mut frame);
    assert_eq!(frame.id, CanId::Standard(0x080));
    assert!(frame.data.is_empty());
    assert_eq!(Sync::decode(&frame), Ok(Sync));
}

#[test]
fn sync_rejects_payload_bytes() {
    let frame = CanFrame::new(0x080, vec![1]);
    assert_eq!(Sync::decode(&frame), Err(CanOpenError::BadMessage));
}

#[test]
fn sync_rejects_wrong_id() {
    let frame = CanFrame::new(0x081, Vec::new());
    assert_eq!(Sync::decode(&frame), Err(CanOpenError::BadMessage));
}

#[test]
fn emergency_ambient_temperature_node_10() {
    let emergency = Emergency::new(
        10,
        EmergencyErrorCode::AmbientTemperature,
        vec![EmergencyErrorRegister::Temperature],
        &[1, 2],
    );
    let mut frame = blank_frame();
    emergency.encode(&mut frame);
    assert_eq!(frame.id, CanId::Standard(0x08A));
    assert_eq!(frame.data, vec![0x00, 0x41, 0x08, 0x01, 0x02, 0x00, 0x00, 0x00]);

    let back = Emergency::decode(&frame).unwrap();
    assert_eq!(back.node_id, 10);
    assert_eq!(back.error_code, EmergencyErrorCode::AmbientTemperature);
    assert_eq!(back.error_register, vec![EmergencyErrorRegister::Temperature]);
    assert_eq!(back.vendor_specific, vec![1, 2, 0, 0, 0]);
}

#[test]
fn emergency_short_payload_is_parse_error() {
    let frame = CanFrame::new(0x08A, vec![0, 0x41, 0, 0, 0, 0, 0]);
    assert!(matches!(Emergency::decode(&frame), Err(CanOpenError::ParseError)));
}

#[test]
fn emergency_unknown_code_is_parse_error() {
    // 0x0100 falls outside every error-code bucket.
    let frame = CanFrame::new(0x08A, vec![0x00, 0x01, 0x00, 0, 0, 0, 0, 0]);
    assert!(matches!(Emergency::decode(&frame), Err(CanOpenError::ParseError)));
}

#[test]
fn emergency_register_decodes_every_set_bit() {
    let frame = CanFrame::new(0x081, vec![0x00, 0x10, 0xFF, 0, 0, 0, 0, 0]);
    let back = Emergency::decode(&frame).unwrap();
    assert_eq!(back.error_register.len(), 8);
    assert_eq!(back.error_register[0], EmergencyErrorRegister::GenericError);
    assert_eq!(back.error_register[7], EmergencyErrorRegister::ManufacturerSpecific);
}

#[test]
fn guard_operational_node_10() {
    let guard = Guard::new(10, false, GuardStatus::Operational);
    let mut frame = blank_frame();
    guard.encode(&mut frame);
    assert_eq!(frame.id, CanId::Standard(0x70A));
    assert_eq!(frame.data, vec![0x05]);
}

#[test]
fn guard_round_trip_with_toggle() {
    let guard = Guard::new(0x7F, true, GuardStatus::PreOperational);
    let mut frame = blank_frame();
    guard.encode(&mut frame);
    assert_eq!(frame.data, vec![0xFF]);
    let back = Guard::decode(&frame).unwrap();
    assert_eq!(back, guard);
}

#[test]
fn guard_unknown_status_is_parse_error() {
    let frame = CanFrame::new(0x70A, vec![0x03]);
    assert_eq!(Guard::decode(&frame), Err(CanOpenError::ParseError));
}

#[test]
fn guard_empty_payload_is_parse_error() {
    let frame = CanFrame::new(0x70A, Vec::new());
    assert_eq!(Guard::decode(&frame), Err(CanOpenError::ParseError));
}

#[test]
fn guard_wrong_id_is_bad_message() {
    let frame = CanFrame::new(0x67F, vec![0x05]);
    assert_eq!(Guard::decode(&frame), Err(CanOpenError::BadMessage));
}

#[test]
fn pdo_index_1_req_node_10() {
    let pdo = Pdo::new(10, 1, &[3, 4, 0]).unwrap();
    let mut frame = blank_frame();
    pdo.encode(&mut frame);
    assert_eq!(frame.id, CanId::Standard(0x20A));
    assert_eq!(frame.data, vec![0x03, 0x04, 0x00]);
}

#[test]
fn pdo_constructor_rejects_empty_data() {
    assert_eq!(Pdo::new(10, 1, &[]).err(), Some(CanOpenError::BadMessage));
}

#[test]
fn pdo_constructor_rejects_nine_bytes() {
    assert_eq!(Pdo::new(10, 1, &[0; 9]).err(), Some(CanOpenError::BadMessage));
}

#[test]
fn pdo_response_direction_round_trips() {
    let pdo = Pdo { node_id: 10, pdo_index: 1, reqres: ReqRes::Res, data: vec![7, 8] };
    let mut frame = blank_frame();
    pdo.encode(&mut frame);
    assert_eq!(frame.id, CanId::Standard(0x10A));
    let back = Pdo::decode(&frame).unwrap();
    assert_eq!(back, pdo);
}

#[test]
fn pdo_request_encoding_reads_back_as_response_channel_above() {
    // The COB-ID layout shifts request channels up by one and the decoder
    // takes bit 0x80 (always clear in an encoded PDO) as the response
    // direction, so a request PDO decodes as the response of the next
    // channel.
    let pdo = Pdo::new(10, 1, &[3, 4, 0]).unwrap();
    let mut frame = blank_frame();
    pdo.encode(&mut frame);
    let back = Pdo::decode(&frame).unwrap();
    assert_eq!(back.reqres, ReqRes::Res);
    assert_eq!(back.pdo_index, 2);
    assert_eq!(back.node_id, 10);
    assert_eq!(back.data, vec![3, 4, 0]);
}

#[test]
fn extended_identifier_is_can_version_error() {
    let frame = CanFrame { id: CanId::Extended(0x18DAF110), data: vec![0x05] };
    assert!(matches!(Message::decode(&frame), Err(CanOpenError::CanVersion)));
    assert!(matches!(Guard::decode(&frame), Err(CanOpenError::CanVersion)));
    assert!(matches!(Sync::decode(&frame), Err(CanOpenError::CanVersion)));
    assert!(matches!(Pdo::decode(&frame), Err(CanOpenError::CanVersion)));
}

#[test]
fn dispatcher_routes_by_cob_id() {
    let mut frame = blank_frame();
    Nmt::new(NmtFunction::EnterStop, 3).encode(&mut frame);
    assert!(matches!(Message::decode(&frame), Ok(Message::Nmt(_))));

    Sync.encode(&mut frame);
    assert!(matches!(Message::decode(&frame), Ok(Message::Sync(_))));

    Emergency::new(9, EmergencyErrorCode::GenericError, vec![], &[]).encode(&mut frame);
    assert!(matches!(Message::decode(&frame), Ok(Message::Emergency(_))));

    Guard::new(5, true, GuardStatus::Boot).encode(&mut frame);
    assert!(matches!(Message::decode(&frame), Ok(Message::Guard(_))));

    let pdo = Pdo { node_id: 4, pdo_index: 2, reqres: ReqRes::Res, data: vec![1] };
    pdo.encode(&mut frame);
    assert!(matches!(Message::decode(&frame), Ok(Message::Pdo(_))));
}

#[test]
fn dispatcher_rejects_unknown_cob_id() {
    let frame = CanFrame::new(0x7F0, vec![0]);
    assert!(matches!(
        Message::decode(&frame),
        Err(CanOpenError::UnknownFrameRWType(0x7F0))
    ));
}

#[test]
fn message_encode_matches_type_encoders() {
    let guard = Guard::new(10, false, GuardStatus::Operational);
    let mut direct = blank_frame();
    guard.encode(&mut direct);
    let mut routed = blank_frame();
    Message::Guard(guard).encode(&mut routed);
    assert_eq!(direct, routed);
}

#[test]
fn guard_status_byte_conversions() {
    assert_eq!(GuardStatus::try_from_byte(0x00), Ok(GuardStatus::Boot));
    assert_eq!(GuardStatus::try_from_byte(0x04), Ok(GuardStatus::Stopped));
    assert_eq!(GuardStatus::try_from_byte(0x05), Ok(GuardStatus::Operational));
    assert_eq!(GuardStatus::try_from_byte(0x7F), Ok(GuardStatus::PreOperational));
    assert_eq!(GuardStatus::try_from_byte(0x01), Err(CanOpenError::ParseError));
}

#[test]
fn reqres_sdo_cob_id_bases() {
    assert_eq!(ReqRes::Req.to_u16_sdo(), 0x600);
    assert_eq!(ReqRes::Res.to_u16_sdo(), 0x580);
    assert_eq!(ReqRes::from_u16_sdo(0x58A), ReqRes::Res);
    assert_eq!(ReqRes::from_u16_sdo(0x60A), ReqRes::Req);
}
