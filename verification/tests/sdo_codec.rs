use canopeners::enums::AbortCode;
use canopeners::{
    CanFrame, CanId, CanOpenError, ReqRes, Sdo, SdoCmd, SdoCmdAbortTransfer,
    SdoCmdDownloadSegmentRx, SdoCmdDownloadSegmentTx, SdoCmdInitiateDownloadRx,
    SdoCmdInitiateDownloadTx, SdoCmdInitiatePayload, SdoCmdInitiateUploadRx,
    SdoCmdInitiateUploadTx, SdoCmdSpec, SdoCmdUploadSegmentRx, SdoCmdUploadSegmentTx,
};

fn blank_frame() -> CanFrame {
    CanFrame::new(0, Vec::new())
}

fn round_trip(sdo: &Sdo) -> Sdo {
    let mut frame = blank_frame();
    sdo.encode(&mut frame);
    Sdo::decode(&frame).unwrap()
}

#[test]
fn expedited_write_4_bytes_to_node_10() {
    let sdo = Sdo::new_write(10, 1, 2, vec![3, 4, 0, 0]);
    let mut frame = blank_frame();
    sdo.encode(&mut frame);
    assert_eq!(frame.id, CanId::Standard(0x60A));
    assert_eq!(frame.data, vec![0x23, 0x01, 0x00, 0x02, 0x03, 0x04, 0x00, 0x00]);

    let resp = Sdo::new_write_resp(10, 1, 2);
    let mut ack = blank_frame();
    resp.encode(&mut ack);
    assert_eq!(ack.id, CanId::Standard(0x58A));
    assert_eq!(ack.data, vec![0x60, 0x01, 0x00, 0x02, 0x00, 0x00, 0x00, 0x00]);
}

#[test]
fn expedited_n_field_for_each_length() {
    // `n` (bits 2..3 of byte 0) counts the unused payload bytes, and the
    // unused bytes stay zero.
    let expected_byte0 = [0x2F, 0x2B, 0x27, 0x23];
    for len in 1..=4usize {
        let data: Vec<u8> = (1..=len as u8).collect();
        let sdo = Sdo::new_write(1, 0x2000, 0, data.clone());
        let mut frame = blank_frame();
        sdo.encode(&mut frame);
        assert_eq!(frame.data[0], expected_byte0[len - 1], "len {len}");
        for k in 0..4 {
            let expected = if k < len { data[k] } else { 0 };
            assert_eq!(frame.data[4 + k], expected, "len {len} byte {k}");
        }
    }
}

#[test]
fn initiate_download_rx_round_trips() {
    for data in [vec![9], vec![9, 8], vec![9, 8, 7], vec![9, 8, 7, 6]] {
        let sdo = Sdo::new_write(0x22, 0x1234, 0x56, data);
        assert_eq!(round_trip(&sdo), sdo);
    }
    let segmented = Sdo {
        node_id: 0x22,
        reqres: ReqRes::Req,
        command: SdoCmd::InitiateDownloadRx(SdoCmdInitiateDownloadRx {
            index: 0x1234,
            sub_index: 0x56,
            payload: SdoCmdInitiatePayload::Segmented(Some(0xDEAD_BEEF)),
        }),
    };
    assert_eq!(round_trip(&segmented), segmented);
    let unsized_segmented = Sdo {
        node_id: 0x22,
        reqres: ReqRes::Req,
        command: SdoCmd::InitiateDownloadRx(SdoCmdInitiateDownloadRx {
            index: 0x1234,
            sub_index: 0x56,
            payload: SdoCmdInitiatePayload::Segmented(None),
        }),
    };
    assert_eq!(round_trip(&unsized_segmented), unsized_segmented);
}

#[test]
fn initiate_download_tx_round_trips() {
    let sdo = Sdo {
        node_id: 0x10,
        reqres: ReqRes::Res,
        command: SdoCmd::InitiateDownloadTx(SdoCmdInitiateDownloadTx {
            index: 0xFFFF,
            sub_index: 0xFF,
        }),
    };
    assert_eq!(round_trip(&sdo), sdo);
}

#[test]
fn download_segment_rx_round_trips() {
    for len in 0..=7usize {
        let sdo = Sdo {
            node_id: 5,
            reqres: ReqRes::Req,
            command: SdoCmd::DownloadSegmentRx(SdoCmdDownloadSegmentRx {
                toggle: len % 2 == 0,
                data: (0..len as u8).collect(),
                last: len == 7,
            }),
        };
        assert_eq!(round_trip(&sdo), sdo, "len {len}");
    }
}

#[test]
fn download_segment_tx_round_trips() {
    for toggle in [false, true] {
        let sdo = Sdo {
            node_id: 5,
            reqres: ReqRes::Res,
            command: SdoCmd::DownloadSegmentTx(SdoCmdDownloadSegmentTx { toggle }),
        };
        assert_eq!(round_trip(&sdo), sdo);
    }
}

#[test]
fn initiate_upload_rx_round_trips() {
    let sdo = Sdo {
        node_id: 0x40,
        reqres: ReqRes::Req,
        command: SdoCmd::InitiateUploadRx(SdoCmdInitiateUploadRx { index: 0x1000, sub_index: 1 }),
    };
    let mut frame = blank_frame();
    sdo.encode(&mut frame);
    assert_eq!(frame.data[0], 0x40);
    assert_eq!(round_trip(&sdo), sdo);
}

#[test]
fn initiate_upload_tx_round_trips() {
    let expedited = Sdo {
        node_id: 0x40,
        reqres: ReqRes::Res,
        command: SdoCmd::InitiateUploadTx(SdoCmdInitiateUploadTx {
            index: 0x1000,
            sub_index: 1,
            payload: SdoCmdInitiatePayload::Expedited(vec![0xAA, 0xBB]),
        }),
    };
    assert_eq!(round_trip(&expedited), expedited);
    let segmented = Sdo {
        node_id: 0x40,
        reqres: ReqRes::Res,
        command: SdoCmd::InitiateUploadTx(SdoCmdInitiateUploadTx {
            index: 0x1000,
            sub_index: 1,
            payload: SdoCmdInitiatePayload::Segmented(Some(10)),
        }),
    };
    assert_eq!(round_trip(&segmented), segmented);
}

#[test]
fn upload_segment_rx_round_trips() {
    for toggle in [false, true] {
        let sdo = Sdo {
            node_id: 0x11,
            reqres: ReqRes::Req,
            command: SdoCmd::UploadSegmentRx(SdoCmdUploadSegmentRx { toggle }),
        };
        assert_eq!(round_trip(&sdo), sdo);
    }
}

#[test]
fn upload_segment_tx_round_trips() {
    let sdo = Sdo {
        node_id: 0x11,
        reqres: ReqRes::Res,
        command: SdoCmd::UploadSegmentTx(SdoCmdUploadSegmentTx {
            toggle: true,
            data: vec![1, 2, 3],
            last: true,
        }),
    };
    assert_eq!(round_trip(&sdo), sdo);
}

#[test]
fn abort_transfer_round_trips_in_both_directions() {
    for reqres in [ReqRes::Req, ReqRes::Res] {
        let sdo = Sdo {
            node_id: 0x33,
            reqres,
            command: SdoCmd::AbortTransfer(SdoCmdAbortTransfer {
                index: 0x6060,
                sub_index: 2,
                abort_code: AbortCode::ObjectNotInDictionary,
            }),
        };
        assert_eq!(round_trip(&sdo), sdo);
    }
}

#[test]
fn abort_frame_layout() {
    let sdo = Sdo {
        node_id: 1,
        reqres: ReqRes::Res,
        command: SdoCmd::AbortTransfer(SdoCmdAbortTransfer {
            index: 0x1234,
            sub_index: 0x56,
            abort_code: AbortCode::ToggleBitNotAlternated,
        }),
    };
    let mut frame = blank_frame();
    sdo.encode(&mut frame);
    assert_eq!(frame.data, vec![0x80, 0x34, 0x12, 0x56, 0x00, 0x00, 0x03, 0x05]);
}

#[test]
fn unknown_abort_code_is_parse_error() {
    let frame = CanFrame::new(0x581, vec![0x80, 0, 0, 0, 0xEF, 0xBE, 0xAD, 0xDE]);
    assert!(matches!(Sdo::decode(&frame), Err(CanOpenError::ParseError)));
}

#[test]
fn block_transfer_is_not_yet_implemented() {
    // scs 5 (block upload) in a request frame.
    let frame = CanFrame::new(0x601, vec![0xA0, 0, 0, 0, 0, 0, 0, 0]);
    assert!(matches!(Sdo::decode(&frame), Err(CanOpenError::NotYetImplemented)));
}

#[test]
fn scs_7_is_parse_error() {
    let frame = CanFrame::new(0x601, vec![0xE0, 0, 0, 0, 0, 0, 0, 0]);
    assert!(matches!(Sdo::decode(&frame), Err(CanOpenError::ParseError)));
    assert!(matches!(
        SdoCmdSpec::from_byte(0xE0, ReqRes::Req),
        Err(CanOpenError::ParseError)
    ));
}

#[test]
fn command_specifier_depends_on_direction() {
    assert_eq!(SdoCmdSpec::from_byte(0x23, ReqRes::Req), Ok(SdoCmdSpec::InitiateDownload));
    assert_eq!(SdoCmdSpec::from_byte(0x23, ReqRes::Res), Ok(SdoCmdSpec::DownloadSegment));
    assert_eq!(SdoCmdSpec::from_byte(0x60, ReqRes::Req), Ok(SdoCmdSpec::UploadSegment));
    assert_eq!(SdoCmdSpec::from_byte(0x60, ReqRes::Res), Ok(SdoCmdSpec::InitiateDownload));
    assert_eq!(SdoCmdSpec::from_byte(0x80, ReqRes::Req), Ok(SdoCmdSpec::AbortTransfer));
    assert_eq!(SdoCmdSpec::from_byte(0x80, ReqRes::Res), Ok(SdoCmdSpec::AbortTransfer));
}

#[test]
fn short_sdo_payload_is_parse_error() {
    let frame = CanFrame::new(0x601, vec![0x40, 0, 0]);
    assert!(matches!(Sdo::decode(&frame), Err(CanOpenError::ParseError)));
}

#[test]
fn non_sdo_cob_id_is_bad_message() {
    let frame = CanFrame::new(0x70A, vec![0x40, 0, 0, 0, 0, 0, 0, 0]);
    assert!(matches!(Sdo::decode(&frame), Err(CanOpenError::BadMessage)));
}

#[test]
fn is_response_to_matches_exactly_the_table() {
    let requests: Vec<SdoCmd> = vec![
        SdoCmd::DownloadSegmentRx(SdoCmdDownloadSegmentRx {
            toggle: false,
            data: vec![1],
            last: true,
        }),
        SdoCmd::InitiateDownloadRx(SdoCmdInitiateDownloadRx {
            index: 1,
            sub_index: 2,
            payload: SdoCmdInitiatePayload::Segmented(None),
        }),
        SdoCmd::InitiateUploadRx(SdoCmdInitiateUploadRx { index: 1, sub_index: 2 }),
        SdoCmd::UploadSegmentRx(SdoCmdUploadSegmentRx { toggle: false }),
        SdoCmd::BlockUploadRx,
        SdoCmd::BlockDownloadRx,
    ];
    let responses: Vec<SdoCmd> = vec![
        SdoCmd::DownloadSegmentTx(SdoCmdDownloadSegmentTx { toggle: false }),
        SdoCmd::InitiateDownloadTx(SdoCmdInitiateDownloadTx { index: 1, sub_index: 2 }),
        SdoCmd::InitiateUploadTx(SdoCmdInitiateUploadTx {
            index: 1,
            sub_index: 2,
            payload: SdoCmdInitiatePayload::Segmented(None),
        }),
        SdoCmd::UploadSegmentTx(SdoCmdUploadSegmentTx {
            toggle: false,
            data: vec![1],
            last: true,
        }),
        SdoCmd::BlockUploadTx,
        SdoCmd::BlockDownloadTx,
    ];
    for (i, req) in requests.iter().enumerate() {
        for (j, res) in responses.iter().enumerate() {
            assert_eq!(SdoCmd::is_response_to(req, res), i == j, "req {i} res {j}");
        }
        // A request never answers a request, and responses answer nothing.
        for other in requests.iter() {
            assert!(!SdoCmd::is_response_to(req, other));
        }
        for res in responses.iter() {
            assert!(!SdoCmd::is_response_to(res, req));
        }
    }
}
