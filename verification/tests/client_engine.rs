use canopeners::enums::AbortCode;
use canopeners::{
    is_sdo_ack, sdo_write_frames, CanFrame, CanId, CanOpenError, Message, Nmt, NmtFunction,
    ReqRes, Sdo, SdoCmd, SdoCmdAbortTransfer, SdoCmdDownloadSegmentRx, SdoCmdDownloadSegmentTx,
    SdoCmdInitiateDownloadRx, SdoCmdInitiatePayload, SdoCmdInitiateUploadTx,
    SdoCmdUploadSegmentRx, SdoCmdUploadSegmentTx, SdoReadStep, SdoReadTransfer,
};

#[test]
fn write_of_nothing_sends_nothing() {
    let frames = sdo_write_frames(0x10, 0x1000, 1, &[]).unwrap();
    assert!(frames.is_empty());
}

#[test]
fn write_of_four_bytes_is_one_expedited_frame() {
    let frames = sdo_write_frames(10, 1, 2, &[3, 4, 0, 0]).unwrap();
    assert_eq!(frames.len(), 1);
    let mut frame = CanFrame::new(0, Vec::new());
    frames[0].encode(&mut frame);
    assert_eq!(frame.id, CanId::Standard(0x60A));
    assert_eq!(frame.data, vec![0x23, 0x01, 0x00, 0x02, 0x03, 0x04, 0x00, 0x00]);
}

#[test]
fn segmented_write_of_ten_bytes() {
    let data: Vec<u8> = (1..=10).collect();
    let frames = sdo_write_frames(0x10, 0x1000, 1, &data).unwrap();
    assert_eq!(frames.len(), 3);

    assert_eq!(
        frames[0],
        Sdo {
            node_id: 0x10,
            reqres: ReqRes::Req,
            command: SdoCmd::InitiateDownloadRx(SdoCmdInitiateDownloadRx {
                index: 0x1000,
                sub_index: 1,
                payload: SdoCmdInitiatePayload::Segmented(Some(10)),
            }),
        }
    );
    let mut init = CanFrame::new(0, Vec::new());
    frames[0].encode(&mut init);
    assert_eq!(init.id, CanId::Standard(0x610));
    assert_eq!(init.data, vec![0x21, 0x00, 0x10, 0x01, 0x0A, 0x00, 0x00, 0x00]);

    assert_eq!(
        frames[1],
        Sdo {
            node_id: 0x10,
            reqres: ReqRes::Req,
            command: SdoCmd::DownloadSegmentRx(SdoCmdDownloadSegmentRx {
                toggle: false,
                data: (1..=7).collect(),
                last: false,
            }),
        }
    );
    assert_eq!(
        frames[2],
        Sdo {
            node_id: 0x10,
            reqres: ReqRes::Req,
            command: SdoCmd::DownloadSegmentRx(SdoCmdDownloadSegmentRx {
                toggle: true,
                data: vec![8, 9, 10],
                last: true,
            }),
        }
    );
    let mut seg = CanFrame::new(0, Vec::new());
    frames[2].encode(&mut seg);
    assert_eq!(seg.data, vec![0x19, 0x08, 0x09, 0x0A, 0x00, 0x00, 0x00, 0x00]);
}

#[test]
fn segmented_write_toggle_alternates_from_false() {
    let data = [0u8; 30];
    let frames = sdo_write_frames(1, 1, 1, &data).unwrap();
    assert_eq!(frames.len(), 6);
    for (i, frame) in frames.iter().enumerate().skip(1) {
        match &frame.command {
            SdoCmd::DownloadSegmentRx(seg) => {
                assert_eq!(seg.toggle, (i - 1) % 2 == 1, "segment {i}");
                assert_eq!(seg.last, i == 5);
                assert_eq!(seg.data.len(), if i == 5 { 2 } else { 7 });
            },
            other => panic!("segment expected, got {other:?}"),
        }
    }
}

#[test]
fn expedited_read_finishes_at_once() {
    let mut transfer = SdoReadTransfer::new(0x10, 0x1000, 1);
    let req = transfer.initial_request();
    let mut frame = CanFrame::new(0, Vec::new());
    req.encode(&mut frame);
    assert_eq!(frame.id, CanId::Standard(0x610));
    assert_eq!(frame.data, vec![0x40, 0x00, 0x10, 0x01, 0x00, 0x00, 0x00, 0x00]);

    let resp = SdoCmd::InitiateUploadTx(SdoCmdInitiateUploadTx {
        index: 0x1000,
        sub_index: 1,
        payload: SdoCmdInitiatePayload::Expedited(vec![0xCA, 0xFE]),
    });
    match transfer.on_response(&resp).unwrap() {
        SdoReadStep::Done(data) => assert_eq!(data, vec![0xCA, 0xFE]),
        other => panic!("expected completion, got {other:?}"),
    }
}

#[test]
fn segmented_read_of_ten_bytes() {
    let upload: Vec<u8> = (1..=10).rev().collect();
    let mut transfer = SdoReadTransfer::new(0x10, 0x1000, 1);
    let _ = transfer.initial_request();

    let init_resp = SdoCmd::InitiateUploadTx(SdoCmdInitiateUploadTx {
        index: 0x1000,
        sub_index: 1,
        payload: SdoCmdInitiatePayload::Segmented(Some(10)),
    });
    let step = transfer.on_response(&init_resp).unwrap();
    match step {
        SdoReadStep::Request(q) => {
            assert_eq!(
                q.command,
                SdoCmd::UploadSegmentRx(SdoCmdUploadSegmentRx { toggle: false })
            );
        },
        other => panic!("expected a segment request, got {other:?}"),
    }

    let seg1 = SdoCmd::UploadSegmentTx(SdoCmdUploadSegmentTx {
        toggle: false,
        data: upload[..7].to_vec(),
        last: false,
    });
    match transfer.on_response(&seg1).unwrap() {
        SdoReadStep::Request(q) => {
            assert_eq!(
                q.command,
                SdoCmd::UploadSegmentRx(SdoCmdUploadSegmentRx { toggle: true })
            );
        },
        other => panic!("expected a segment request, got {other:?}"),
    }

    let seg2 = SdoCmd::UploadSegmentTx(SdoCmdUploadSegmentTx {
        toggle: true,
        data: upload[7..].to_vec(),
        last: true,
    });
    match transfer.on_response(&seg2).unwrap() {
        SdoReadStep::Done(data) => assert_eq!(data, vec![10, 9, 8, 7, 6, 5, 4, 3, 2, 1]),
        other => panic!("expected completion, got {other:?}"),
    }
}

#[test]
fn read_surfaces_an_abort_with_its_code() {
    let mut transfer = SdoReadTransfer::new(0x10, 0x1000, 1);
    let _ = transfer.initial_request();
    let abort = SdoCmd::AbortTransfer(SdoCmdAbortTransfer {
        index: 0x1000,
        sub_index: 1,
        abort_code: AbortCode::ObjectNotInDictionary,
    });
    assert_eq!(
        transfer.on_response(&abort),
        Err(CanOpenError::SdoAbortTransfer(AbortCode::ObjectNotInDictionary))
    );
}

#[test]
fn ack_matching_accepts_the_counterpart_response() {
    let request = SdoCmd::UploadSegmentRx(SdoCmdUploadSegmentRx { toggle: false });
    let response = Message::Sdo(Sdo {
        node_id: 7,
        reqres: ReqRes::Res,
        command: SdoCmd::UploadSegmentTx(SdoCmdUploadSegmentTx {
            toggle: false,
            data: vec![1],
            last: true,
        }),
    });
    assert_eq!(is_sdo_ack(&response, &request, 7), Ok(true));
}

#[test]
fn ack_matching_ignores_other_nodes_and_other_messages() {
    let request = SdoCmd::UploadSegmentRx(SdoCmdUploadSegmentRx { toggle: false });
    let other_node = Message::Sdo(Sdo {
        node_id: 8,
        reqres: ReqRes::Res,
        command: SdoCmd::UploadSegmentTx(SdoCmdUploadSegmentTx {
            toggle: false,
            data: vec![1],
            last: true,
        }),
    });
    assert_eq!(is_sdo_ack(&other_node, &request, 7), Ok(false));

    let not_sdo = Message::Nmt(Nmt::new(NmtFunction::EnterOperational, 7));
    assert_eq!(is_sdo_ack(&not_sdo, &request, 7), Ok(false));

    let wrong_kind = Message::Sdo(Sdo {
        node_id: 7,
        reqres: ReqRes::Res,
        command: SdoCmd::DownloadSegmentTx(SdoCmdDownloadSegmentTx { toggle: false }),
    });
    assert_eq!(is_sdo_ack(&wrong_kind, &request, 7), Ok(false));
}

#[test]
fn ack_matching_fails_on_an_abort_for_this_node() {
    let request = SdoCmd::UploadSegmentRx(SdoCmdUploadSegmentRx { toggle: false });
    let abort = Message::Sdo(Sdo {
        node_id: 7,
        reqres: ReqRes::Res,
        command: SdoCmd::AbortTransfer(SdoCmdAbortTransfer {
            index: 0,
            sub_index: 0,
            abort_code: AbortCode::SdoProtocolTimedOut,
        }),
    });
    assert_eq!(
        is_sdo_ack(&abort, &request, 7),
        Err(CanOpenError::SdoAbortTransfer(AbortCode::SdoProtocolTimedOut))
    );
}
