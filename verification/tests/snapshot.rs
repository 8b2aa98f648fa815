use bc_camera::model::{
    Bc, BcBody, BcMeta, BcPayloads, BcXml, Extension, ModernMsg, Snap, MSG_ID_SNAP,
};
use bc_camera::{BcCamera, ChunkStep, Error, SnapshotFetch};
use std::sync::Arc;

struct Mock;

const MIB: usize = 1024 * 1024;

fn camera() -> BcCamera<Mock> {
    let mut cam = BcCamera::from_mock_connection(Arc::new(Mock));
    cam.test_set_ability("preview".to_string(), false);
    cam
}

fn meta(msg_num: u16, code: u16) -> BcMeta {
    BcMeta {
        msg_id: MSG_ID_SNAP,
        channel_id: 0,
        msg_num,
        stream_type: 0,
        response_code: code,
        class: 0x6414,
    }
}

fn bare(msg_num: u16, code: u16) -> Bc {
    Bc {
        meta: meta(msg_num, code),
        body: BcBody::ModernMsg(ModernMsg {
            extension: None,
            payload: None,
        }),
    }
}

fn with_payload(code: u16, mark: Option<u32>, payload: Option<BcPayloads>) -> Bc {
    Bc {
        meta: meta(42, code),
        body: BcBody::ModernMsg(ModernMsg {
            extension: Some(Extension {
                channel_id: None,
                binary_data: mark,
            }),
            payload,
        }),
    }
}

fn binary_chunk(msg_num: u16, code: u16, data: Vec<u8>) -> Bc {
    let mut chunk = with_payload(code, Some(1), Some(BcPayloads::Binary(data)));
    chunk.meta.msg_num = msg_num;
    chunk
}

fn xml_reply(msg_num: u16, snap: Option<Snap>) -> Bc {
    Bc {
        meta: meta(msg_num, 200),
        body: BcBody::ModernMsg(ModernMsg {
            extension: None,
            payload: Some(BcPayloads::BcXml(BcXml { snap })),
        }),
    }
}

fn announcement(file_name: &str, picture_size: u32) -> Snap {
    Snap {
        version: "1.1".to_string(),
        channel_id: 0,
        logic_channel: Some(0),
        time: 0,
        full_frame: Some(0),
        stream_type: Some("main".to_string()),
        file_name: Some(file_name.to_string()),
        picture_size: Some(picture_size),
    }
}

/// Runs a fetch against scripted answers; `chunks` are used up in order.
fn fetch(
    cam: &mut BcCamera<Mock>,
    reply: impl FnOnce(&Bc) -> Bc,
    chunks: &mut Vec<Bc>,
) -> Result<Vec<u8>, Error> {
    let (fetch, request) = cam.get_snapshot()?;
    let mut transfer = fetch.on_reply(reply(&request))?;
    loop {
        let chunk = chunks.remove(0);
        match transfer.on_chunk(chunk) {
            ChunkStep::More(next) => transfer = next,
            ChunkStep::Complete(data) => return Ok(data),
            ChunkStep::Failed(e) => return Err(e),
        }
    }
}

fn announce(size: u32) -> impl FnOnce(&Bc) -> Bc {
    move |req: &Bc| xml_reply(req.meta.msg_num, Some(announcement("snap.jpg", size)))
}

#[test]
fn get_snapshot_missing_ability_returns_err() {
    let mut cam = BcCamera::from_mock_connection(Arc::new(Mock));
    let err = cam.get_snapshot().err().expect("should fail");
    assert!(matches!(err, Error::MissingAbility { .. }));
    // Nothing was sent, so no message number was used up.
    assert_eq!(cam.new_message_num(), 0);
}

#[test]
fn get_snapshot_non_200_returns_err() {
    let mut cam = camera();
    let err = fetch(&mut cam, |req| bare(req.meta.msg_num, 500), &mut vec![])
        .expect_err("should fail");
    assert!(matches!(
        err,
        Error::CameraServiceUnavailable {
            id: MSG_ID_SNAP,
            code: 500
        }
    ));
}

#[test]
fn get_snapshot_missing_snap_xml_returns_err() {
    let mut cam = camera();
    let err = fetch(
        &mut cam,
        |req| xml_reply(req.meta.msg_num, None),
        &mut vec![],
    )
    .expect_err("should fail");
    assert!(matches!(err, Error::UnintelligibleReply { .. }));
}

#[test]
fn get_snapshot_happy_path_multi_chunk() {
    let mut cam = camera();
    let mut chunks = vec![
        binary_chunk(42, 200, vec![0xDE, 0xAD, 0xBE]),
        binary_chunk(42, 201, vec![0xEF, 0xCA, 0xFE]),
    ];
    let bytes = fetch(&mut cam, announce(6), &mut chunks).expect("ok");
    assert_eq!(bytes, vec![0xDE, 0xAD, 0xBE, 0xEF, 0xCA, 0xFE]);
}

#[test]
fn get_snapshot_terminator_not_201_returns_err() {
    let mut cam = camera();
    let err = fetch(
        &mut cam,
        announce(4),
        &mut vec![binary_chunk(42, 500, vec![])],
    )
    .expect_err("should fail");
    assert!(matches!(
        err,
        Error::CameraServiceUnavailable { code: 500, .. }
    ));
}

#[test]
fn get_snapshot_oversized_picture_size_is_rejected_upfront() {
    let mut cam = camera();
    let err = fetch(
        &mut cam,
        |req| {
            xml_reply(
                req.meta.msg_num,
                Some(announcement("huge.jpg", 32 * 1024 * 1024)),
            )
        },
        &mut vec![],
    )
    .expect_err("should fail");
    assert!(matches!(
        err,
        Error::CameraServiceUnavailable {
            id: MSG_ID_SNAP,
            code: 200,
        }
    ));
}

#[test]
fn get_snapshot_terminator_missing_binary_returns_err() {
    let mut cam = camera();
    let err = fetch(&mut cam, announce(4), &mut vec![bare(42, 201)]).expect_err("should fail");
    assert!(matches!(err, Error::UnintelligibleReply { .. }));
}

#[test]
fn get_snapshot_truncated_returns_err() {
    let mut cam = camera();
    let mut chunks = vec![
        binary_chunk(42, 200, vec![0xAA, 0xBB]),
        binary_chunk(42, 201, vec![0xCC, 0xDD]),
    ];
    let err = fetch(&mut cam, announce(8), &mut chunks).expect_err("must surface truncation");
    match err {
        Error::UnintelligibleReply { reply, why } => {
            assert_eq!(
                why,
                "Snap truncated: chunk total did not match advertised picture_size"
            );
            assert_eq!(reply.meta.msg_id, MSG_ID_SNAP);
            assert_eq!(reply.meta.response_code, 201);
            // The report names the request, not the chunks.
            assert_eq!(reply.meta.msg_num, 0);
        }
        other => panic!("truncated snapshot should be UnintelligibleReply, got {other:?}"),
    }
}

#[test]
fn get_snapshot_concurrent_calls_do_not_cross_deliver_chunks() {
    // Fetches are serialised, so the chunks of both lie one after the other
    // in a single stream.
    let mut cam = camera();
    let mut stream = vec![
        binary_chunk(42, 200, vec![0xAA]),
        binary_chunk(42, 201, vec![0xBB, 0xCC]),
        binary_chunk(43, 200, vec![0x11]),
        binary_chunk(43, 201, vec![0x22, 0x33]),
    ];
    let bytes_a = fetch(
        &mut cam,
        |req| xml_reply(req.meta.msg_num, Some(announcement("a.jpg", 3))),
        &mut stream,
    )
    .expect("snapshot ok");
    let bytes_b = fetch(
        &mut cam,
        |req| xml_reply(req.meta.msg_num, Some(announcement("b.jpg", 3))),
        &mut stream,
    )
    .expect("snapshot ok");
    let mut results = vec![bytes_a, bytes_b];
    results.sort();
    assert_eq!(
        results,
        vec![vec![0x11, 0x22, 0x33], vec![0xAA, 0xBB, 0xCC]],
        "each snapshot must receive exactly its own chunks, un-mixed"
    );
    assert!(stream.is_empty());
}

#[test]
fn get_snapshot_chunk_missing_binary_returns_err() {
    let mut cam = camera();
    let err = fetch(&mut cam, announce(4), &mut vec![bare(42, 200)]).expect_err("should fail");
    assert!(matches!(err, Error::UnintelligibleReply { .. }));
}

#[test]
fn request_names_channel_and_message_number() {
    let mut cam = camera();
    cam.channel_id = 5;
    cam.new_message_num();
    let (fetch, request) = cam.get_snapshot().expect("allowed");
    assert_eq!((fetch.channel_id, fetch.msg_num), (5, 1));
    assert_eq!(request.meta.msg_id, 109);
    assert_eq!(request.meta.channel_id, 5);
    assert_eq!(request.meta.msg_num, 1);
    assert_eq!(request.meta.response_code, 0);
    assert_eq!(request.meta.stream_type, 0);
    assert_eq!(request.meta.class, 0x6414);
    match request.body {
        BcBody::ModernMsg(ModernMsg {
            extension: Some(extension),
            payload: Some(BcPayloads::BcXml(BcXml { snap: Some(snap) })),
        }) => {
            assert_eq!(extension.channel_id, Some(5));
            assert_eq!(extension.binary_data, None);
            assert_eq!(snap.version, "1.1");
            assert_eq!(snap.channel_id, 5);
            assert_eq!(snap.logic_channel, Some(5));
            assert_eq!(snap.time, 0);
            assert_eq!(snap.full_frame, Some(0));
            assert_eq!(snap.stream_type.as_deref(), Some("main"));
            assert_eq!(snap.file_name, None);
            assert_eq!(snap.picture_size, None);
        }
        other => panic!("unexpected: {other:?}"),
    }
    assert_eq!(cam.new_message_num(), 2);
}

#[test]
fn reply_without_name_or_size_makes_no_sense() {
    let fetch = SnapshotFetch {
        channel_id: 0,
        msg_num: 9,
    };
    let mut nameless = announcement("x", 4);
    nameless.file_name = None;
    let mut sizeless = announcement("x", 4);
    sizeless.picture_size = None;
    for snap in [nameless, sizeless] {
        match fetch.on_reply(xml_reply(9, Some(snap))).err() {
            Some(Error::UnintelligibleReply { reply, why }) => {
                assert_eq!(why, "Expected Snap xml but it was not received");
                assert_eq!(reply.meta.msg_num, 9);
            }
            _ => panic!("must be refused"),
        }
    }
    let legacy = Bc {
        meta: meta(9, 200),
        body: BcBody::LegacyMsg,
    };
    assert!(matches!(
        fetch.on_reply(legacy).err(),
        Some(Error::UnintelligibleReply { .. })
    ));
}

#[test]
fn largest_picture_is_accepted_and_one_byte_more_is_not() {
    let mut cam = camera();
    let mut chunks = vec![
        binary_chunk(42, 200, vec![7; 10 * MIB]),
        binary_chunk(42, 201, vec![8; 6 * MIB]),
    ];
    let data = fetch(&mut cam, announce(16 * MIB as u32), &mut chunks).expect("fits");
    assert_eq!(data.len(), 16 * MIB);
    assert_eq!((data[10 * MIB - 1], data[10 * MIB]), (7, 8));

    let err = fetch(&mut cam, announce(16 * MIB as u32 + 1), &mut vec![]).expect_err("too large");
    assert!(matches!(
        err,
        Error::CameraServiceUnavailable {
            id: MSG_ID_SNAP,
            code: 200
        }
    ));
}

#[test]
fn chunks_beyond_the_limit_end_the_transfer() {
    let mut cam = camera();
    let mut chunks = vec![
        binary_chunk(42, 200, vec![0; 16 * MIB]),
        binary_chunk(42, 200, vec![0]),
        binary_chunk(42, 201, vec![]),
    ];
    let err = fetch(&mut cam, announce(4), &mut chunks).expect_err("too much");
    assert!(matches!(
        err,
        Error::CameraServiceUnavailable {
            id: MSG_ID_SNAP,
            code: 200
        }
    ));
    assert_eq!(chunks.len(), 1);
}

#[test]
fn last_chunk_may_be_empty() {
    let mut cam = camera();
    let mut chunks = vec![
        binary_chunk(42, 200, vec![1, 2]),
        with_payload(201, Some(1), None),
    ];
    assert_eq!(
        fetch(&mut cam, announce(2), &mut chunks).expect("ok"),
        vec![1, 2]
    );
}

#[test]
fn last_chunk_may_carry_xml_that_is_not_read() {
    let mut cam = camera();
    let mut chunks = vec![
        binary_chunk(42, 200, vec![1]),
        with_payload(201, Some(1), Some(BcPayloads::BcXml(BcXml { snap: None }))),
    ];
    assert_eq!(
        fetch(&mut cam, announce(1), &mut chunks).expect("ok"),
        vec![1]
    );
}

#[test]
fn unmarked_bytes_are_not_taken() {
    for mark in [None, Some(0), Some(2)] {
        let mut cam = camera();
        let mut chunks = vec![with_payload(
            200,
            mark,
            Some(BcPayloads::Binary(vec![1, 2, 3])),
        )];
        match fetch(&mut cam, announce(3), &mut chunks) {
            Err(Error::UnintelligibleReply { reply, why }) => {
                assert_eq!(why, "Expected binary data but got something else");
                assert_eq!(reply.meta.msg_num, 42);
            }
            _ => panic!("must be refused"),
        }
    }
}

#[test]
fn too_many_bytes_are_reported_like_too_few() {
    let mut cam = camera();
    let mut chunks = vec![binary_chunk(42, 201, vec![1, 2, 3])];
    let err = fetch(&mut cam, announce(2), &mut chunks).expect_err("wrong size");
    assert!(matches!(err, Error::UnintelligibleReply { .. }));
}

#[test]
fn fetched_picture_is_the_joined_chunks_and_later_messages_stay() {
    let mut cam = camera();
    let mut chunks = vec![
        binary_chunk(42, 200, vec![1]),
        binary_chunk(42, 200, vec![]),
        binary_chunk(42, 200, vec![2, 3]),
        binary_chunk(42, 201, vec![4]),
        binary_chunk(43, 200, vec![9]),
    ];
    let data = fetch(&mut cam, announce(4), &mut chunks).expect("ok");
    assert_eq!(data, vec![1, 2, 3, 4]);
    assert_eq!(chunks.len(), 1);
}
