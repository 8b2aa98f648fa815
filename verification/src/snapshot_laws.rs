//! What holds of every picture that is fetched, said of the messages as they
//! are.

use crate::error::Error;
use crate::model::{Bc, BcBody, BcMeta, BcPayloads, Extension, ModernMsg};
use crate::snapshot::{
    announced_size, chunk_bytes, chunk_outcome, fresh_transfer, is_inner_chunk, is_last_chunk,
    is_snap_request, joined, law_ended_transfer_ignores_later_messages,
    law_fetched_picture_is_whole, law_sent_picture_is_fetched, messages_taken, raw_payload,
    reply_error, snapshot_run, ChunkStep, SnapshotFetch, StepView, TransferView,
};
use std::sync::Arc;
use vstd::prelude::*;

verus! {

/// A message whose payload is raw bytes adds just these bytes to a picture,
/// each of them in its place, and any other message adds none.
pub proof fn law_message_adds_its_own_bytes(message: Bc)
    ensures
        match message.body {
            BcBody::ModernMsg(ModernMsg { payload: Some(BcPayloads::Binary(data)), .. }) => {
                &&& chunk_bytes(message).len() == data@.len()
                &&& forall|i: int|
                    0 <= i < data@.len() ==> #[trigger] chunk_bytes(message)[i] == data@[i]
                &&& raw_payload(message) == Some(data@)
            },
            _ => chunk_bytes(message).len() == 0 && raw_payload(message) is None,
        },
{
}

/// A chunk that more will follow is put behind what has arrived, and nothing
/// else changes; one that would make the picture too large is refused. It does
/// not matter which channel, number or stream the message names.
pub proof fn law_inner_chunk_is_appended(
    transfer: TransferView,
    meta: BcMeta,
    channel_id: Option<u8>,
    data: Vec<u8>,
)
    requires
        meta.response_code == 200,
    ensures
        chunk_outcome(
            transfer,
            Bc {
                meta,
                body: BcBody::ModernMsg(
                    ModernMsg {
                        extension: Some(Extension { channel_id, binary_data: Some(1) }),
                        payload: Some(BcPayloads::Binary(data)),
                    },
                ),
            },
        ) == if transfer.data.len() + data@.len() <= 16777216 {
            StepView::More(
                TransferView {
                    fetch: transfer.fetch,
                    expected: transfer.expected,
                    data: transfer.data + data@,
                },
            )
        } else {
            StepView::Failed(Error::CameraServiceUnavailable { id: 109, code: 200 })
        },
{
}

/// The last chunk completes the picture if the size comes out as announced:
/// what had arrived, then the bytes of this chunk, if it carries any. Otherwise
/// the picture is reported as truncated, under the channel and the number of
/// the fetch.
pub proof fn law_last_chunk_completes_the_picture(
    transfer: TransferView,
    meta: BcMeta,
    channel_id: Option<u8>,
    payload: Option<BcPayloads>,
)
    requires
        meta.response_code == 201,
    ensures
        ({
            let message = Bc {
                meta,
                body: BcBody::ModernMsg(
                    ModernMsg {
                        extension: Some(Extension { channel_id, binary_data: Some(1) }),
                        payload,
                    },
                ),
            };
            let picture = match payload {
                Some(BcPayloads::Binary(data)) => transfer.data + data@,
                _ => transfer.data,
            };
            chunk_outcome(transfer, message) == if picture.len() == transfer.expected {
                StepView::Complete(picture)
            } else {
                StepView::Failed(
                    Error::UnintelligibleReply {
                        reply: Arc::new(
                            Bc {
                                meta: BcMeta {
                                    msg_id: 109,
                                    channel_id: transfer.fetch.channel_id,
                                    msg_num: transfer.fetch.msg_num,
                                    response_code: 201,
                                    stream_type: 0,
                                    class: 0x6414,
                                },
                                body: BcBody::ModernMsg(
                                    ModernMsg { extension: None, payload: None },
                                ),
                            },
                        ),
                        why: "Snap truncated: chunk total did not match advertised picture_size",
                    },
                )
            }
        }),
{
    assert(transfer.data + Seq::<u8>::empty() =~= transfer.data);
}

/// A message with any code but 200 and 201 ends the fetch with just that code.
/// One with these codes that is not marked as binary, or that more should
/// follow and that carries no bytes, ends it as meaningless and is passed on as
/// it came.
pub proof fn law_other_messages_end_the_fetch(transfer: TransferView, message: Bc)
    ensures
        ({
            let code = message.meta.response_code;
            let marked = match message.body {
                BcBody::ModernMsg(ModernMsg { extension: Some(extension), .. }) => {
                    extension.binary_data == Some(1u32)
                },
                _ => false,
            };
            let carries = match message.body {
                BcBody::ModernMsg(ModernMsg { payload: Some(BcPayloads::Binary(_)), .. }) => true,
                _ => false,
            };
            &&& code != 200 && code != 201 ==> chunk_outcome(transfer, message)
                == StepView::Failed(
                Error::CameraServiceUnavailable { id: message.meta.msg_id, code },
            )
            &&& (code == 200 && !(marked && carries)) || (code == 201 && !marked)
                ==> chunk_outcome(transfer, message) == StepView::Failed(
                Error::UnintelligibleReply {
                    reply: Arc::new(message),
                    why: "Expected binary data but got something else",
                },
            )
        }),
{
}

/// An answer is accepted if it grants the request with code 200 and announces
/// a named file of at most 16 MiB: the transfer then waits for just that many
/// bytes, under the fetch it belongs to. Any other code is passed on, with the
/// id it came under; a larger picture is refused; and an answer without an
/// announcement is meaningless and passed on as it came.
pub proof fn law_answer_is_taken_at_its_word(fetch: SnapshotFetch, reply: Bc)
    ensures
        ({
            let announced = match reply.body {
                BcBody::ModernMsg(ModernMsg { payload: Some(BcPayloads::BcXml(xml)), .. }) => {
                    match xml.snap {
                        Some(snap) => if snap.file_name is Some {
                            snap.picture_size
                        } else {
                            None
                        },
                        None => None,
                    }
                },
                _ => None,
            };
            snapshot_run(fetch, reply, Seq::empty()) == if reply.meta.response_code != 200 {
                StepView::Failed(
                    Error::CameraServiceUnavailable {
                        id: reply.meta.msg_id,
                        code: reply.meta.response_code,
                    },
                )
            } else {
                match announced {
                    None => StepView::Failed(
                        Error::UnintelligibleReply {
                            reply: Arc::new(reply),
                            why: "Expected Snap xml but it was not received",
                        },
                    ),
                    Some(size) => if size > 16777216 {
                        StepView::Failed(Error::CameraServiceUnavailable { id: 109, code: 200 })
                    } else {
                        StepView::More(
                            TransferView { fetch, expected: size as nat, data: Seq::empty() },
                        )
                    },
                }
            }
        }),
        reply_error(reply) == match snapshot_run(fetch, reply, Seq::empty()) {
            StepView::Failed(e) => Some(e),
            _ => None,
        },
        reply_error(reply) is None ==> snapshot_run(fetch, reply, Seq::empty()) == StepView::More(
            fresh_transfer(fetch, announced_size(reply)->0),
        ),
{
}

/// A request names the snapshot message, asks the channel of its fetch for the
/// main stream, and carries the number of its fetch.
pub proof fn law_request_names_its_channel(request: Bc, fetch: SnapshotFetch)
    requires
        is_snap_request(request, fetch),
    ensures
        request.meta.msg_id == 109,
        request.meta.channel_id == fetch.channel_id,
        request.meta.msg_num == fetch.msg_num,
        request.meta.response_code == 0,
        request.meta.stream_type == 0,
        request.meta.class == 0x6414,
        request.body matches BcBody::ModernMsg(modern) && {
            &&& modern.extension == Some(
                Extension { channel_id: Some(fetch.channel_id), binary_data: None },
            )
            &&& modern.payload matches Some(BcPayloads::BcXml(xml)) && xml.snap matches Some(snap)
            && {
                &&& snap.version@ == "1.1"@
                &&& snap.channel_id == fetch.channel_id
                &&& snap.logic_channel == Some(fetch.channel_id)
                &&& snap.time == 0
                &&& snap.full_frame == Some(0u32)
                &&& snap.stream_type matches Some(stream) && stream@ == "main"@
                &&& snap.file_name is None
                &&& snap.picture_size is None
            }
        },
{
}

/// The view of a step is what the step holds.
pub proof fn law_step_view_is_what_it_holds(step: ChunkStep)
    ensures
        match step {
            ChunkStep::More(transfer) => step@ == StepView::More(transfer@),
            ChunkStep::Complete(data) => step@ == StepView::Complete(data@),
            ChunkStep::Failed(e) => step@ == StepView::Failed(e),
        },
{
}

/// The bytes of some chunks are their payloads put together.
proof fn lemma_joined_is_flattened(chunks: Seq<Bc>, payloads: Seq<Seq<u8>>)
    requires
        chunks.len() == payloads.len(),
        forall|i: int|
            0 <= i < chunks.len() ==> chunk_bytes(#[trigger] chunks[i]) == payloads[i],
    ensures
        joined(chunks) == payloads.flatten(),
    decreases chunks.len(),
{
    if chunks.len() > 0 {
        let tail = chunks.drop_first();
        assert forall|i: int| 0 <= i < tail.len() implies chunk_bytes(#[trigger] tail[i])
            == payloads.drop_first()[i] by {
            assert(tail[i] == chunks[i + 1]);
        }
        lemma_joined_is_flattened(tail, payloads.drop_first());
        assert(chunk_bytes(chunks[0]) == payloads[0]);
    }
}

/// The last one of some chunks comes last.
proof fn lemma_joined_push(chunks: Seq<Bc>, last: Bc)
    ensures
        joined(chunks.push(last)) == joined(chunks) + chunk_bytes(last),
    decreases chunks.len(),
{
    if chunks.len() == 0 {
        assert(chunks.push(last).drop_first() =~= chunks);
        assert(joined(chunks.push(last)) =~= joined(chunks) + chunk_bytes(last));
    } else {
        lemma_joined_push(chunks.drop_first(), last);
        assert(chunks.push(last).drop_first() =~= chunks.drop_first().push(last));
        assert(joined(chunks.push(last)) =~= joined(chunks) + chunk_bytes(last));
    }
}

/// Where the bytes of a chunk stand among all bytes.
proof fn lemma_place_in_flattened(payloads: Seq<Seq<u8>>, i: int, j: int)
    requires
        0 <= i < payloads.len(),
        0 <= j < payloads[i].len(),
    ensures
        payloads.take(i).flatten().len() + payloads[i].len() <= payloads.flatten().len(),
        payloads.flatten()[payloads.take(i).flatten().len() + j] == payloads[i][j],
    decreases i,
{
    if i == 0 {
        assert(payloads.take(0) =~= Seq::empty());
    } else {
        let tail = payloads.drop_first();
        lemma_place_in_flattened(tail, i - 1, j);
        assert(payloads.take(i).drop_first() =~= tail.take(i - 1));
        assert(payloads.take(i)[0] == payloads[0]);
    }
}

/// Every byte among all bytes is one of some chunk.
proof fn lemma_flattened_is_covered(payloads: Seq<Seq<u8>>, k: int) -> (place: (int, int))
    requires
        0 <= k < payloads.flatten().len(),
    ensures
        0 <= place.0 < payloads.len(),
        0 <= place.1 < payloads[place.0].len(),
        k == payloads.take(place.0).flatten().len() + place.1,
        payloads.flatten()[k] == payloads[place.0][place.1],
    decreases payloads.len(),
{
    let first = payloads[0];
    if k < first.len() {
        assert(payloads.take(0) =~= Seq::empty());
        (0, k)
    } else {
        let tail = payloads.drop_first();
        let (i, j) = lemma_flattened_is_covered(tail, k - first.len());
        assert(payloads.take(i + 1).drop_first() =~= tail.take(i));
        assert(payloads.take(i + 1)[0] == first);
        (i + 1, j)
    }
}

/// A picture that is announced with its size, of 16 MiB at most, and sent in
/// messages marked as binary, with code 200 and at last 201, is handed out as
/// it was sent: it is the payloads put together in the order of arrival, and
/// each byte of each payload stands in it behind all bytes of the payloads
/// before. What arrives later does not matter.
pub proof fn law_picture_is_its_payloads_in_order(
    fetch: SnapshotFetch,
    reply: Bc,
    size: u32,
    messages: Seq<Bc>,
    payloads: Seq<Seq<u8>>,
    later: Seq<Bc>,
)
    requires
        reply.meta.response_code == 200,
        reply.body matches BcBody::ModernMsg(modern) && modern.payload matches Some(
            BcPayloads::BcXml(xml),
        ) && xml.snap matches Some(snap) && snap.file_name is Some && snap.picture_size == Some(
            size,
        ),
        size <= 16777216,
        messages.len() > 0,
        payloads.len() == messages.len(),
        forall|i: int|
            0 <= i < messages.len() ==> (#[trigger] messages[i]).meta.response_code == if i
                == messages.len() - 1 {
                201u16
            } else {
                200u16
            },
        forall|i: int|
            0 <= i < messages.len() ==> ((#[trigger] messages[i]).body matches BcBody::ModernMsg(
                modern,
            ) && modern.extension matches Some(extension) && extension.binary_data == Some(1u32)
                && match modern.payload {
                Some(BcPayloads::Binary(data)) => payloads[i] == data@,
                _ => i == messages.len() - 1 && payloads[i].len() == 0,
            }),
        payloads.flatten().len() == size,
    ensures
        snapshot_run(fetch, reply, messages + later) == StepView::Complete(payloads.flatten()),
        forall|i: int, j: int|
            0 <= i < payloads.len() && 0 <= j < payloads[i].len()
                ==> payloads.flatten()[payloads.take(i).flatten().len() + j]
                == #[trigger] payloads[i][j],
{
    let k = messages.len() - 1;
    let chunks = messages.take(k);
    let last = messages[k];
    assert forall|i: int| 0 <= i < chunks.len() implies is_inner_chunk(#[trigger] chunks[i]) by {
        assert(chunks[i] == messages[i]);
    }
    assert(is_last_chunk(last));
    assert(chunks.push(last) =~= messages);
    assert forall|i: int| 0 <= i < messages.len() implies chunk_bytes(#[trigger] messages[i])
        == payloads[i] by {
        assert(chunk_bytes(messages[i]) =~= payloads[i]);
    }
    lemma_joined_is_flattened(messages, payloads);
    lemma_joined_push(chunks, last);
    law_sent_picture_is_fetched(fetch, reply, chunks, last);
    law_ended_transfer_ignores_later_messages(fresh_transfer(fetch, size), messages, later);
    assert forall|i: int, j: int|
        0 <= i < payloads.len() && 0 <= j < payloads[i].len() implies payloads.flatten()[
        payloads.take(i).flatten().len() + j] == #[trigger] payloads[i][j] by {
        lemma_place_in_flattened(payloads, i, j);
    }
}

/// A picture that is handed out is what the camera sent. The answer granted the
/// request and announced just this size, of 16 MiB at most; and of what arrived
/// then, the messages up to one with code 201 were all marked as binary, all
/// others among them had code 200 and carried bytes, and their payloads put
/// together in the order of arrival are the picture.
pub proof fn law_handed_out_picture_was_sent(
    fetch: SnapshotFetch,
    reply: Bc,
    messages: Seq<Bc>,
    data: Seq<u8>,
)
    requires
        snapshot_run(fetch, reply, messages) == StepView::Complete(data),
    ensures
        reply.meta.response_code == 200,
        reply.body matches BcBody::ModernMsg(modern) && modern.payload matches Some(
            BcPayloads::BcXml(xml),
        ) && xml.snap matches Some(snap) && snap.file_name is Some && snap.picture_size == Some(
            data.len() as u32,
        ),
        data.len() <= 16777216,
        exists|payloads: Seq<Seq<u8>>|
            {
                &&& 0 < payloads.len() <= messages.len()
                &&& #[trigger] payloads.flatten() == data
                &&& forall|i: int|
                    0 <= i < payloads.len() ==> (#[trigger] messages[i]).meta.response_code == if i
                        == payloads.len() - 1 {
                        201u16
                    } else {
                        200u16
                    }
                &&& forall|i: int|
                    0 <= i < payloads.len() ==> ((#[trigger] messages[i]).body matches
                        BcBody::ModernMsg(modern) && modern.extension matches Some(extension)
                        && extension.binary_data == Some(1u32) && match modern.payload {
                        Some(BcPayloads::Binary(data)) => payloads[i] == data@,
                        _ => i == payloads.len() - 1 && payloads[i].len() == 0,
                    })
            },
{
    law_fetched_picture_is_whole(fetch, reply, messages, data);
    let n = messages_taken(fresh_transfer(fetch, announced_size(reply)->0), messages);
    let taken = messages.take(n as int);
    let payloads = Seq::new(n, |i: int| chunk_bytes(messages[i]));
    assert(messages.take(n - 1).push(messages[n - 1]) =~= taken);
    lemma_joined_push(messages.take(n - 1), messages[n - 1]);
    assert forall|i: int| 0 <= i < taken.len() implies chunk_bytes(#[trigger] taken[i])
        == payloads[i] by {
        assert(taken[i] == messages[i]);
    }
    lemma_joined_is_flattened(taken, payloads);
    assert(payloads.flatten() == data);
    assert forall|i: int| 0 <= i < n - 1 implies is_inner_chunk(#[trigger] messages[i]) by {}
}

/// Every byte of a picture that is handed out was sent, and stands where it was
/// sent: it is the byte at some index of the raw payload of one message, and
/// all bytes of the messages before that one, and of this payload before that
/// index, stand before it in the picture.
pub proof fn law_every_byte_stands_where_it_was_sent(
    fetch: SnapshotFetch,
    reply: Bc,
    messages: Seq<Bc>,
    data: Seq<u8>,
    k: int,
) -> (place: (int, int))
    requires
        snapshot_run(fetch, reply, messages) == StepView::Complete(data),
        0 <= k < data.len(),
    ensures
        0 <= place.0 < messages.len(),
        messages[place.0].body matches BcBody::ModernMsg(modern) && modern.payload matches Some(
            BcPayloads::Binary(bytes),
        ) && 0 <= place.1 < bytes@.len() && data[k] == bytes@[place.1],
        k == place.1 + Seq::new(
            place.0 as nat,
            |i: int|
                match messages[i].body {
                    BcBody::ModernMsg(
                        ModernMsg { payload: Some(BcPayloads::Binary(bytes)), .. },
                    ) => bytes@,
                    _ => Seq::empty(),
                },
        ).flatten().len(),
{
    law_handed_out_picture_was_sent(fetch, reply, messages, data);
    let payloads = choose|payloads: Seq<Seq<u8>>|
        {
            &&& 0 < payloads.len() <= messages.len()
            &&& #[trigger] payloads.flatten() == data
            &&& forall|i: int|
                0 <= i < payloads.len() ==> (#[trigger] messages[i]).meta.response_code == if i
                    == payloads.len() - 1 {
                    201u16
                } else {
                    200u16
                }
            &&& forall|i: int|
                0 <= i < payloads.len() ==> ((#[trigger] messages[i]).body matches
                    BcBody::ModernMsg(modern) && modern.extension matches Some(extension)
                    && extension.binary_data == Some(1u32) && match modern.payload {
                    Some(BcPayloads::Binary(data)) => payloads[i] == data@,
                    _ => i == payloads.len() - 1 && payloads[i].len() == 0,
                })
        };
    let (i, j) = lemma_flattened_is_covered(payloads, k);
    assert(messages[i].meta.response_code == 200 || messages[i].meta.response_code == 201);
    let before = Seq::new(
        i as nat,
        |i: int|
            match messages[i].body {
                BcBody::ModernMsg(
                    ModernMsg { payload: Some(BcPayloads::Binary(bytes)), .. },
                ) => bytes@,
                _ => Seq::empty(),
            },
    );
    assert forall|x: int| 0 <= x < i implies payloads.take(i)[x] == before[x] by {
        assert(messages[x].meta.response_code == 200);
    }
    assert(payloads.take(i) =~= before);
    (i, j)
}

} // verus!
