//! Fetching a still picture.
//!
//! A snapshot is asked for with one message. The camera answers with an
//! announcement, which names the size of the picture, and then sends the
//! picture in binary chunks under a message number of its own choosing. Chunks
//! that more will follow carry response code 200; the last one carries 201.
//!
//! A driver sends the request that [`BcCamera::get_snapshot`] returns, hands
//! the answer to [`SnapshotFetch::on_reply`], then listens for every message
//! with [`MSG_ID_SNAP`] before it stops listening for the answer, and hands
//! each message to [`SnapshotTransfer::on_chunk`]. Fetches on one camera must
//! not overlap: [`crate::snapshot_turns`] shows that they do not mix then.

use crate::camera::{granted, may_read, next_num, BcCamera, CameraView};
use crate::error::{is_missing_ability, Error};
use crate::model::{
    Bc, BcBody, BcMeta, BcPayloads, BcXml, Extension, ModernMsg, Snap, CLASS_MODERN, MSG_ID_SNAP,
};
use crate::options::text_of;
use std::sync::Arc;
use vstd::prelude::*;

verus! {

/// The response code of a granted request, and of a chunk that is not the last.
pub const CODE_OK: u16 = 200;

/// The response code of the last chunk.
pub const CODE_LAST: u16 = 201;

/// The size above which a picture is refused: 16 MiB.
pub const MAX_SNAPSHOT_BYTES: usize = 16777216;

/// A fetch whose request was handed out and whose answer is awaited.
#[derive(Debug, Clone, Copy)]
pub struct SnapshotFetch {
    /// The channel that the picture is taken from.
    pub channel_id: u8,
    /// The message number of the request, and of its answer.
    pub msg_num: u16,
}

/// A picture of which some chunks have arrived.
pub struct TransferView {
    /// The fetch that this belongs to.
    pub fetch: SnapshotFetch,
    /// The announced size.
    pub expected: nat,
    /// The bytes that have arrived.
    pub data: Seq<u8>,
}

/// A picture that is being received.
pub struct SnapshotTransfer {
    fetch: SnapshotFetch,
    expected: usize,
    data: Vec<u8>,
}

impl View for SnapshotTransfer {
    type V = TransferView;

    closed spec fn view(&self) -> TransferView {
        TransferView { fetch: self.fetch, expected: self.expected as nat, data: self.data@ }
    }
}

/// What a chunk leads to.
pub enum ChunkStep {
    /// Wait for the next chunk.
    More(SnapshotTransfer),
    /// The picture is complete.
    Complete(Vec<u8>),
    /// The fetch failed.
    Failed(Error),
}

/// What a chunk, or a run of chunks, leads to.
pub enum StepView {
    /// More chunks are needed.
    More(TransferView),
    /// The picture is complete.
    Complete(Seq<u8>),
    /// The fetch failed.
    Failed(Error),
}

impl View for ChunkStep {
    type V = StepView;

    open spec fn view(&self) -> StepView {
        match *self {
            ChunkStep::More(t) => StepView::More(t@),
            ChunkStep::Complete(data) => StepView::Complete(data@),
            ChunkStep::Failed(e) => StepView::Failed(e),
        }
    }
}

/// Whether `message` asks for a snapshot of a channel, under a message number.
pub open spec fn is_snap_request(message: Bc, fetch: SnapshotFetch) -> bool {
    &&& message.meta == BcMeta {
        msg_id: MSG_ID_SNAP,
        channel_id: fetch.channel_id,
        msg_num: fetch.msg_num,
        response_code: 0,
        stream_type: 0,
        class: CLASS_MODERN,
    }
    &&& message.body matches BcBody::ModernMsg(ModernMsg {
        extension: Some(extension),
        payload: Some(BcPayloads::BcXml(BcXml { snap: Some(snap) })),
    })
    &&& extension == Extension { channel_id: Some(fetch.channel_id), binary_data: None }
    &&& snap.version@ == "1.1"@
    &&& snap.channel_id == fetch.channel_id
    &&& snap.logic_channel == Some(fetch.channel_id)
    &&& snap.time == 0
    &&& snap.full_frame == Some(0u32)
    &&& text_of(snap.stream_type) == Some("main"@)
    &&& snap.file_name is None
    &&& snap.picture_size is None
}

/// The size of the picture that a message announces, if it announces one.
pub open spec fn announced_size(message: Bc) -> Option<u32> {
    match message.body {
        BcBody::ModernMsg(
            ModernMsg {
                payload: Some(
                    BcPayloads::BcXml(
                        BcXml {
                            snap: Some(Snap { file_name: Some(_), picture_size: Some(size), .. }),
                        },
                    ),
                ),
                ..
            },
        ) => Some(size),
        _ => None,
    }
}

/// The error with which a message is passed on as meaningless.
pub open spec fn unintelligible(message: Bc, why: &'static str) -> Error {
    Error::UnintelligibleReply { reply: Arc::new(message), why }
}

/// The error for a picture, or an announcement of one, that is too large.
pub open spec fn oversized() -> Error {
    Error::CameraServiceUnavailable { id: MSG_ID_SNAP, code: CODE_OK }
}

/// The error for a refusal.
pub open spec fn refused(message: Bc) -> Error {
    Error::CameraServiceUnavailable {
        id: message.meta.msg_id,
        code: message.meta.response_code,
    }
}

/// The error that an answer to a snapshot request calls for, if any.
pub open spec fn reply_error(message: Bc) -> Option<Error> {
    if message.meta.response_code != CODE_OK {
        Some(refused(message))
    } else {
        match announced_size(message) {
            None => Some(
                unintelligible(message, "Expected Snap xml but it was not received"),
            ),
            Some(size) if size > MAX_SNAPSHOT_BYTES => Some(oversized()),
            Some(_) => None,
        }
    }
}

/// A transfer of which nothing has arrived yet.
pub open spec fn fresh_transfer(fetch: SnapshotFetch, size: u32) -> TransferView {
    TransferView { fetch, expected: size as nat, data: Seq::empty() }
}

/// Whether a message is marked as carrying raw bytes.
pub open spec fn is_binary(message: Bc) -> bool {
    message.body matches BcBody::ModernMsg(
        ModernMsg { extension: Some(Extension { binary_data: Some(1), .. }), .. },
    )
}

/// The raw bytes that a message carries, if its payload is raw bytes.
pub open spec fn raw_payload(message: Bc) -> Option<Seq<u8>> {
    match message.body {
        BcBody::ModernMsg(ModernMsg { payload: Some(BcPayloads::Binary(data)), .. }) => Some(
            data@,
        ),
        _ => None,
    }
}

/// The bytes that a message adds to a picture.
pub open spec fn chunk_bytes(message: Bc) -> Seq<u8> {
    match raw_payload(message) {
        Some(data) => data,
        None => Seq::empty(),
    }
}

/// Whether a message is a chunk that more will follow.
pub open spec fn is_inner_chunk(message: Bc) -> bool {
    message.meta.response_code == CODE_OK && is_binary(message) && raw_payload(message) is Some
}

/// Whether a message is a proper last chunk. It need not carry bytes.
pub open spec fn is_last_chunk(message: Bc) -> bool {
    message.meta.response_code == CODE_LAST && is_binary(message)
}

/// The error for a picture whose size is not the announced one.
pub open spec fn truncated(fetch: SnapshotFetch) -> Error {
    unintelligible(
        Bc {
            meta: BcMeta {
                msg_id: MSG_ID_SNAP,
                channel_id: fetch.channel_id,
                msg_num: fetch.msg_num,
                response_code: CODE_LAST,
                stream_type: 0,
                class: CLASS_MODERN,
            },
            body: BcBody::ModernMsg(ModernMsg { extension: None, payload: None }),
        },
        "Snap truncated: chunk total did not match advertised picture_size",
    )
}

/// What a picture, `transfer`, becomes when `message` arrives.
pub open spec fn chunk_outcome(transfer: TransferView, message: Bc) -> StepView {
    let data = transfer.data + chunk_bytes(message);
    if is_inner_chunk(message) {
        if data.len() > MAX_SNAPSHOT_BYTES {
            StepView::Failed(oversized())
        } else {
            StepView::More(TransferView { data, ..transfer })
        }
    } else if is_last_chunk(message) {
        if data.len() == transfer.expected {
            StepView::Complete(data)
        } else {
            StepView::Failed(truncated(transfer.fetch))
        }
    } else if message.meta.response_code == CODE_OK || message.meta.response_code == CODE_LAST {
        StepView::Failed(unintelligible(message, "Expected binary data but got something else"))
    } else {
        StepView::Failed(refused(message))
    }
}

/// Reads the size that a message announces.
fn read_announcement(message: &Bc) -> (size: Option<u32>)
    ensures
        size == announced_size(*message),
{
    if let BcBody::ModernMsg(modern) = &message.body {
        if let Some(BcPayloads::BcXml(xml)) = &modern.payload {
            if let Some(snap) = &xml.snap {
                if snap.file_name.is_some() {
                    return snap.picture_size;
                }
            }
        }
    }
    None
}

/// Reads the mark that announces raw bytes.
fn read_binary_mark(message: &Bc) -> (marked: bool)
    ensures
        marked == is_binary(*message),
{
    if let BcBody::ModernMsg(modern) = &message.body {
        if let Some(extension) = &modern.extension {
            return matches!(extension.binary_data, Some(1));
        }
    }
    false
}

/// Appends the raw bytes of a message, if it carries any, and says whether it
/// did.
fn append_payload(data: &mut Vec<u8>, message: &Bc) -> (carried: bool)
    ensures
        final(data)@ == old(data)@ + chunk_bytes(*message),
        carried == (raw_payload(*message) is Some),
{
    if let BcBody::ModernMsg(modern) = &message.body {
        if let Some(BcPayloads::Binary(bytes)) = &modern.payload {
            let ghost before = data@;
            data.extend_from_slice(bytes.as_slice());
            assert(data@ =~= before + bytes@);
            return true;
        }
    }
    assert(data@ =~= old(data)@ + chunk_bytes(*message));
    false
}

impl<C> BcCamera<C> {
    /// Starts to fetch a picture: returns what the fetch is known by, and the
    /// message to send.
    ///
    /// A camera that has no `preview` ability takes no pictures, and is not
    /// asked for one.
    pub fn get_snapshot(&mut self) -> (result: Result<(SnapshotFetch, Bc), Error>)
        ensures
            match result {
                Ok((fetch, request)) => {
                    &&& may_read(granted(old(self)@.abilities, "preview"@))
                    &&& fetch.channel_id == old(self)@.channel_id
                    &&& fetch.msg_num == old(self)@.message_num
                    &&& is_snap_request(request, fetch)
                    &&& final(self)@ == (CameraView {
                        message_num: next_num(old(self)@.message_num),
                        ..old(self)@
                    })
                },
                Err(e) => {
                    &&& !may_read(granted(old(self)@.abilities, "preview"@))
                    &&& is_missing_ability(e, "preview"@, "read"@, "none"@)
                    &&& final(self)@ == old(self)@
                },
            },
    {
        match self.has_ability_ro("preview") {
            Ok(_) => {},
            Err(e) => {
                return Err(e);
            },
        }
        let msg_num: u16 = self.new_message_num();
        let channel_id: u8 = self.channel_id;
        let request = Bc {
            meta: BcMeta {
                msg_id: MSG_ID_SNAP,
                channel_id,
                msg_num,
                response_code: 0,
                stream_type: 0,
                class: CLASS_MODERN,
            },
            body: BcBody::ModernMsg(
                ModernMsg {
                    extension: Some(Extension { channel_id: Some(channel_id), binary_data: None }),
                    payload: Some(
                        BcPayloads::BcXml(
                            BcXml {
                                snap: Some(
                                    Snap {
                                        version: "1.1".to_owned(),
                                        channel_id,
                                        logic_channel: Some(channel_id),
                                        time: 0,
                                        full_frame: Some(0),
                                        stream_type: Some("main".to_owned()),
                                        file_name: None,
                                        picture_size: None,
                                    },
                                ),
                            },
                        ),
                    ),
                },
            ),
        };
        Ok((SnapshotFetch { channel_id, msg_num }, request))
    }
}

impl SnapshotFetch {
    /// Takes the answer to the request.
    ///
    /// A picture that is announced as too large is refused here, before any
    /// of it is received.
    pub fn on_reply(self, message: Bc) -> (result: Result<SnapshotTransfer, Error>)
        ensures
            match reply_error(message) {
                Some(e) => result == Err::<SnapshotTransfer, Error>(e),
                None => result matches Ok(transfer) && transfer@ == fresh_transfer(
                    self,
                    announced_size(message)->0,
                ),
            },
    {
        if message.meta.response_code != CODE_OK {
            return Err(
                Error::CameraServiceUnavailable {
                    id: message.meta.msg_id,
                    code: message.meta.response_code,
                },
            );
        }
        match read_announcement(&message) {
            Some(size) => {
                let expected: usize = size as usize;
                if expected > MAX_SNAPSHOT_BYTES {
                    return Err(
                        Error::CameraServiceUnavailable { id: MSG_ID_SNAP, code: CODE_OK },
                    );
                }
                Ok(SnapshotTransfer { fetch: self, expected, data: Vec::with_capacity(expected) })
            },
            None => Err(
                Error::UnintelligibleReply {
                    reply: Arc::new(message),
                    why: "Expected Snap xml but it was not received",
                },
            ),
        }
    }
}

impl SnapshotTransfer {
    /// Takes a message that arrived while the picture is incomplete.
    pub fn on_chunk(self, message: Bc) -> (step: ChunkStep)
        ensures
            step@ == chunk_outcome(self@, message),
    {
        let SnapshotTransfer { fetch, expected, mut data } = self;
        let code: u16 = message.meta.response_code;
        if code != CODE_OK && code != CODE_LAST {
            return ChunkStep::Failed(
                Error::CameraServiceUnavailable { id: message.meta.msg_id, code },
            );
        }
        let marked = read_binary_mark(&message);
        let carried = append_payload(&mut data, &message);
        if !marked || (code == CODE_OK && !carried) {
            return ChunkStep::Failed(
                Error::UnintelligibleReply {
                    reply: Arc::new(message),
                    why: "Expected binary data but got something else",
                },
            );
        }
        if code == CODE_OK {
            if data.len() > MAX_SNAPSHOT_BYTES {
                return ChunkStep::Failed(
                    Error::CameraServiceUnavailable { id: MSG_ID_SNAP, code: CODE_OK },
                );
            }
            return ChunkStep::More(SnapshotTransfer { fetch, expected, data });
        }
        if data.len() != expected {
            return ChunkStep::Failed(
                Error::UnintelligibleReply {
                    reply: Arc::new(
                        Bc {
                            meta: BcMeta {
                                msg_id: MSG_ID_SNAP,
                                channel_id: fetch.channel_id,
                                msg_num: fetch.msg_num,
                                response_code: CODE_LAST,
                                stream_type: 0,
                                class: CLASS_MODERN,
                            },
                            body: BcBody::ModernMsg(
                                ModernMsg { extension: None, payload: None },
                            ),
                        },
                    ),
                    why: "Snap truncated: chunk total did not match advertised picture_size",
                },
            );
        }
        ChunkStep::Complete(data)
    }
}

/// What a transfer comes to when `messages` arrive one after the other. Nothing
/// is read beyond the message that ends it.
pub open spec fn transfer_run(transfer: TransferView, messages: Seq<Bc>) -> StepView
    decreases messages.len(),
{
    if messages.len() == 0 {
        StepView::More(transfer)
    } else {
        match chunk_outcome(transfer, messages[0]) {
            StepView::More(next) => transfer_run(next, messages.drop_first()),
            end => end,
        }
    }
}

/// How many of `messages` a transfer takes before it ends.
pub open spec fn messages_taken(transfer: TransferView, messages: Seq<Bc>) -> nat
    decreases messages.len(),
{
    if messages.len() == 0 {
        0
    } else {
        match chunk_outcome(transfer, messages[0]) {
            StepView::More(next) => 1 + messages_taken(next, messages.drop_first()),
            _ => 1,
        }
    }
}

/// The bytes that a run of chunks carries, in the order of their arrival.
pub open spec fn joined(chunks: Seq<Bc>) -> Seq<u8>
    decreases chunks.len(),
{
    if chunks.len() == 0 {
        Seq::empty()
    } else {
        chunk_bytes(chunks[0]) + joined(chunks.drop_first())
    }
}

/// A picture is handed out whole or not at all: whatever arrives, one that is
/// handed out has the announced size.
pub proof fn law_no_truncated_picture(transfer: TransferView, messages: Seq<Bc>, data: Seq<u8>)
    requires
        transfer_run(transfer, messages) == StepView::Complete(data),
    ensures
        data.len() == transfer.expected,
    decreases messages.len(),
{
    match chunk_outcome(transfer, messages[0]) {
        StepView::More(next) => law_no_truncated_picture(next, messages.drop_first(), data),
        _ => {},
    }
}

/// Whatever arrives, a transfer that still waits holds no more than the
/// largest picture that is accepted, and expects what was announced.
pub proof fn law_transfer_is_bounded(
    transfer: TransferView,
    messages: Seq<Bc>,
    waiting: TransferView,
)
    requires
        transfer.data.len() <= MAX_SNAPSHOT_BYTES,
        transfer_run(transfer, messages) == StepView::More(waiting),
    ensures
        waiting.data.len() <= MAX_SNAPSHOT_BYTES,
        waiting.expected == transfer.expected,
        waiting.fetch == transfer.fetch,
    decreases messages.len(),
{
    if messages.len() > 0 {
        let next = chunk_outcome(transfer, messages[0])->More_0;
        law_transfer_is_bounded(next, messages.drop_first(), waiting);
    }
}

/// An accepted announcement promises a picture within the limit, and starts a
/// transfer with nothing received.
pub proof fn law_accepted_announcement_is_within_limit(message: Bc)
    requires
        reply_error(message) is None,
    ensures
        message.meta.response_code == CODE_OK,
        announced_size(message) is Some,
        announced_size(message)->0 <= MAX_SNAPSHOT_BYTES,
{
}

/// Chunks that fit leave the transfer waiting with all their bytes appended in
/// order, and all of them are taken.
proof fn lemma_inner_chunks(transfer: TransferView, chunks: Seq<Bc>, rest: Seq<Bc>)
    requires
        forall|i: int| 0 <= i < chunks.len() ==> is_inner_chunk(#[trigger] chunks[i]),
        transfer.data.len() + joined(chunks).len() <= MAX_SNAPSHOT_BYTES,
    ensures
        transfer_run(transfer, chunks + rest) == transfer_run(
            TransferView { data: transfer.data + joined(chunks), ..transfer },
            rest,
        ),
        messages_taken(transfer, chunks + rest) == chunks.len() + messages_taken(
            TransferView { data: transfer.data + joined(chunks), ..transfer },
            rest,
        ),
    decreases chunks.len(),
{
    if chunks.len() == 0 {
        assert(chunks + rest =~= rest);
        assert(transfer.data + joined(chunks) =~= transfer.data);
    } else {
        let tail = chunks.drop_first();
        let next = TransferView { data: transfer.data + chunk_bytes(chunks[0]), ..transfer };
        assert((chunks + rest)[0] == chunks[0]);
        assert((chunks + rest).drop_first() =~= tail + rest);
        assert forall|i: int| 0 <= i < tail.len() implies is_inner_chunk(#[trigger] tail[i]) by {
            assert(tail[i] == chunks[i + 1]);
        }
        lemma_inner_chunks(next, tail, rest);
        assert(next.data + joined(tail) =~= transfer.data + joined(chunks));
    }
}

/// Chunks are put together in the order of their arrival. When the last one is
/// in, the picture is complete exactly if its size is the announced one; it is
/// reported as truncated otherwise.
pub proof fn law_chunks_are_joined_in_order(
    transfer: TransferView,
    chunks: Seq<Bc>,
    last: Bc,
)
    requires
        forall|i: int| 0 <= i < chunks.len() ==> is_inner_chunk(#[trigger] chunks[i]),
        is_last_chunk(last),
        transfer.data.len() + joined(chunks).len() <= MAX_SNAPSHOT_BYTES,
    ensures
        ({
            let picture = transfer.data + joined(chunks) + chunk_bytes(last);
            transfer_run(transfer, chunks.push(last)) == if picture.len() == transfer.expected {
                StepView::Complete(picture)
            } else {
                StepView::Failed(truncated(transfer.fetch))
            }
        }),
{
    let rest = seq![last];
    assert(chunks.push(last) =~= chunks + rest);
    lemma_inner_chunks(transfer, chunks, rest);
}

/// A camera cannot make a transfer hold more than the limit: the chunk that
/// would go beyond it ends the transfer with an error.
pub proof fn law_oversized_transfer_is_refused(
    transfer: TransferView,
    chunks: Seq<Bc>,
    over: Bc,
    rest: Seq<Bc>,
)
    requires
        forall|i: int| 0 <= i < chunks.len() ==> is_inner_chunk(#[trigger] chunks[i]),
        is_inner_chunk(over),
        transfer.data.len() + joined(chunks).len() <= MAX_SNAPSHOT_BYTES,
        transfer.data.len() + joined(chunks).len() + chunk_bytes(over).len() > MAX_SNAPSHOT_BYTES,
    ensures
        transfer_run(transfer, chunks.push(over) + rest) == StepView::Failed(oversized()),
{
    assert(chunks.push(over) + rest =~= chunks + (seq![over] + rest));
    lemma_inner_chunks(transfer, chunks, seq![over] + rest);
}

/// A transfer that has ended takes no notice of what arrives later.
pub proof fn law_ended_transfer_ignores_later_messages(
    transfer: TransferView,
    messages: Seq<Bc>,
    later: Seq<Bc>,
)
    requires
        !(transfer_run(transfer, messages) is More),
    ensures
        transfer_run(transfer, messages + later) == transfer_run(transfer, messages),
        messages_taken(transfer, messages + later) == messages_taken(transfer, messages),
    decreases messages.len(),
{
    assert((messages + later)[0] == messages[0]);
    assert((messages + later).drop_first() =~= messages.drop_first() + later);
    match chunk_outcome(transfer, messages[0]) {
        StepView::More(next) => {
            law_ended_transfer_ignores_later_messages(next, messages.drop_first(), later);
        },
        _ => {},
    }
}

/// Transfers that run one after the other do not mix: when the chunks of a
/// first picture, up to its last one, are followed by the messages of a second
/// picture, the first transfer comes to what its own chunks make it, takes all
/// of them and nothing else, and the second one sees its own messages only.
pub proof fn law_serial_transfers_do_not_mix(
    first: TransferView,
    chunks: Seq<Bc>,
    last: Bc,
    second: TransferView,
    messages: Seq<Bc>,
)
    requires
        forall|i: int| 0 <= i < chunks.len() ==> is_inner_chunk(#[trigger] chunks[i]),
        !is_inner_chunk(last),
        first.data.len() + joined(chunks).len() <= MAX_SNAPSHOT_BYTES,
    ensures
        ({
            let stream = chunks.push(last) + messages;
            let taken = messages_taken(first, stream);
            &&& transfer_run(first, stream) == transfer_run(first, chunks.push(last))
            &&& taken == chunks.len() + 1
            &&& transfer_run(second, stream.skip(taken as int)) == transfer_run(second, messages)
        }),
{
    let rest = seq![last];
    assert(chunks.push(last) =~= chunks + rest);
    lemma_inner_chunks(first, chunks, rest);
    law_ended_transfer_ignores_later_messages(first, chunks.push(last), messages);
    let stream = chunks.push(last) + messages;
    assert(stream.skip(chunks.len() as int + 1) =~= messages);
}

/// What a fetch comes to when `reply` answers its request and `messages` arrive
/// after it.
pub open spec fn snapshot_run(fetch: SnapshotFetch, reply: Bc, messages: Seq<Bc>) -> StepView {
    match reply_error(reply) {
        Some(e) => StepView::Failed(e),
        None => transfer_run(fresh_transfer(fetch, announced_size(reply)->0), messages),
    }
}

/// A transfer that completes was given chunks that more follow, then a last
/// chunk, and hands out what it had and their bytes in the order of arrival.
pub proof fn law_completed_transfer_was_sent(
    transfer: TransferView,
    messages: Seq<Bc>,
    data: Seq<u8>,
)
    requires
        transfer_run(transfer, messages) == StepView::Complete(data),
    ensures
        ({
            let k = messages_taken(transfer, messages) - 1;
            &&& 0 <= k < messages.len()
            &&& forall|i: int| 0 <= i < k ==> is_inner_chunk(#[trigger] messages[i])
            &&& is_last_chunk(messages[k])
            &&& data == transfer.data + joined(messages.take(k)) + chunk_bytes(messages[k])
        }),
    decreases messages.len(),
{
    let k = messages_taken(transfer, messages) - 1;
    match chunk_outcome(transfer, messages[0]) {
        StepView::More(next) => {
            let tail = messages.drop_first();
            law_completed_transfer_was_sent(next, tail, data);
            assert forall|i: int| 0 <= i < k implies is_inner_chunk(#[trigger] messages[i]) by {
                if i > 0 {
                    assert(messages[i] == tail[i - 1]);
                }
            }
            assert(messages[k] == tail[k - 1]);
            assert(messages.take(k).drop_first() =~= tail.take(k - 1));
            assert(messages.take(k)[0] == messages[0]);
            assert(next.data + joined(tail.take(k - 1)) + chunk_bytes(messages[k])
                =~= transfer.data + joined(messages.take(k)) + chunk_bytes(messages[k]));
        },
        _ => {
            assert(transfer.data + joined(messages.take(0)) + chunk_bytes(messages[0])
                =~= transfer.data + chunk_bytes(messages[0]));
        },
    }
}

/// Whatever a camera sends, a picture that a fetch hands out was granted, has
/// exactly the announced size and is within the limit. It is what the camera
/// sent: the messages that the fetch took are chunks that more follow and then
/// a last one, and the picture is their bytes in the order of arrival.
pub proof fn law_fetched_picture_is_whole(
    fetch: SnapshotFetch,
    reply: Bc,
    messages: Seq<Bc>,
    data: Seq<u8>,
)
    requires
        snapshot_run(fetch, reply, messages) == StepView::Complete(data),
    ensures
        reply.meta.response_code == CODE_OK,
        announced_size(reply) == Some(data.len() as u32),
        data.len() <= MAX_SNAPSHOT_BYTES,
        ({
            let transfer = fresh_transfer(fetch, announced_size(reply)->0);
            let k = messages_taken(transfer, messages) - 1;
            &&& 0 <= k < messages.len()
            &&& forall|i: int| 0 <= i < k ==> is_inner_chunk(#[trigger] messages[i])
            &&& is_last_chunk(messages[k])
            &&& data == joined(messages.take(k)) + chunk_bytes(messages[k])
        }),
{
    let transfer = fresh_transfer(fetch, announced_size(reply)->0);
    let k = messages_taken(transfer, messages) - 1;
    law_no_truncated_picture(transfer, messages, data);
    law_completed_transfer_was_sent(transfer, messages, data);
    assert(data =~= joined(messages.take(k)) + chunk_bytes(messages[k]));
}

/// A picture that is announced within the limit and sent in full is handed out
/// as it was sent, in however many chunks.
pub proof fn law_sent_picture_is_fetched(
    fetch: SnapshotFetch,
    reply: Bc,
    chunks: Seq<Bc>,
    last: Bc,
)
    requires
        reply_error(reply) is None,
        forall|i: int| 0 <= i < chunks.len() ==> is_inner_chunk(#[trigger] chunks[i]),
        is_last_chunk(last),
        joined(chunks).len() + chunk_bytes(last).len() == announced_size(reply)->0,
    ensures
        snapshot_run(fetch, reply, chunks.push(last)) == StepView::Complete(
            joined(chunks) + chunk_bytes(last),
        ),
{
    let transfer = fresh_transfer(fetch, announced_size(reply)->0);
    law_accepted_announcement_is_within_limit(reply);
    law_chunks_are_joined_in_order(transfer, chunks, last);
    assert(transfer.data + joined(chunks) + chunk_bytes(last) =~= joined(chunks) + chunk_bytes(
        last,
    ));
}

} // verus!
