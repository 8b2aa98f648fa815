//! Several snapshot calls on one camera at the same time.
//!
//! The chunks of a picture come under a message number that only the camera
//! knows. They go to whoever subscribed last, so two fetches that overlap would
//! take each other's chunks. Calls therefore take turns: a call hands out its
//! request when it gets the turn, and keeps the turn until it returns. A driver
//! keeps this rule with a lock that it holds for the whole call.
//!
//! This module models any number of calls under that rule, in whatever order
//! their steps happen, and shows that each of them gets its own picture. The
//! calls are those that passed the ability check of `BcCamera::get_snapshot`;
//! each step is the one that the contracts of `get_snapshot`, `on_reply` and
//! `on_chunk` state.

use crate::camera::next_num;
use crate::model::Bc;
use crate::snapshot::{
    announced_size, chunk_bytes, chunk_outcome, fresh_transfer, is_inner_chunk, is_last_chunk,
    joined, law_ended_transfer_ignores_later_messages, law_sent_picture_is_fetched,
    messages_taken, reply_error, snapshot_run, transfer_run, SnapshotFetch, StepView, TransferView,
    CODE_OK,
};
use vstd::prelude::*;

verus! {

/// How far a call has got since it was given the turn.
pub enum Stage {
    /// Its request was sent, and the answer is awaited.
    Asked { fetch: SnapshotFetch },
    /// It has subscribed to the chunks, after `from` of them had arrived, and
    /// was delivered those in `got`.
    Receiving {
        fetch: SnapshotFetch,
        reply: Bc,
        from: nat,
        got: Seq<Bc>,
        transfer: TransferView,
    },
    /// It has returned. While it was subscribed the chunks from number `from`
    /// up to number `to` arrived.
    Returned { fetch: SnapshotFetch, reply: Bc, from: nat, to: nat, result: StepView },
    /// It was given up before it could return: a connection failed, or its
    /// caller went away.
    Left,
}

/// A camera and the snapshot calls on it.
pub struct Calls {
    /// The channel that the pictures are taken from.
    pub channel_id: u8,
    /// The number that the next request gets.
    pub message_num: u16,
    /// The call that has the turn.
    pub turn: Option<int>,
    /// The call that subscribed to the chunks last.
    pub subscriber: Option<int>,
    /// The calls that were given the turn so far.
    pub stages: Map<int, Stage>,
    /// The chunks that arrived so far.
    pub stream: Seq<Bc>,
}

/// What may happen next.
pub enum Action {
    /// A call asks for the turn and, if it gets it, sends its request.
    Enter(int),
    /// The answer to a call's request arrives.
    Reply(int, Bc),
    /// A chunk arrives.
    Chunk(Bc),
    /// A call is given up.
    Leave(int),
}

impl Calls {
    /// Whether a call has sent its request and has not returned.
    pub open spec fn in_flight(self, call: int) -> bool {
        self.stages.contains_key(call) && (self.stages[call] is Asked || self.stages[call]
            is Receiving)
    }

    /// The same calls, with `call` at another stage.
    pub open spec fn at(self, call: int, stage: Stage) -> Calls {
        Calls { stages: self.stages.insert(call, stage), ..self }
    }

    /// The same calls after `call` has ended: it passes on the turn and drops
    /// its subscription.
    pub open spec fn ended(self, call: int, stage: Stage) -> Calls {
        Calls {
            turn: None,
            subscriber: if self.subscriber == Some(call) {
                None
            } else {
                self.subscriber
            },
            ..self.at(call, stage)
        }
    }
}

/// A camera on which nobody has asked for a snapshot yet.
pub open spec fn no_calls(channel_id: u8, message_num: u16) -> Calls {
    Calls {
        channel_id,
        message_num,
        turn: None,
        subscriber: None,
        stages: Map::empty(),
        stream: Seq::empty(),
    }
}

/// A call is delivered a chunk.
pub open spec fn deliver(s: Calls, call: int, message: Bc) -> Calls {
    match s.stages[call] {
        Stage::Receiving { fetch, reply, from, got, transfer } => match chunk_outcome(
            transfer,
            message,
        ) {
            StepView::More(next) => s.at(
                call,
                Stage::Receiving { fetch, reply, from, got: got.push(message), transfer: next },
            ),
            result => s.ended(
                call,
                Stage::Returned { fetch, reply, from, to: from + got.len() + 1, result },
            ),
        },
        _ => s,
    }
}

/// What an action makes of the calls. One that cannot happen changes nothing:
/// a call that asks for the turn while another one has it goes on waiting.
pub open spec fn act(s: Calls, action: Action) -> Calls {
    match action {
        Action::Enter(call) => if s.turn is None && !s.stages.contains_key(call) {
            let fetch = SnapshotFetch { channel_id: s.channel_id, msg_num: s.message_num };
            Calls {
                message_num: next_num(s.message_num),
                turn: Some(call),
                ..s.at(call, Stage::Asked { fetch })
            }
        } else {
            s
        },
        Action::Reply(call, reply) => match s.stages[call] {
            Stage::Asked { fetch } if s.stages.contains_key(call) => match reply_error(reply) {
                Some(e) => s.ended(
                    call,
                    Stage::Returned {
                        fetch,
                        reply,
                        from: s.stream.len(),
                        to: s.stream.len(),
                        result: StepView::Failed(e),
                    },
                ),
                None => Calls {
                    subscriber: Some(call),
                    ..s.at(
                        call,
                        Stage::Receiving {
                            fetch,
                            reply,
                            from: s.stream.len(),
                            got: Seq::empty(),
                            transfer: fresh_transfer(fetch, announced_size(reply)->0),
                        },
                    )
                },
            },
            _ => s,
        },
        Action::Chunk(message) => {
            let arrived = Calls { stream: s.stream.push(message), ..s };
            match s.subscriber {
                Some(call) => deliver(arrived, call, message),
                None => arrived,
            }
        },
        Action::Leave(call) => if s.in_flight(call) {
            s.ended(call, Stage::Left)
        } else {
            s
        },
    }
}

/// What a run of actions makes of the calls.
pub open spec fn after(s: Calls, actions: Seq<Action>) -> Calls
    decreases actions.len(),
{
    if actions.len() == 0 {
        s
    } else {
        act(after(s, actions.drop_last()), actions.last())
    }
}

/// Whether two calls that have returned shared no chunk.
pub open spec fn apart(one: Stage, other: Stage) -> bool {
    one matches Stage::Returned { from, to, .. } ==> (other matches Stage::Returned {
        from: other_from,
        to: other_to,
        ..
    } ==> to <= other_from || other_to <= from)
}

/// Whether what a call was delivered, and what it made of that, is right.
pub open spec fn stage_ok(stage: Stage, stream: Seq<Bc>) -> bool {
    match stage {
        Stage::Receiving { fetch, reply, from, got, transfer } => {
            &&& reply_error(reply) is None
            &&& from <= stream.len()
            &&& got == stream.skip(from as int)
            &&& snapshot_run(fetch, reply, got) == StepView::More(transfer)
            &&& messages_taken(fresh_transfer(fetch, announced_size(reply)->0), got) == got.len()
        },
        Stage::Returned { fetch, reply, from, to, result } => {
            let got = stream.subrange(from as int, to as int);
            &&& from <= to <= stream.len()
            &&& !(result is More)
            &&& result == snapshot_run(fetch, reply, got)
            &&& reply_error(reply) is None ==> messages_taken(
                fresh_transfer(fetch, announced_size(reply)->0),
                got,
            ) == got.len()
        },
        _ => true,
    }
}

impl Calls {
    /// What the rule of the turn keeps true.
    pub open spec fn wf(self) -> bool {
        &&& forall|call: int| #[trigger] self.in_flight(call) ==> self.turn == Some(call)
        &&& self.subscriber matches Some(call) ==> self.stages.contains_key(call)
            && self.stages[call] is Receiving
        &&& forall|call: int| #[trigger]
            self.stages.contains_key(call) && self.stages[call] is Receiving ==> self.subscriber
                == Some(call)
        &&& forall|call: int| #[trigger]
            self.stages.contains_key(call) ==> stage_ok(self.stages[call], self.stream)
        &&& forall|call: int, other: int| #[trigger]
            self.stages.contains_key(call) && #[trigger] self.stages.contains_key(other) && call
                != other ==> apart(self.stages[call], self.stages[other])
        &&& forall|call: int, other: int| #[trigger]
            self.stages.contains_key(call) && #[trigger] self.stages.contains_key(other)
                ==> earlier(self.stages[call], self.stages[other])
    }
}

/// Whether `one`, if it has returned, had done so before `other`, if it still
/// receives, subscribed.
pub open spec fn earlier(one: Stage, other: Stage) -> bool {
    one matches Stage::Returned { to, .. } ==> (other matches Stage::Receiving { from, .. } ==> to
        <= from)
}

/// One more message for a transfer that waits.
proof fn lemma_one_more_message(
    transfer: TransferView,
    messages: Seq<Bc>,
    message: Bc,
    waiting: TransferView,
)
    requires
        transfer_run(transfer, messages) == StepView::More(waiting),
    ensures
        transfer_run(transfer, messages.push(message)) == chunk_outcome(waiting, message),
        messages_taken(transfer, messages.push(message)) == messages.len() + 1,
    decreases messages.len(),
{
    let longer = messages.push(message);
    if messages.len() == 0 {
        assert(longer.drop_first() =~= Seq::<Bc>::empty());
        assert(longer[0] == message);
        reveal_with_fuel(transfer_run, 2);
        reveal_with_fuel(messages_taken, 2);
    } else {
        let next = chunk_outcome(transfer, messages[0])->More_0;
        assert(longer[0] == messages[0]);
        assert(longer.drop_first() =~= messages.drop_first().push(message));
        lemma_one_more_message(next, messages.drop_first(), message, waiting);
    }
}

/// A chunk that is not for a call changes nothing about it.
proof fn lemma_stage_survives(stage: Stage, stream: Seq<Bc>, message: Bc)
    requires
        stage_ok(stage, stream),
        !(stage is Receiving),
    ensures
        stage_ok(stage, stream.push(message)),
{
    if let Stage::Returned { from, to, .. } = stage {
        assert(stream.push(message).subrange(from as int, to as int) =~= stream.subrange(
            from as int,
            to as int,
        ));
    }
}

/// The arrival of a chunk keeps the calls in order.
proof fn lemma_chunk_keeps_order(s: Calls, message: Bc)
    requires
        s.wf(),
    ensures
        act(s, Action::Chunk(message)).wf(),
{
    let t = act(s, Action::Chunk(message));
    assert forall|call: int| #[trigger] t.stages.contains_key(call) implies stage_ok(
        t.stages[call],
        t.stream,
    ) by {
        assert(s.stages.contains_key(call));
        match s.stages[call] {
            Stage::Receiving { fetch, reply, from, got, transfer } => {
                let start = fresh_transfer(fetch, announced_size(reply)->0);
                lemma_one_more_message(start, got, message, transfer);
                assert(s.stream.push(message).skip(from as int) =~= got.push(message));
                assert(s.stream.push(message).subrange(from as int, (from + got.len() + 1) as int)
                    =~= got.push(message));
            },
            stage => lemma_stage_survives(stage, s.stream, message),
        }
    }
    assert forall|call: int| #[trigger] t.in_flight(call) implies t.turn == Some(call) by {
        assert(s.in_flight(call));
        if let Some(receiver) = s.subscriber {
            assert(s.in_flight(receiver));
        }
    }
    assert forall|call: int, other: int| #[trigger]
        t.stages.contains_key(call) && #[trigger] t.stages.contains_key(other) && call
            != other implies apart(t.stages[call], t.stages[other]) by {
        assert(s.stages.contains_key(call) && s.stages.contains_key(other));
        assert(earlier(s.stages[call], s.stages[other]));
        assert(earlier(s.stages[other], s.stages[call]));
    }
}

/// Every action keeps the calls in order.
proof fn lemma_act_keeps_order(s: Calls, action: Action)
    requires
        s.wf(),
    ensures
        act(s, action).wf(),
{
    let t = act(s, action);
    match action {
        Action::Chunk(message) => lemma_chunk_keeps_order(s, message),
        Action::Enter(call) => {
            assert forall|other: int| #[trigger] t.in_flight(other) implies t.turn == Some(
                other,
            ) by {
                if other != call {
                    assert(s.in_flight(other));
                }
            }
        },
        Action::Reply(call, reply) => {
            assert forall|other: int| #[trigger] t.in_flight(other) implies t.turn == Some(
                other,
            ) by {
                assert(s.in_flight(other));
                if s.stages.contains_key(call) && s.stages[call] is Asked {
                    assert(s.in_flight(call));
                }
            }
            if s.stages.contains_key(call) && s.stages[call] is Asked {
                assert(s.in_flight(call));
                assert forall|other: int| #[trigger]
                    s.stages.contains_key(other) && s.stages[other] is Receiving implies false by {
                    assert(s.in_flight(other));
                }
                assert(s.stream.skip(s.stream.len() as int) =~= Seq::<Bc>::empty());
            }
        },
        Action::Leave(call) => {
            assert forall|other: int| #[trigger] t.in_flight(other) implies t.turn == Some(
                other,
            ) by {
                assert(s.in_flight(other));
            }
        },
    }
}

/// Whatever happens, and in whatever order, the rule of the turn keeps the
/// calls in order.
pub proof fn law_calls_stay_in_order(channel_id: u8, message_num: u16, actions: Seq<Action>)
    ensures
        after(no_calls(channel_id, message_num), actions).wf(),
    decreases actions.len(),
{
    if actions.len() > 0 {
        law_calls_stay_in_order(channel_id, message_num, actions.drop_last());
        lemma_act_keeps_order(
            after(no_calls(channel_id, message_num), actions.drop_last()),
            actions.last(),
        );
    }
}

/// No request is sent before the call ahead has returned: while one call is in
/// flight, no other one is, and none can become so.
pub proof fn law_second_request_waits(
    channel_id: u8,
    message_num: u16,
    actions: Seq<Action>,
    call: int,
    other: int,
)
    requires
        after(no_calls(channel_id, message_num), actions).in_flight(call),
        other != call,
    ensures
        !after(no_calls(channel_id, message_num), actions).in_flight(other),
        act(after(no_calls(channel_id, message_num), actions), Action::Enter(other)) == after(
            no_calls(channel_id, message_num),
            actions,
        ),
{
    law_calls_stay_in_order(channel_id, message_num, actions);
}

/// Calls that run at the same time do not mix their chunks: a call that has
/// returned comes to what the chunks between its subscription and its return
/// make of it, all of them, and no two calls share a chunk.
pub proof fn law_concurrent_calls_do_not_mix(
    channel_id: u8,
    message_num: u16,
    actions: Seq<Action>,
    call: int,
    other: int,
)
    requires
        after(no_calls(channel_id, message_num), actions).stages.contains_key(call),
        after(no_calls(channel_id, message_num), actions).stages.contains_key(other),
        other != call,
    ensures
        ({
            let s = after(no_calls(channel_id, message_num), actions);
            &&& s.stages[call] matches Stage::Returned { fetch, reply, from, to, result } ==> {
                &&& from <= to <= s.stream.len()
                &&& result == snapshot_run(
                    fetch,
                    reply,
                    s.stream.subrange(from as int, to as int),
                )
            }
            &&& apart(s.stages[call], s.stages[other])
        }),
{
    law_calls_stay_in_order(channel_id, message_num, actions);
}

/// When a call subscribed to the chunks, if it did: the answer that announced
/// its picture, and how many chunks had arrived by then.
pub open spec fn subscription(stage: Stage) -> Option<(Bc, nat)> {
    match stage {
        Stage::Receiving { reply, from, .. } => Some((reply, from)),
        Stage::Returned { reply, from, .. } if reply_error(reply) is None => Some((reply, from)),
        _ => None,
    }
}

/// Each call gets its own picture: if the camera announced a picture to a call
/// and then sent it in full, the call has returned, with exactly the bytes of
/// its own chunks, however many other calls there are, and took no chunk beyond
/// them.
pub proof fn law_each_call_gets_its_own_picture(
    channel_id: u8,
    message_num: u16,
    actions: Seq<Action>,
    call: int,
    chunks: Seq<Bc>,
    last: Bc,
    rest: Seq<Bc>,
)
    requires
        ({
            let s = after(no_calls(channel_id, message_num), actions);
            &&& s.stages.contains_key(call)
            &&& subscription(s.stages[call]) matches Some((reply, from))
            &&& s.stream.skip(from as int) == chunks.push(last) + rest
            &&& joined(chunks).len() + chunk_bytes(last).len() == announced_size(reply)->0
        }),
        forall|i: int| 0 <= i < chunks.len() ==> is_inner_chunk(#[trigger] chunks[i]),
        is_last_chunk(last),
    ensures
        after(no_calls(channel_id, message_num), actions).stages[call] matches Stage::Returned {
            from,
            to,
            result,
            ..
        } && result == StepView::Complete(joined(chunks) + chunk_bytes(last)) && to == from
            + chunks.len() + 1,
{
    let s = after(no_calls(channel_id, message_num), actions);
    let own = chunks.push(last);
    law_calls_stay_in_order(channel_id, message_num, actions);
    match s.stages[call] {
        Stage::Returned { fetch, reply, from, to, .. } => {
            let start = fresh_transfer(fetch, announced_size(reply)->0);
            let got = s.stream.subrange(from as int, to as int);
            let later = s.stream.skip(to as int);
            assert(s.stream.skip(from as int) =~= got + later);
            law_sent_picture_is_fetched(fetch, reply, chunks, last);
            law_ended_transfer_ignores_later_messages(start, got, later);
            law_ended_transfer_ignores_later_messages(start, own, rest);
            lemma_own_chunks_are_taken(start, own);
        },
        Stage::Receiving { fetch, reply, .. } => {
            let start = fresh_transfer(fetch, announced_size(reply)->0);
            law_sent_picture_is_fetched(fetch, reply, chunks, last);
            law_ended_transfer_ignores_later_messages(start, own, rest);
        },
        _ => {},
    }
}

/// A run of chunks of which only the last one ends a transfer is taken whole.
proof fn lemma_own_chunks_are_taken(transfer: TransferView, messages: Seq<Bc>)
    requires
        messages.len() > 0,
        forall|i: int| 0 <= i < messages.len() - 1 ==> is_inner_chunk(#[trigger] messages[i]),
        is_last_chunk(messages.last()),
        transfer_run(transfer, messages) is Complete,
    ensures
        messages_taken(transfer, messages) == messages.len(),
    decreases messages.len(),
{
    let tail = messages.drop_first();
    if messages.len() > 1 {
        assert(is_inner_chunk(messages[0]));
        let next = chunk_outcome(transfer, messages[0])->More_0;
        assert forall|i: int| 0 <= i < tail.len() - 1 implies is_inner_chunk(
            #[trigger] tail[i],
        ) by {
            assert(tail[i] == messages[i + 1]);
        }
        assert(tail.last() == messages.last());
        lemma_own_chunks_are_taken(next, tail);
    } else {
        assert(messages[0] == messages.last());
        assert(messages[0].meta.response_code != CODE_OK);
    }
}

} // verus!
