//! What holds of every run of the read loop, whatever the channel delivers.

use vstd::prelude::*;

use crate::frame::Frame;
use crate::transport::{read_step, ReadAction, ReadEvent, WriteState};

verus! {

/// The caller performed action `a` and reports `e` as its outcome, with no
/// error from the channel: an offered frame is accepted or handed back as it
/// was, and a flush or a read either completes or is polled again later.
pub open spec fn reports(a: ReadAction, e: ReadEvent) -> bool {
    match a {
        ReadAction::Send(f) => e == ReadEvent::SendAccepted || e == ReadEvent::SendRefused(f),
        ReadAction::Flush => e == ReadEvent::Flushed || e == ReadEvent::Polled,
        ReadAction::Receive => e is Received || e == ReadEvent::Polled,
        _ => e == ReadEvent::Polled,
    }
}

/// A run of the read loop: `states[i]` is the write state before `events[i]`,
/// which leads to `actions[i]` and `states[i + 1]`, and every event after the
/// first reports the outcome of the action before it.
pub open spec fn is_run(
    states: Seq<WriteState>,
    events: Seq<ReadEvent>,
    actions: Seq<ReadAction>,
) -> bool {
    &&& states.len() == events.len() + 1
    &&& actions.len() == events.len()
    &&& forall|i: int|
        0 <= i < events.len() ==> read_step(states[i], events[i], states[i + 1], actions[i])
    &&& forall|i: int| 0 < i < events.len() ==> reports(actions[i - 1], events[i])
}

/// After a `Ping(p)` that starts a run, up to event `i`: no item was handed
/// out, and either the `Pong(p)` is still being offered (`acc == 0`), or the
/// channel accepted it at event `acc`, accepted nothing else, and the flush
/// after it is still open.
spec fn answering(
    states: Seq<WriteState>,
    events: Seq<ReadEvent>,
    actions: Seq<ReadAction>,
    p: Vec<u8>,
    i: int,
    acc: int,
) -> bool {
    &&& forall|j: int| 0 <= j < i ==> !(#[trigger] actions[j] is Yield)
    &&& if acc == 0 {
        &&& forall|j: int| 1 <= j < i ==> #[trigger] events[j] != ReadEvent::SendAccepted
        &&& {
            ||| states[i] == WriteState::Idle && actions[i - 1] == ReadAction::Send(Frame::Pong(p))
            ||| states[i] == WriteState::Sending(Frame::Pong(p)) && actions[i - 1] == ReadAction::Suspend
        }
    } else {
        &&& 1 <= acc < i
        &&& events[acc] == ReadEvent::SendAccepted
        &&& actions[acc - 1] == ReadAction::Send(Frame::Pong(p))
        &&& forall|j: int| 1 <= j < i && #[trigger] events[j] == ReadEvent::SendAccepted ==> j == acc
        &&& states[i] == WriteState::Flushing
        &&& actions[i - 1] == ReadAction::Flush
    }
}

proof fn lemma_answering(
    states: Seq<WriteState>,
    events: Seq<ReadEvent>,
    actions: Seq<ReadAction>,
    p: Vec<u8>,
    i: int,
) -> (acc: int)
    requires
        is_run(states, events, actions),
        events.len() > 0,
        !(states[0] is Failed),
        events[0] == ReadEvent::Received(Some(Frame::Ping(p))),
        1 <= i <= events.len(),
        forall|j: int| 0 <= j < i ==> actions[j] != ReadAction::Receive,
    ensures
        answering(states, events, actions, p, i, acc),
    decreases i,
{
    assert(read_step(states[0], events[0], states[1], actions[0]));
    if i == 1 {
        0
    } else {
        let acc = lemma_answering(states, events, actions, p, i - 1);
        let k = i - 1;
        assert(read_step(states[k], events[k], states[k + 1], actions[k]));
        assert(reports(actions[k - 1], events[k]));
        assert(actions[k] != ReadAction::Receive);
        if acc == 0 && events[k] == ReadEvent::SendAccepted {
            k
        } else {
            acc
        }
    }
}

/// A `Ping(p)` received by a read sequence that has not failed is answered
/// before any further input is read, and
/// hands out no item: when the loop next asks the channel for a frame, the
/// flush has just completed, and since the `Ping` the channel has accepted
/// exactly one frame, the `Pong(p)`.
pub proof fn ping_answered_before_next_read(
    states: Seq<WriteState>,
    events: Seq<ReadEvent>,
    actions: Seq<ReadAction>,
    p: Vec<u8>,
    k: int,
)
    requires
        is_run(states, events, actions),
        events.len() > 0,
        !(states[0] is Failed),
        events[0] == ReadEvent::Received(Some(Frame::Ping(p))),
        0 <= k < events.len(),
        actions[k] == ReadAction::Receive,
        forall|j: int| 0 <= j < k ==> actions[j] != ReadAction::Receive,
    ensures
        actions[0] == ReadAction::Send(Frame::Pong(p)),
        events[k] == ReadEvent::Flushed,
        forall|j: int| 0 <= j <= k ==> !(#[trigger] actions[j] is Yield),
        exists|a: int|
            #![trigger events[a]]
            1 <= a < k && events[a] == ReadEvent::SendAccepted && actions[a - 1] == ReadAction::Send(
                Frame::Pong(p),
            ) && forall|j: int|
                1 <= j < k && #[trigger] events[j] == ReadEvent::SendAccepted ==> j == a,
{
    assert(read_step(states[0], events[0], states[1], actions[0]));
    assert(k >= 1);
    let acc = lemma_answering(states, events, actions, p, k);
    assert(read_step(states[k], events[k], states[k + 1], actions[k]));
    assert(reports(actions[k - 1], events[k]));
    assert(acc != 0);
    assert(events[acc] == ReadEvent::SendAccepted);
}

/// A `Pong` or `Close` frame that a run reads hands out no item and writes
/// nothing: the write state stays `Idle`, and the loop asks for the next frame.
pub proof fn dropped_frames_change_nothing(
    states: Seq<WriteState>,
    events: Seq<ReadEvent>,
    actions: Seq<ReadAction>,
    i: int,
)
    requires
        is_run(states, events, actions),
        0 < i < events.len(),
        events[i] matches ReadEvent::Received(Some(f)) && (f is Pong || f is Close),
    ensures
        states[i] == WriteState::Idle,
        states[i + 1] == WriteState::Idle,
        actions[i] == ReadAction::Receive,
{
    assert(reports(actions[i - 1], events[i]));
    assert(read_step(states[i - 1], events[i - 1], states[i], actions[i - 1]));
    assert(read_step(states[i], events[i], states[i + 1], actions[i]));
}

/// Once a `Binary` frame that is not UTF-8 has failed the read sequence, the
/// sequence hands out no further item: every later step ends it again, and
/// nothing more is sent or read.
pub proof fn no_item_after_decode_failure(
    states: Seq<WriteState>,
    events: Seq<ReadEvent>,
    actions: Seq<ReadAction>,
    i: int,
    j: int,
)
    requires
        is_run(states, events, actions),
        0 <= i < j < events.len(),
        actions[i] is Fail,
    ensures
        states[j] == WriteState::Failed,
        actions[j] == ReadAction::Yield(None),
    decreases j - i,
{
    assert(read_step(states[i], events[i], states[i + 1], actions[i]));
    if j > i + 1 {
        no_item_after_decode_failure(states, events, actions, i, j - 1);
    }
    assert(read_step(states[j], events[j], states[j + 1], actions[j]));
}

} // verus!
