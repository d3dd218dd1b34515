use vstd::prelude::*;
use vstd::utf8::{decode_utf8, valid_utf8};

use crate::frame::{text_from_utf8, Frame};

verus! {

/// The adapter's state: at most one frame of its own is on its way to the
/// channel at any time, and a failed read sequence stays failed.
#[derive(Debug)]
pub enum WriteState {
    /// Nothing of the adapter's own is pending.
    Idle,
    /// A frame waits for the channel to accept it.
    Sending(Frame),
    /// The channel accepted a frame and has not yet confirmed the flush.
    Flushing,
    /// A `Binary` frame was not UTF-8: the read sequence has failed, and it
    /// hands out nothing more.
    Failed,
}

/// What the caller of the read loop reports to the adapter.
#[derive(Debug)]
pub enum ReadEvent {
    /// The caller asks for the next text item.
    Polled,
    /// The channel accepted the frame of the last `Send`.
    SendAccepted,
    /// The channel refused the frame of the last `Send` and handed it back.
    SendRefused(Frame),
    /// The channel confirmed that everything it accepted has been sent.
    Flushed,
    /// The channel delivered its next inbound frame, or `None` at its end.
    Received(Option<Frame>),
}

/// What the read loop does next, as the adapter decides it.
#[derive(Debug)]
pub enum ReadAction {
    /// Offer this frame to the channel and report `SendAccepted` or `SendRefused`.
    Send(Frame),
    /// Ask the channel to flush; report `Flushed` once it has, else suspend.
    Flush,
    /// Ask the channel for its next frame and report it as `Received`, else suspend.
    Receive,
    /// Nothing to hand out yet: suspend, and report `Polled` when asked again.
    Suspend,
    /// Hand out this item: `Some` text, or `None` at the end of the sequence.
    Yield(Option<String>),
    /// A `Binary` frame was not UTF-8: the read sequence fails with this error,
    /// and every later step ends it.
    Fail(std::string::FromUtf8Error),
}

/// What one step of the read loop does, from the write state `s` and the
/// event `e` to the new write state `t` and the action `a`. Once the read
/// sequence has failed, every step ends it again.
pub open spec fn read_step(s: WriteState, e: ReadEvent, t: WriteState, a: ReadAction) -> bool {
    if s is Failed {
        t == WriteState::Failed && a == ReadAction::Yield(None)
    } else {
        read_step_live(s, e, t, a)
    }
}

/// One step of a read sequence that has not failed.
pub open spec fn read_step_live(s: WriteState, e: ReadEvent, t: WriteState, a: ReadAction) -> bool {
    match e {
        ReadEvent::Polled => resume(s, t, a),
        ReadEvent::SendAccepted => t == WriteState::Flushing && a == ReadAction::Flush,
        ReadEvent::SendRefused(f) => t == WriteState::Sending(f) && a == ReadAction::Suspend,
        ReadEvent::Flushed => t == WriteState::Idle && a == ReadAction::Receive,
        ReadEvent::Received(None) => t == s && a == ReadAction::Yield(None),
        ReadEvent::Received(Some(f)) => match f {
            Frame::Text(x) => t == s && a == ReadAction::Yield(Some(x)),
            Frame::Binary(b) => if valid_utf8(b@) {
                &&& t == s
                &&& a matches ReadAction::Yield(Some(x)) && x@ == decode_utf8(b@)
            } else {
                t == WriteState::Failed && a is Fail
            },
            Frame::Ping(p) => t == WriteState::Idle && a == ReadAction::Send(Frame::Pong(p)),
            Frame::Pong(_) => resume(s, t, a),
            Frame::Close(_) => resume(s, t, a),
        },
    }
}

/// Where the loop goes on from write state `s`: a pending frame is offered
/// first, then an open flush is finished, and only then is input read.
pub open spec fn resume(s: WriteState, t: WriteState, a: ReadAction) -> bool {
    match s {
        WriteState::Sending(f) => t == WriteState::Idle && a == ReadAction::Send(f),
        WriteState::Flushing => t == WriteState::Flushing && a == ReadAction::Flush,
        WriteState::Idle => t == WriteState::Idle && a == ReadAction::Receive,
        WriteState::Failed => t == WriteState::Failed && a == ReadAction::Yield(None),
    }
}

/// A text-only transport around a frame channel `T`.
pub struct WsTransport<T> {
    inner: T,
    state: WriteState,
}

impl<T> View for WsTransport<T> {
    type V = WriteState;

    closed spec fn view(&self) -> WriteState {
        self.state
    }
}

impl<T> WsTransport<T> {
    /// The channel that this transport wraps.
    pub closed spec fn channel(&self) -> T {
        self.inner
    }

    /// Wraps a channel, with nothing pending on the write side.
    pub fn new(inner: T) -> (r: Self)
        ensures
            r@ == WriteState::Idle,
            r.channel() == inner,
    {
        WsTransport { inner, state: WriteState::Idle }
    }

    /// The write state.
    pub fn write_state(&self) -> (r: &WriteState)
        ensures
            *r == self@,
    {
        &self.state
    }

    /// The wrapped channel.
    pub fn get_ref(&self) -> (r: &T)
        ensures
            *r == self.channel(),
    {
        &self.inner
    }

    /// The wrapped channel, for the caller to perform an action on it.
    pub fn get_mut(&mut self) -> (r: &mut T)
        ensures
            *r == old(self).channel(),
            final(self).channel() == *final(r),
            final(self)@ == old(self)@,
    {
        &mut self.inner
    }

    /// Gives the channel back; a frame still pending is dropped.
    pub fn into_inner(self) -> (r: T)
        ensures
            r == self.channel(),
    {
        self.inner
    }

    /// Goes on from the current write state; a pending frame leaves the state
    /// as it is offered.
    fn resume(&mut self) -> (a: ReadAction)
        ensures
            resume(old(self)@, final(self)@, a),
            final(self).channel() == old(self).channel(),
    {
        let mut state = WriteState::Idle;
        std::mem::swap(&mut self.state, &mut state);
        match state {
            WriteState::Sending(f) => ReadAction::Send(f),
            WriteState::Flushing => {
                self.state = WriteState::Flushing;
                ReadAction::Flush
            },
            WriteState::Idle => ReadAction::Receive,
            WriteState::Failed => {
                self.state = WriteState::Failed;
                ReadAction::Yield(None)
            },
        }
    }

    /// One step of the read loop: takes what the caller observed and says
    /// what it does next.
    pub fn step(&mut self, event: ReadEvent) -> (a: ReadAction)
        ensures
            read_step(old(self)@, event, final(self)@, a),
            final(self).channel() == old(self).channel(),
    {
        if let WriteState::Failed = self.state {
            return ReadAction::Yield(None);
        }
        match event {
            ReadEvent::Polled => self.resume(),
            ReadEvent::SendAccepted => {
                self.state = WriteState::Flushing;
                ReadAction::Flush
            },
            ReadEvent::SendRefused(f) => {
                self.state = WriteState::Sending(f);
                ReadAction::Suspend
            },
            ReadEvent::Flushed => {
                self.state = WriteState::Idle;
                ReadAction::Receive
            },
            ReadEvent::Received(None) => ReadAction::Yield(None),
            ReadEvent::Received(Some(f)) => match f {
                Frame::Text(x) => ReadAction::Yield(Some(x)),
                Frame::Binary(b) => match text_from_utf8(b) {
                    Ok(x) => ReadAction::Yield(Some(x)),
                    Err(err) => {
                        self.state = WriteState::Failed;
                        ReadAction::Fail(err)
                    },
                },
                Frame::Ping(p) => {
                    self.state = WriteState::Idle;
                    ReadAction::Send(Frame::Pong(p))
                },
                Frame::Pong(_) => self.resume(),
                Frame::Close(_) => self.resume(),
            },
        }
    }
}

} // verus!
