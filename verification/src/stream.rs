//! The stream of results of one native operation, as a state machine.
//!
//! The native layer produces replies while its dispatch routine runs; the
//! consumer takes them one by one.  A [`ServiceStream`] sits between the
//! two.  It buffers what was delivered, hands it out in the order of
//! delivery, says when the dispatch routine has to run, and ends for good
//! when the operation is cancelled or the native layer fails.
use std::collections::VecDeque;
use vstd::prelude::*;
use crate::error::Error;
use crate::native::NO_ERROR;
use crate::raw::DNSService;

verus! {

/// The three states of a result stream.
#[derive(Clone, Copy, PartialEq, Eq, Structural, Hash, Debug)]
pub enum StreamState {
    /// Nothing is buffered, and the stream is not at its end.
    Idle,
    /// At least one reply is buffered.
    Draining,
    /// The stream is at its end: it was cancelled, or the native layer
    /// failed.
    Terminated,
}

/// What one poll of a result stream gives.
#[derive(PartialEq, Eq, Debug)]
pub enum Poll<T> {
    /// The next item of the stream: a result, or the error of one reply.
    Ready(Result<T, Error>),
    /// Nothing is buffered.  The consumer waits until the native layer
    /// signals that replies are pending.
    NotReady,
    /// The stream has ended.
    Ended,
}

/// A result stream as mathematical values.
pub struct StreamView<T> {
    /// The replies that were delivered and not yet handed out, oldest first.
    pub buffer: Seq<Result<T, Error>>,
    /// The stream is at its end.
    pub terminated: bool,
    /// The native handle of the operation has been released.
    pub released: bool,
}

impl<T> StreamView<T> {
    /// A stream that was just started.
    pub open spec fn started() -> StreamView<T> {
        StreamView { buffer: Seq::empty(), terminated: false, released: false }
    }

    /// A stream at its end holds nothing, and a stream whose handle is
    /// released is at its end.
    pub open spec fn wf(self) -> bool {
        &&& self.terminated ==> self.buffer.len() == 0
        &&& self.released ==> self.terminated
    }

    /// The state of the stream.
    pub open spec fn state(self) -> StreamState {
        if self.terminated {
            StreamState::Terminated
        } else if self.buffer.len() == 0 {
            StreamState::Idle
        } else {
            StreamState::Draining
        }
    }

    /// The stream after `reply` was delivered to it.  A stream at its end
    /// takes nothing.
    pub open spec fn deliver(self, reply: Result<T, Error>) -> StreamView<T> {
        if self.terminated {
            self
        } else {
            StreamView { buffer: self.buffer.push(reply), ..self }
        }
    }

    /// What a poll of the stream gives.
    pub open spec fn polled(self) -> Poll<T> {
        if self.terminated {
            Poll::Ended
        } else if self.buffer.len() == 0 {
            Poll::NotReady
        } else {
            Poll::Ready(self.buffer.first())
        }
    }

    /// The stream after a poll.
    pub open spec fn after_poll(self) -> StreamView<T> {
        if self.terminated || self.buffer.len() == 0 {
            self
        } else {
            StreamView { buffer: self.buffer.drop_first(), ..self }
        }
    }

    /// What the stream gives after the native dispatch routine ran and
    /// returned `code`.
    pub open spec fn dispatched(self, code: i32) -> Poll<T> {
        if self.terminated || code == NO_ERROR {
            self.polled()
        } else {
            Poll::Ready(Err(Error::NativeRejection(code)))
        }
    }

    /// The stream after the native dispatch routine ran and returned `code`.
    pub open spec fn after_dispatch(self, code: i32) -> StreamView<T> {
        if self.terminated || code == NO_ERROR {
            self.after_poll()
        } else {
            StreamView { buffer: Seq::empty(), terminated: true, ..self }
        }
    }

    /// The stream after it was cancelled.
    pub open spec fn cancel(self) -> StreamView<T> {
        StreamView { buffer: Seq::empty(), terminated: true, released: true }
    }

    /// The stream after all of `replies` were delivered to it, first to
    /// last.
    pub open spec fn deliver_all(self, replies: Seq<Result<T, Error>>) -> StreamView<T>
        decreases replies.len(),
    {
        if replies.len() == 0 {
            self
        } else {
            self.deliver(replies.first()).deliver_all(replies.drop_first())
        }
    }

    /// What `n` polls in a row give.
    pub open spec fn polls(self, n: nat) -> Seq<Poll<T>>
        decreases n,
    {
        if n == 0 {
            Seq::empty()
        } else {
            seq![self.polled()] + self.after_poll().polls((n - 1) as nat)
        }
    }

    /// The stream after `n` polls in a row.
    pub open spec fn after_polls(self, n: nat) -> StreamView<T>
        decreases n,
    {
        if n == 0 {
            self
        } else {
            self.after_poll().after_polls((n - 1) as nat)
        }
    }

    /// No step breaks the rules of a stream.
    pub proof fn lemma_steps_keep_wf(self, reply: Result<T, Error>, code: i32)
        requires
            self.wf(),
        ensures
            StreamView::<T>::started().wf(),
            self.deliver(reply).wf(),
            self.after_poll().wf(),
            self.after_dispatch(code).wf(),
            self.cancel().wf(),
    {
    }

    /// Replies delivered to a running stream queue up behind what it holds,
    /// in the order of their delivery, and leave it running.
    pub proof fn lemma_deliver_all_appends(self, replies: Seq<Result<T, Error>>)
        requires
            !self.terminated,
        ensures
            self.deliver_all(replies) == (StreamView {
                buffer: self.buffer + replies,
                ..self
            }),
        decreases replies.len(),
    {
        if replies.len() == 0 {
            assert(self.buffer + replies =~= self.buffer);
        } else {
            let next = self.deliver(replies.first());
            next.lemma_deliver_all_appends(replies.drop_first());
            assert(next.buffer + replies.drop_first() =~= self.buffer + replies);
        }
    }

    /// A running stream hands out what it holds, oldest first, one item for
    /// each poll.
    pub proof fn lemma_polls_drain_in_order(self, n: nat)
        requires
            !self.terminated,
            n <= self.buffer.len(),
        ensures
            self.polls(n) == Seq::new(n, |i: int| Poll::Ready(self.buffer[i])),
            self.after_polls(n) == (StreamView {
                buffer: self.buffer.subrange(n as int, self.buffer.len() as int),
                ..self
            }),
        decreases n,
    {
        if n == 0 {
            assert(self.polls(n) =~= Seq::new(n, |i: int| Poll::Ready(self.buffer[i])));
            assert(self.buffer.subrange(0, self.buffer.len() as int) =~= self.buffer);
        } else {
            let next = self.after_poll();
            let m = (n - 1) as nat;
            next.lemma_polls_drain_in_order(m);
            assert(self.polls(n) =~= Seq::new(n, |i: int| Poll::Ready(self.buffer[i])));
            assert(next.buffer.subrange(m as int, next.buffer.len() as int)
                =~= self.buffer.subrange(n as int, self.buffer.len() as int));
        }
    }

    /// Whatever replies are delivered to a fresh stream, as many polls as
    /// there were replies hand them out, each once and in the order of their
    /// delivery.  The stream is idle again afterwards, and one more poll
    /// finds nothing.
    pub proof fn lemma_replies_come_out_in_order(replies: Seq<Result<T, Error>>)
        ensures
            StreamView::started().deliver_all(replies).polls(replies.len()) == Seq::new(
                replies.len(),
                |i: int| Poll::Ready(replies[i]),
            ),
            StreamView::started().deliver_all(replies).after_polls(replies.len())
                == StreamView::<T>::started(),
            StreamView::<T>::started().polled() == Poll::<T>::NotReady,
    {
        let fresh = StreamView::<T>::started();
        fresh.lemma_deliver_all_appends(replies);
        let filled = fresh.deliver_all(replies);
        assert(filled.buffer =~= replies);
        filled.lemma_polls_drain_in_order(replies.len());
        assert(filled.buffer.subrange(replies.len() as int, replies.len() as int)
            =~= Seq::<Result<T, Error>>::empty());
    }

    /// The error of one reply is an item like any other: the stream that
    /// takes it stays open, hands it out in its turn, and takes what comes
    /// after it.
    pub proof fn lemma_error_reply_keeps_stream_open(self, e: Error, later: Result<T, Error>)
        requires
            !self.terminated,
        ensures
            !self.deliver(Err(e)).terminated,
            self.deliver(Err(e)).buffer == self.buffer.push(Err(e)),
            self.deliver(Err(e)).deliver(later).buffer == self.buffer.push(Err(e)).push(later),
            self.buffer.len() == 0 ==> self.deliver(Err(e)).polled() == Poll::Ready(
                Err::<T, Error>(e),
            ),
    {
    }

    /// A cancelled stream takes no reply and hands none out, and cancelling
    /// it again changes nothing.
    pub proof fn lemma_cancelled_stream_is_closed(self, reply: Result<T, Error>, code: i32)
        ensures
            self.cancel().deliver(reply) == self.cancel(),
            self.cancel().polled() == Poll::<T>::Ended,
            self.cancel().after_poll() == self.cancel(),
            self.cancel().dispatched(code) == Poll::<T>::Ended,
            self.cancel().after_dispatch(code) == self.cancel(),
            self.cancel().cancel() == self.cancel(),
    {
    }
}

/// The stream of results of one native operation.
pub struct ServiceStream<T> {
    service: DNSService,
    buffer: VecDeque<Result<T, Error>>,
    failed: bool,
}

impl<T> View for ServiceStream<T> {
    type V = StreamView<T>;

    closed spec fn view(&self) -> StreamView<T> {
        StreamView {
            buffer: self.buffer@,
            terminated: self.failed || self.service@.released,
            released: self.service@.released,
        }
    }
}

impl<T> ServiceStream<T> {
    #[verifier::type_invariant]
    spec fn inv(self) -> bool {
        self@.wf()
    }

    /// The stream of an operation that was started on `service`.
    pub fn new(service: DNSService) -> (s: Self)
        ensures
            s@ == (StreamView::<T> {
                buffer: Seq::empty(),
                terminated: service@.released,
                released: service@.released,
            }),
    {
        ServiceStream { service, buffer: VecDeque::new(), failed: false }
    }

    /// The state of the stream.
    pub fn state(&self) -> (s: StreamState)
        ensures
            s == self@.state(),
    {
        if self.failed || self.service.is_released() {
            StreamState::Terminated
        } else if self.buffer.len() == 0 {
            StreamState::Idle
        } else {
            StreamState::Draining
        }
    }

    /// Delivers one reply to the stream.  Returns whether the stream took
    /// it: a stream at its end takes nothing.
    pub fn deliver(&mut self, reply: Result<T, Error>) -> (taken: bool)
        ensures
            final(self)@ == old(self)@.deliver(reply),
            taken == !old(self)@.terminated,
    {
        if self.failed || self.service.is_released() {
            return false;
        }
        let mut buffer: VecDeque<Result<T, Error>> = VecDeque::new();
        core::mem::swap(&mut self.buffer, &mut buffer);
        buffer.push_back(reply);
        self.buffer = buffer;
        true
    }

    /// Takes the next item off the stream.
    ///
    /// A stream that holds replies hands out the oldest.  An idle stream
    /// gives [`Poll::NotReady`]: it is then for the caller to run the native
    /// dispatch routine once it is due, and to report with
    /// [`ServiceStream::dispatched`].  A stream at its end gives
    /// [`Poll::Ended`].
    pub fn poll(&mut self) -> (item: Poll<T>)
        ensures
            item == old(self)@.polled(),
            final(self)@ == old(self)@.after_poll(),
    {
        if self.failed || self.service.is_released() {
            return Poll::Ended;
        }
        let mut buffer: VecDeque<Result<T, Error>> = VecDeque::new();
        core::mem::swap(&mut self.buffer, &mut buffer);
        let front = buffer.pop_front();
        self.buffer = buffer;
        match front {
            Some(reply) => {
                assert(self.buffer@ =~= old(self).buffer@.drop_first());
                Poll::Ready(reply)
            },
            None => Poll::NotReady,
        }
    }

    /// Reports that the native dispatch routine ran and returned `code`, and
    /// takes the next item off the stream.
    ///
    /// A native error ends the stream: it is handed out as the last item,
    /// and what was buffered is dropped.  After a successful run the stream
    /// is polled as by [`ServiceStream::poll`].
    pub fn dispatched(&mut self, code: i32) -> (item: Poll<T>)
        ensures
            item == old(self)@.dispatched(code),
            final(self)@ == old(self)@.after_dispatch(code),
    {
        if self.failed || self.service.is_released() || code == NO_ERROR {
            return self.poll();
        }
        self.buffer = VecDeque::new();
        self.failed = true;
        Poll::Ready(Err(Error::NativeRejection(code)))
    }

    /// Cancels the operation.  What was buffered is dropped, and the stream
    /// is at its end.  Returns whether the native handle is to be released
    /// now: it is the first time only.
    pub fn cancel(&mut self) -> (release_now: bool)
        ensures
            final(self)@ == old(self)@.cancel(),
            release_now == !old(self)@.released,
    {
        self.buffer = VecDeque::new();
        self.failed = true;
        let mut service = DNSService::released();
        core::mem::swap(&mut self.service, &mut service);
        let release_now = service.release();
        self.service = service;
        release_now
    }
}

} // verus!
