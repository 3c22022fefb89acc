//! The transport handler: one logical socket connection, modelled as a
//! state machine. It owns the connection status, a bounded FIFO outbound
//! queue feeding the writer, and the reader's termination discipline.
//!
//! The real socket, and the reader and writer execution contexts, live in
//! the application shell: it dials, feeds every inbound frame through
//! [`WebSocketHandler::reader_step`], and drains the outbound queue with
//! [`WebSocketHandler::writer_take`]. Every decision those loops make is
//! verified here.
//!
//! Backpressure contract: `send` on a full queue rejects the frame with a
//! connection error rather than blocking; the queue never grows past its
//! capacity.

use vstd::prelude::*;

use crate::Event;
use crate::error::WhatsAppError;

verus! {

/// Transport-level frame types.
#[derive(Debug)]
pub enum WebSocketMessage {
    Text(String),
    Binary(Vec<u8>),
    Ping,
    Pong,
    Close,
}

/// What the reader loop receives in one step: a decoded frame, or a
/// decode or socket error.
#[derive(Debug)]
pub enum ReaderInput {
    Frame(WebSocketMessage),
    ReadError,
}

/// What one reader step decided: hand a data frame outward for
/// protocol-level decoding, note an automatic pong reply, ignore the
/// frame, or terminate the loop.
#[derive(Debug)]
pub enum ReaderOutcome {
    Deliver(WebSocketMessage),
    PongQueued,
    Ignored,
    Terminated,
}

/// The default bound of the outbound queue.
pub const OUTBOUND_QUEUE_CAPACITY: usize = 100;

/// The connection handler.
pub struct WebSocketHandler {
    /// The endpoint this handler dials.
    pub url: String,
    /// The connection status: true between a successful connect and the
    /// first of disconnect or reader termination.
    pub connected: bool,
    /// Whether the reader loop is running; its termination fires the
    /// `Disconnected` event exactly once.
    pub reader_active: bool,
    /// Whether the outbound queue still accepts frames from senders.
    pub queue_open: bool,
    /// The frames awaiting transmission, oldest first.
    pub queue: Vec<WebSocketMessage>,
    /// The bound of the outbound queue.
    pub capacity: usize,
    /// Events produced by transitions, not yet dispatched to observers.
    pub pending_events: Vec<Event>,
}

impl WebSocketHandler {
    /// Well-formedness: the bound is positive, a running reader implies a
    /// live connection, a live connection implies an open queue, and the
    /// queue never exceeds its bound.
    pub open spec fn wf(&self) -> bool {
        &&& self.capacity >= 1
        &&& (self.reader_active ==> self.connected)
        &&& (self.connected ==> self.queue_open)
        &&& self.queue@.len() <= self.capacity
    }

    /// A new handler for `url` with the given outbound bound: not
    /// connected, no reader, queue closed and empty, no pending events.
    pub fn with_capacity(url: &str, capacity: usize) -> (r: Self)
        requires
            capacity >= 1,
        ensures
            r.wf(),
            r.url@ == url@,
            !r.connected,
            !r.reader_active,
            !r.queue_open,
            r.queue@.len() == 0,
            r.capacity == capacity,
            r.pending_events@.len() == 0,
    {
        WebSocketHandler {
            url: url.to_owned(),
            connected: false,
            reader_active: false,
            queue_open: false,
            queue: Vec::new(),
            capacity,
            pending_events: Vec::new(),
        }
    }

    /// A new handler for `url` with the default outbound bound.
    pub fn new(url: &str) -> (r: Self)
        ensures
            r.wf(),
            r.url@ == url@,
            !r.connected,
            !r.reader_active,
            !r.queue_open,
            r.queue@.len() == 0,
            r.capacity == OUTBOUND_QUEUE_CAPACITY,
            r.pending_events@.len() == 0,
    {
        Self::with_capacity(url, OUTBOUND_QUEUE_CAPACITY)
    }

    /// Record the outcome of dialing the endpoint. On success the handler
    /// is connected, the reader runs, the queue is fresh and open, and a
    /// `Connected` event is pending. On failure the error is returned to
    /// the caller and a `Disconnected` event is pending — never a
    /// `Connected` one — so observers stay consistent.
    pub fn connect(&mut self, dial_ok: bool) -> (r: Result<(), WhatsAppError>)
        requires
            old(self).wf(),
        ensures
            final(self).wf(),
            final(self).url@ == old(self).url@,
            final(self).capacity == old(self).capacity,
            dial_ok ==> {
                &&& r is Ok
                &&& final(self).connected
                &&& final(self).reader_active
                &&& final(self).queue_open
                &&& final(self).queue@.len() == 0
                &&& final(self).pending_events@ == old(self).pending_events@.push(
                    Event::Connected,
                )
            },
            !dial_ok ==> {
                &&& (r matches Err(e) && e is ConnectionError)
                &&& !final(self).connected
                &&& !final(self).reader_active
                &&& !final(self).queue_open
                &&& final(self).queue@.len() == 0
                &&& final(self).pending_events@ == old(self).pending_events@.push(
                    Event::Disconnected,
                )
            },
    {
        if dial_ok {
            self.connected = true;
            self.reader_active = true;
            self.queue_open = true;
            self.queue = Vec::new();
            self.pending_events.push(Event::Connected);
            Ok(())
        } else {
            self.connected = false;
            self.reader_active = false;
            self.queue_open = false;
            self.queue = Vec::new();
            self.pending_events.push(Event::Disconnected);
            Err(
                WhatsAppError::ConnectionError(
                    "Failed to establish websocket connection".to_owned(),
                ),
            )
        }
    }

    /// Enqueue a frame for the writer. Fails with a connection error when
    /// no queue is open (never connected or already disconnected), and —
    /// the backpressure contract — when the queue is full; the frame is
    /// appended at the back otherwise, so frames leave in `send` order.
    pub fn send(&mut self, message: WebSocketMessage) -> (r: Result<(), WhatsAppError>)
        requires
            old(self).wf(),
        ensures
            final(self).wf(),
            final(self).url@ == old(self).url@,
            final(self).capacity == old(self).capacity,
            final(self).connected == old(self).connected,
            final(self).reader_active == old(self).reader_active,
            final(self).queue_open == old(self).queue_open,
            final(self).pending_events@ == old(self).pending_events@,
            !old(self).queue_open ==> ((r matches Err(e) && e is ConnectionError)
                && final(self).queue@ == old(self).queue@),
            old(self).queue_open && old(self).queue@.len() >= old(self).capacity ==> ((
            r matches Err(e) && e is ConnectionError) && final(self).queue@ == old(self).queue@),
            old(self).queue_open && old(self).queue@.len() < old(self).capacity ==> (r is Ok
                && final(self).queue@ == old(self).queue@.push(message)),
    {
        if !self.queue_open {
            return Err(WhatsAppError::ConnectionError("Not connected".to_owned()));
        }
        if self.queue.len() >= self.capacity {
            return Err(WhatsAppError::ConnectionError("Outbound queue full".to_owned()));
        }
        self.queue.push(message);
        Ok(())
    }

    /// Non-blocking snapshot of the connection status.
    pub fn is_connected(&self) -> (r: bool)
        ensures
            r == self.connected,
    {
        self.connected
    }

    /// Disconnect: enqueue a Close frame, close the queue to senders, stop
    /// the reader, and clear the connection status. A handler whose queue
    /// is already closed reports "not connected"; a full queue rejects the
    /// Close frame and leaves the handler as it was.
    pub fn disconnect(&mut self) -> (r: Result<(), WhatsAppError>)
        requires
            old(self).wf(),
        ensures
            final(self).wf(),
            final(self).url@ == old(self).url@,
            final(self).capacity == old(self).capacity,
            final(self).pending_events@ == old(self).pending_events@,
            !old(self).queue_open ==> ((r matches Err(e) && e is ConnectionError)
                && *final(self) == *old(self)),
            old(self).queue_open && old(self).queue@.len() >= old(self).capacity ==> ((
            r matches Err(e) && e is ConnectionError) && *final(self) == *old(self)),
            old(self).queue_open && old(self).queue@.len() < old(self).capacity ==> {
                &&& r is Ok
                &&& final(self).queue@ == old(self).queue@.push(WebSocketMessage::Close)
                &&& !final(self).queue_open
                &&& !final(self).connected
                &&& !final(self).reader_active
            },
    {
        if !self.queue_open {
            return Err(WhatsAppError::ConnectionError("Not connected".to_owned()));
        }
        if self.queue.len() >= self.capacity {
            return Err(WhatsAppError::ConnectionError("Outbound queue full".to_owned()));
        }
        self.queue.push(WebSocketMessage::Close);
        self.queue_open = false;
        self.connected = false;
        self.reader_active = false;
        Ok(())
    }

    /// One step of the reader loop, given the next inbound item. Text and
    /// binary frames are handed outward for protocol-level decoding; a
    /// ping queues an automatic pong reply (terminating, as a write
    /// failure would, if the queue is full); a pong is ignored; a close
    /// frame or a read error terminates the loop. Termination clears the
    /// connection status and queues the `Disconnected` event exactly once:
    /// the reader must be active, and never is afterwards.
    pub fn reader_step(&mut self, input: ReaderInput) -> (r: ReaderOutcome)
        requires
            old(self).wf(),
            old(self).reader_active,
        ensures
            final(self).wf(),
            final(self).url@ == old(self).url@,
            final(self).capacity == old(self).capacity,
            (input matches ReaderInput::Frame(f) && (f is Text || f is Binary)) ==> (*final(self)
                == *old(self) && (input matches ReaderInput::Frame(f) && r
                == ReaderOutcome::Deliver(f))),
            (input matches ReaderInput::Frame(f) && f is Pong) ==> (*final(self) == *old(self) && r
                == ReaderOutcome::Ignored),
            (input matches ReaderInput::Frame(f) && f is Ping
                && old(self).queue@.len() < old(self).capacity) ==> {
                &&& r == ReaderOutcome::PongQueued
                &&& final(self).queue@ == old(self).queue@.push(WebSocketMessage::Pong)
                &&& final(self).connected == old(self).connected
                &&& final(self).reader_active
                &&& final(self).queue_open == old(self).queue_open
                &&& final(self).pending_events@ == old(self).pending_events@
            },
            ((input matches ReaderInput::Frame(f) && f is Ping
                && old(self).queue@.len() >= old(self).capacity) || (
            input matches ReaderInput::Frame(f) && f is Close) || input is ReadError) ==> {
                &&& r == ReaderOutcome::Terminated
                &&& !final(self).connected
                &&& !final(self).reader_active
                &&& !final(self).queue_open
                &&& final(self).queue@ == old(self).queue@
                &&& final(self).pending_events@ == old(self).pending_events@.push(
                    Event::Disconnected,
                )
            },
    {
        match input {
            ReaderInput::Frame(f) => {
                match f {
                    WebSocketMessage::Text(_) | WebSocketMessage::Binary(_) => {
                        ReaderOutcome::Deliver(f)
                    },
                    WebSocketMessage::Pong => ReaderOutcome::Ignored,
                    WebSocketMessage::Ping => {
                        if self.queue.len() < self.capacity {
                            self.queue.push(WebSocketMessage::Pong);
                            ReaderOutcome::PongQueued
                        } else {
                            self.terminate_reader();
                            ReaderOutcome::Terminated
                        }
                    },
                    WebSocketMessage::Close => {
                        self.terminate_reader();
                        ReaderOutcome::Terminated
                    },
                }
            },
            ReaderInput::ReadError => {
                self.terminate_reader();
                ReaderOutcome::Terminated
            },
        }
    }

    /// Reader-loop termination: clear the status and queue the
    /// `Disconnected` event.
    fn terminate_reader(&mut self)
        requires
            old(self).wf(),
        ensures
            final(self).wf(),
            final(self).url@ == old(self).url@,
            final(self).capacity == old(self).capacity,
            final(self).queue@ == old(self).queue@,
            !final(self).connected,
            !final(self).reader_active,
            !final(self).queue_open,
            final(self).pending_events@ == old(self).pending_events@.push(Event::Disconnected),
    {
        self.connected = false;
        self.reader_active = false;
        self.queue_open = false;
        self.pending_events.push(Event::Disconnected);
    }

    /// The frame one writer step takes: the oldest queued frame, if any.
    pub open spec fn spec_taken_frame(q: Seq<WebSocketMessage>) -> Option<WebSocketMessage> {
        if q.len() == 0 {
            None
        } else {
            Some(q[0])
        }
    }

    /// The queue after one writer step.
    pub open spec fn spec_after_take(q: Seq<WebSocketMessage>) -> Seq<WebSocketMessage> {
        if q.len() == 0 {
            q
        } else {
            q.drop_first()
        }
    }

    /// One step of the writer loop: take the oldest queued frame. The
    /// writer observes frames exactly in the order `send` appended them.
    pub fn writer_take(&mut self) -> (r: Option<WebSocketMessage>)
        requires
            old(self).wf(),
        ensures
            final(self).wf(),
            final(self).url@ == old(self).url@,
            final(self).capacity == old(self).capacity,
            final(self).connected == old(self).connected,
            final(self).reader_active == old(self).reader_active,
            final(self).queue_open == old(self).queue_open,
            final(self).pending_events@ == old(self).pending_events@,
            r == Self::spec_taken_frame(old(self).queue@),
            final(self).queue@ == Self::spec_after_take(old(self).queue@),
    {
        if self.queue.len() == 0 {
            None
        } else {
            let f = self.queue.remove(0);
            assert(self.queue@ =~= Self::spec_after_take(old(self).queue@));
            Some(f)
        }
    }

    /// Move the pending events out for dispatch to observers.
    pub fn take_pending_events(&mut self) -> (r: Vec<Event>)
        requires
            old(self).wf(),
        ensures
            final(self).wf(),
            final(self).url@ == old(self).url@,
            final(self).capacity == old(self).capacity,
            final(self).connected == old(self).connected,
            final(self).reader_active == old(self).reader_active,
            final(self).queue_open == old(self).queue_open,
            final(self).queue@ == old(self).queue@,
            r@ == old(self).pending_events@,
            final(self).pending_events@.len() == 0,
    {
        let mut out: Vec<Event> = Vec::new();
        core::mem::swap(&mut out, &mut self.pending_events);
        out
    }
}

/// The frames taken by `n` successive writer steps, in the order taken.
pub open spec fn spec_frames_taken(q: Seq<WebSocketMessage>, n: nat) -> Seq<WebSocketMessage>
    decreases n,
{
    if n == 0 {
        Seq::empty()
    } else {
        match WebSocketHandler::spec_taken_frame(q) {
            None => Seq::empty(),
            Some(f) => seq![f] + spec_frames_taken(
                WebSocketHandler::spec_after_take(q),
                (n - 1) as nat,
            ),
        }
    }
}

/// Law: FIFO delivery. For any queue contents — and `send` only ever
/// appends at the back — `n` successive writer steps take exactly the
/// first `n` frames, oldest first, in the relative order they were
/// enqueued.
pub proof fn lemma_writer_observes_fifo(q: Seq<WebSocketMessage>, n: nat)
    requires
        n <= q.len(),
    ensures
        spec_frames_taken(q, n) == q.take(n as int),
    decreases n,
{
    if n == 0 {
        assert(spec_frames_taken(q, 0) =~= q.take(0));
    } else {
        lemma_writer_observes_fifo(q.drop_first(), (n - 1) as nat);
        assert(spec_frames_taken(q, n) =~= q.take(n as int));
    }
}

} // verus!
