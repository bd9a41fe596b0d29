//! The event loop as a state machine: what the loop holds between two polls,
//! and what it does when a request, received bytes or the keep-alive timer
//! wake it.
//!
//! The loop itself waits for the first of three sources: the queue of
//! requests, the transport, and a timer of five seconds. This module decides
//! what follows from each. Whoever runs the loop performs the reads, writes
//! and waits.

use crate::buffer::{self, held, BUFFER_CAPACITY};
use crate::decode;
use crate::encode;
use crate::header::Header;
use crate::messages::keep_alive::MID9999rev1;
use crate::network::{asks_frame, parse_frame, refused, wanted, FrameReader, ReadError};
use crate::registry::Message;
use std::collections::VecDeque;
use vstd::prelude::*;

verus! {

/// The seconds of silence after which a keep-alive is sent.
pub const KEEP_ALIVE_SECS: u64 = 5;

/// The number of requests that may wait to be picked up by the loop.
pub const REQUEST_CAPACITY: usize = 1000;

/// What the loop reports: a message that came in, or one that went out.
#[derive(Debug, Eq, PartialEq)]
pub enum Event {
    Incoming(Message),
    Outgoing(Message),
}

/// Why the loop ends.
#[derive(Debug, Eq, PartialEq)]
pub enum ConnectionError {
    /// The channel of requests is closed.
    RequestsDone,
    /// A message could not be decoded.
    DecodeError(decode::Error),
    /// A message could not be encoded.
    EncodeError(encode::Error),
    /// The transport failed.
    IoError(ReadError),
}

/// What woke the loop.
#[derive(Debug)]
pub enum Wake {
    /// A request is to be sent.
    Request(Message),
    /// The channel of requests is closed.
    RequestsDone,
    /// The buffer of received bytes is to be looked at.
    Inbound,
    /// A read from the transport returned these bytes; none means that the
    /// peer closed the connection.
    Received(Vec<u8>),
    /// The keep-alive timer fired.
    KeepAlive,
}

/// What the loop does next.
#[derive(Debug)]
pub enum Step {
    /// Write `flush` to the transport, then return `event` from the poll.
    Yield { flush: Vec<u8>, event: Event },
    /// Read from the transport; `wanted` more bytes complete the frame that
    /// is being received.
    Read { wanted: usize },
    /// End the loop with this error.
    Fail(ConnectionError),
}

/// The state of the loop between two polls.
#[derive(Debug)]
pub struct LoopState {
    pending: VecDeque<Message>,
    events: VecDeque<Event>,
    write_buf: bytes::BytesMut,
    reader: FrameReader,
}

/// The header fields that the loop sets: none. The length, the message id
/// and the revision of a frame come from the message.
pub open spec fn loop_overrides() -> Header {
    Header {
        length: 0,
        mid: 0,
        revision: None,
        no_ack_flag: None,
        station_id: None,
        spindle_id: None,
        sequence_number: None,
        message_parts: None,
        message_part_number: None,
    }
}

impl LoopState {
    /// The requests that wait to be sent, the oldest first.
    pub closed spec fn pending(&self) -> Seq<Message> {
        self.pending@
    }

    /// The events that wait to be returned, the oldest first.
    pub closed spec fn events(&self) -> Seq<Event> {
        self.events@
    }

    /// The bytes that wait to be written to the transport.
    pub closed spec fn outbound(&self) -> Seq<u8> {
        held(self.write_buf)
    }

    /// The bytes that were received and are not yet taken as frames.
    pub closed spec fn inbound(&self) -> Seq<u8> {
        self.reader@
    }

    /// The state of a loop that has done nothing yet.
    pub fn new() -> (state: Self)
        ensures
            state.pending() == Seq::<Message>::empty(),
            state.events() == Seq::<Event>::empty(),
            state.outbound() == Seq::<u8>::empty(),
            state.inbound() == Seq::<u8>::empty(),
    {
        Self {
            pending: VecDeque::new(),
            events: VecDeque::new(),
            write_buf: buffer::empty_buffer(BUFFER_CAPACITY),
            reader: FrameReader::new(),
        }
    }

    /// Puts a request behind those that wait to be sent.
    pub fn enqueue(&mut self, request: Message)
        ensures
            final(self).pending() == old(self).pending().push(request),
            final(self).events() == old(self).events(),
            final(self).outbound() == old(self).outbound(),
            final(self).inbound() == old(self).inbound(),
    {
        self.pending.push_back(request);
    }

    /// Takes the oldest request that waits to be sent, if there is one.
    pub fn next_request(&mut self) -> (request: Option<Message>)
        ensures
            old(self).pending().len() == 0 ==> request is None && final(self).pending()
                == old(self).pending(),
            old(self).pending().len() > 0 ==> request == Some(old(self).pending()[0])
                && final(self).pending() == old(self).pending().drop_first(),
            final(self).events() == old(self).events(),
            final(self).outbound() == old(self).outbound(),
            final(self).inbound() == old(self).inbound(),
    {
        let request = self.pending.pop_front();
        proof {
            if old(self).pending().len() > 0 {
                assert(self.pending@ =~= old(self).pending().drop_first());
            }
        }
        request
    }

    /// Takes the oldest event that waits to be returned, if there is one.
    /// A poll begins with this, and returns the event where there is one.
    pub fn next_event(&mut self) -> (event: Option<Event>)
        ensures
            old(self).events().len() == 0 ==> event is None && final(self).events()
                == old(self).events(),
            old(self).events().len() > 0 ==> event == Some(old(self).events()[0])
                && final(self).events() == old(self).events().drop_first(),
            final(self).pending() == old(self).pending(),
            final(self).outbound() == old(self).outbound(),
            final(self).inbound() == old(self).inbound(),
    {
        let event = self.events.pop_front();
        proof {
            if old(self).events().len() > 0 {
                assert(self.events@ =~= old(self).events().drop_first());
            }
        }
        event
    }

    /// Encodes a request as a frame behind the bytes that wait to be written,
    /// and puts the request behind the events as outgoing. A request that
    /// cannot be encoded changes nothing.
    pub fn handle_outgoing_packet(&mut self, request: Message) -> (r: Result<(), ConnectionError>)
        ensures
            final(self).pending() == old(self).pending(),
            final(self).inbound() == old(self).inbound(),
            match request.frame(loop_overrides()) {
                Ok(frame) => {
                    &&& r == Ok::<(), ConnectionError>(())
                    &&& final(self).outbound() == old(self).outbound() + frame
                    &&& final(self).events() == old(self).events().push(Event::Outgoing(request))
                },
                Err(e) => {
                    &&& r == Err::<(), ConnectionError>(ConnectionError::EncodeError(e))
                    &&& final(self).outbound() == old(self).outbound()
                    &&& final(self).events() == old(self).events()
                },
            },
    {
        let overrides = Header {
            length: 0,
            mid: 0,
            revision: None,
            no_ack_flag: None,
            station_id: None,
            spindle_id: None,
            sequence_number: None,
            message_parts: None,
            message_part_number: None,
        };
        let frame = match request.encode_message(&overrides) {
            Ok(frame) => frame,
            Err(e) => {
                return Err(ConnectionError::EncodeError(e));
            },
        };
        buffer::extend(&mut self.write_buf, frame.as_slice());
        self.events.push_back(Event::Outgoing(request));
        Ok(())
    }

    /// Takes the bytes that wait to be written to the transport.
    pub fn flush(&mut self) -> (bytes: Vec<u8>)
        ensures
            bytes@ == old(self).outbound(),
            final(self).outbound() == Seq::<u8>::empty(),
            final(self).pending() == old(self).pending(),
            final(self).events() == old(self).events(),
            final(self).inbound() == old(self).inbound(),
    {
        let bytes = vstd::slice::slice_to_vec(buffer::contents(&self.write_buf));
        buffer::clear(&mut self.write_buf);
        bytes
    }

    /// Whether `step` and the state `after` are what sending `request` from
    /// the state `before` comes to: the frame of the request is flushed with
    /// what waited to be written, the request joins the events as outgoing,
    /// and the oldest event is yielded. A request that cannot be encoded fails
    /// the loop and changes nothing.
    pub open spec fn sent(
        before: LoopState,
        after: LoopState,
        request: Message,
        step: Step,
    ) -> bool {
        &&& after.pending() == before.pending()
        &&& after.inbound() == before.inbound()
        &&& match request.frame(loop_overrides()) {
            Ok(frame) => {
                &&& step matches Step::Yield { flush, event }
                &&& flush@ == before.outbound() + frame
                &&& event == before.events().push(Event::Outgoing(request))[0]
                &&& after.events() == before.events().push(Event::Outgoing(request)).drop_first()
                &&& after.outbound() == Seq::<u8>::empty()
            },
            Err(e) => {
                &&& step matches Step::Fail(ConnectionError::EncodeError(error))
                &&& error == e
                &&& after.outbound() == before.outbound()
                &&& after.events() == before.events()
            },
        }
    }

    /// Whether a look for a frame ended because the host knows no single
    /// local time for a timestamp in it: the loop fails on invalid data, and
    /// nothing changed.
    pub open spec fn look_refused(
        inbound: Seq<u8>,
        events: Seq<Event>,
        outbound: Seq<u8>,
        after: LoopState,
        step: Step,
    ) -> bool {
        &&& asks_frame(inbound)
        &&& after.inbound() == inbound
        &&& after.events() == events
        &&& after.outbound() == outbound
        &&& step matches Step::Fail(ConnectionError::IoError(ReadError::InvalidData(e)))
        &&& e@ == decode::ErrorView::InvalidTimestamp
    }

    /// Whether `step` and the state `after` are what looking for a frame
    /// comes to, where `inbound` was received, `events` waited to be returned
    /// and `outbound` waited to be written.
    ///
    /// A whole frame leaves the received bytes, its message joins the events
    /// as incoming, what waited to be written is flushed, and the oldest
    /// event is yielded. The beginning of a frame asks for the bytes that are
    /// still wanted. Bytes that are no frame fail the loop.
    pub open spec fn looked(
        inbound: Seq<u8>,
        events: Seq<Event>,
        outbound: Seq<u8>,
        after: LoopState,
        step: Step,
    ) -> bool {
        ||| Self::look_refused(inbound, events, outbound, after, step)
        ||| match parse_frame(inbound) {
            Ok(((message, _), end)) => {
                &&& step matches Step::Yield { flush, event }
                &&& flush@ == outbound
                &&& after.outbound() == Seq::<u8>::empty()
                &&& after.inbound() == inbound.skip(end)
                &&& after.events().len() == events.len()
                &&& events.len() == 0 ==> (event matches Event::Incoming(m) && m.deep_view()
                    == message)
                &&& events.len() > 0 ==> {
                    &&& event == events[0]
                    &&& after.events().drop_last() == events.drop_first()
                    &&& after.events().last() matches Event::Incoming(m)
                    &&& m.deep_view() == message
                }
            },
            Err((error, _)) => {
                &&& after.inbound() == inbound
                &&& after.events() == events
                &&& after.outbound() == outbound
                &&& match wanted(error) {
                    Some(more) => step matches Step::Read { wanted } && wanted == more,
                    None => step matches Step::Fail(
                        ConnectionError::IoError(ReadError::InvalidData(e)),
                    ) && e@ == error,
                }
            },
        }
    }

    /// Sends a message: encodes it, takes what is to be written, and takes
    /// the oldest event.
    fn send(&mut self, request: Message) -> (step: Step)
        ensures
            Self::sent(*old(self), *final(self), request, step),
    {
        match self.handle_outgoing_packet(request) {
            Err(e) => Step::Fail(e),
            Ok(()) => {
                let flush = self.flush();
                match self.next_event() {
                    Some(event) => Step::Yield { flush, event },
                    None => Step::Fail(ConnectionError::RequestsDone),
                }
            },
        }
    }

    /// Looks for a frame in the received bytes: yields the oldest event where
    /// one is there, and asks for more bytes where it is not.
    fn look(&mut self) -> (step: Step)
        ensures
            final(self).pending() == old(self).pending(),
            Self::looked(
                old(self).inbound(),
                old(self).events(),
                old(self).outbound(),
                *final(self),
                step,
            ),
    {
        match self.reader.read_next_frame(&mut self.events) {
            Err(e) => Step::Fail(ConnectionError::IoError(e)),
            Ok(Some(wanted)) => Step::Read { wanted },
            Ok(None) => {
                let flush = self.flush();
                match self.next_event() {
                    Some(event) => {
                        proof {
                            if old(self).events().len() > 0 {
                                let rest = old(self).events().drop_first();
                                assert(self.events@.drop_last() =~= rest);
                            }
                        }
                        Step::Yield { flush, event }
                    },
                    None => Step::Fail(ConnectionError::RequestsDone),
                }
            },
        }
    }

    /// Whether `step` and the state `after` are what follows from `wake` in
    /// the state `before`.
    ///
    /// A request, and the keep-alive timer, send a message: the request, or
    /// the keep-alive message. The closing of the channel ends the loop.
    /// Received bytes go to the buffer, in which a frame is then looked for.
    /// A read of no bytes means that the peer closed the connection, and
    /// ends the loop: as aborted where nothing was buffered, as reset where
    /// something was.
    pub open spec fn follows(before: LoopState, after: LoopState, wake: Wake, step: Step) -> bool {
        &&& after.pending() == before.pending()
        &&& match wake {
            Wake::Request(request) => Self::sent(before, after, request, step),
            Wake::KeepAlive => Self::sent(
                before,
                after,
                Message::MID9999rev1(MID9999rev1 {  }),
                step,
            ),
            Wake::RequestsDone => {
                &&& step matches Step::Fail(ConnectionError::RequestsDone)
                &&& after.events() == before.events()
                &&& after.outbound() == before.outbound()
                &&& after.inbound() == before.inbound()
            },
            Wake::Inbound => Self::looked(
                before.inbound(),
                before.events(),
                before.outbound(),
                after,
                step,
            ),
            Wake::Received(bytes) => if bytes@.len() == 0 {
                &&& step matches Step::Fail(ConnectionError::IoError(e))
                &&& e == crate::network::closed_as(before.inbound())
                &&& after.events() == before.events()
                &&& after.outbound() == before.outbound()
                &&& after.inbound() == before.inbound()
            } else {
                Self::looked(
                    before.inbound() + bytes@,
                    before.events(),
                    before.outbound(),
                    after,
                    step,
                )
            },
        }
    }

    /// A request that is sent while no event waits is reported at once, as
    /// outgoing, with its frame among the bytes to write: before anything that
    /// comes in afterwards.
    pub proof fn lemma_request_reported_first(
        before: LoopState,
        after: LoopState,
        request: Message,
        step: Step,
    )
        requires
            Self::follows(before, after, Wake::Request(request), step),
            before.events().len() == 0,
            request.frame(loop_overrides()) is Ok,
        ensures
            step matches Step::Yield { flush, event } && event == Event::Outgoing(request) && flush@
                == before.outbound() + request.frame(loop_overrides())->Ok_0,
            after.events().len() == 0,
            after.outbound().len() == 0,
    {
    }

    /// Whatever wakes the loop, a step that yields an event leaves nothing
    /// that waits to be written, and a step that fails or asks for bytes
    /// leaves the events as they were.
    pub proof fn lemma_step_flushes(before: LoopState, after: LoopState, wake: Wake, step: Step)
        requires
            Self::follows(before, after, wake, step),
        ensures
            step is Yield ==> after.outbound().len() == 0,
            !(step is Yield) ==> after.events() == before.events(),
    {
    }

    /// Decides what follows from what woke the loop.
    pub fn step(&mut self, wake: Wake) -> (step: Step)
        ensures
            Self::follows(*old(self), *final(self), wake, step),
    {
        match wake {
            Wake::Request(request) => self.send(request),
            Wake::KeepAlive => self.send(Message::MID9999rev1(MID9999rev1 {  })),
            Wake::RequestsDone => Step::Fail(ConnectionError::RequestsDone),
            Wake::Inbound => self.look(),
            Wake::Received(bytes) => {
                match self.reader.receive(bytes.as_slice()) {
                    Err(e) => Step::Fail(ConnectionError::IoError(e)),
                    Ok(()) => self.look(),
                }
            },
        }
    }
}

} // verus!
