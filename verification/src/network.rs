//! The frame reader: a buffer of received bytes from which whole frames are
//! taken, however the transport cuts them up.

use crate::buffer::{self, held, BUFFER_CAPACITY};
use crate::client::Event;
use crate::decode::{self, clamp, yields, Decode, Decoder, ErrorView, Parsed};
use crate::faithful::Natural;
use crate::header::{Header, HEADER_LEN};
use crate::registry::{Message, MessageView};
use std::collections::VecDeque;
use vstd::prelude::*;

verus! {

/// Why reading from the transport ended the connection.
#[derive(Debug, Eq, PartialEq)]
pub enum ReadError {
    /// The peer closed the connection between two frames.
    ConnectionAborted,
    /// The peer closed the connection inside a frame.
    ConnectionReset,
    /// The bytes received are no frame.
    InvalidData(decode::Error),
}

/// Reading the frame at the start of `stream`: the message and the number of
/// bytes that the frame takes, NUL included.
///
/// A stream shorter than a header wants twenty bytes. A stream shorter than
/// the length that its header announces wants that length. A stream of
/// exactly that length wants one byte more, the NUL.
pub open spec fn parse_frame(stream: Seq<u8>) -> Parsed<(MessageView, usize)> {
    let header = Header::parse(stream, 0);
    if stream.len() < HEADER_LEN {
        Err(
            (
                ErrorView::InsufficientBytes { have: clamp(stream.len() as int), need: HEADER_LEN },
                0,
            ),
        )
    } else if header is Err {
        Err(header->Err_0)
    } else if stream.len() < header->Ok_0.0.length {
        Err(
            (
                ErrorView::InsufficientBytes {
                    have: clamp(stream.len() as int),
                    need: header->Ok_0.0.length as usize,
                },
                header->Ok_0.1,
            ),
        )
    } else if stream.len() == header->Ok_0.0.length {
        Err(
            (
                ErrorView::InsufficientBytes {
                    have: clamp(stream.len() as int),
                    need: (header->Ok_0.0.length + 1) as usize,
                },
                header->Ok_0.1,
            ),
        )
    } else {
        match Message::parse_message(stream, 0) {
            Ok(((_, message), end)) => Ok(((message, end as usize), end)),
            Err(e) => Err(e),
        }
    }
}

/// Whether reading the frame at the start of `stream` asks the host about a
/// time: the frame must be there with its NUL, and its payload must hold a
/// timestamp whose fields parse, after everything before it has parsed.
pub open spec fn asks_frame(stream: Seq<u8>) -> bool {
    &&& stream.len() >= HEADER_LEN
    &&& Header::parse(stream, 0) matches Ok((header, _))
    &&& stream.len() >= header.length + 1
    &&& Message::asks_frame(stream, 0)
}

/// Reads the frame at the start of `stream`, and tells the message and the
/// number of bytes that the frame takes.
pub fn read_message(stream: &[u8]) -> (r: decode::Result<(Message, usize)>)
    ensures
        yields(r, parse_frame(stream@), asks_frame(stream@)),
        r matches Ok((_, taken)) ==> 0 < taken <= stream@.len(),
{
    if stream.len() < HEADER_LEN {
        return Err(decode::Error::InsufficientBytes { have: stream.len(), need: HEADER_LEN });
    }
    let mut peek = Decoder::new(stream);
    let header = Header::decode(&mut peek)?;
    let announced = header.length as usize;
    if stream.len() < announced {
        return Err(decode::Error::InsufficientBytes { have: stream.len(), need: announced });
    }
    if stream.len() == announced {
        // Only the NUL that ends the frame is still to come.
        return Err(decode::Error::InsufficientBytes { have: announced, need: announced + 1 });
    }
    let mut decoder = Decoder::new(stream);
    let (_, message) = Message::decode_message(&mut decoder)?;
    let taken = decoder.pos();
    Ok((message, taken))
}

/// The buffer of bytes that were received and not yet taken as frames.
#[derive(Debug)]
pub struct FrameReader {
    read_buf: bytes::BytesMut,
}

impl View for FrameReader {
    type V = Seq<u8>;

    closed spec fn view(&self) -> Seq<u8> {
        held(self.read_buf)
    }
}

/// The number of bytes that a failed read of a frame still wants: the
/// difference where the failure is a want of bytes, and nothing where it is
/// another failure.
pub open spec fn wanted(error: ErrorView) -> Option<usize> {
    match error {
        ErrorView::InsufficientBytes { have, need } => if need > have {
            Some((need - have) as usize)
        } else {
            None
        },
        _ => None,
    }
}

/// The error that a closed connection ends with: aborted where nothing of a
/// frame was buffered, reset where a part of a frame was.
pub open spec fn closed_as(buffered: Seq<u8>) -> ReadError {
    if buffered.len() == 0 {
        ReadError::ConnectionAborted
    } else {
        ReadError::ConnectionReset
    }
}

impl FrameReader {
    /// A reader with nothing buffered.
    pub fn new() -> (reader: Self)
        ensures
            reader@ == Seq::<u8>::empty(),
    {
        Self { read_buf: buffer::empty_buffer(BUFFER_CAPACITY) }
    }

    /// The number of bytes buffered.
    pub fn buffered(&self) -> (count: usize)
        ensures
            count == self@.len(),
    {
        buffer::contents(&self.read_buf).len()
    }

    /// Takes in what one read from the transport returned. A read of no bytes
    /// means that the peer closed the connection.
    pub fn receive(&mut self, bytes: &[u8]) -> (r: Result<(), ReadError>)
        ensures
            bytes@.len() == 0 ==> r == Err::<(), ReadError>(closed_as(old(self)@)) && final(self)@
                == old(self)@,
            bytes@.len() > 0 ==> r == Ok::<(), ReadError>(()) && final(self)@ == old(self)@
                + bytes@,
    {
        if bytes.len() == 0 {
            return if buffer::contents(&self.read_buf).len() == 0 {
                Err(ReadError::ConnectionAborted)
            } else {
                Err(ReadError::ConnectionReset)
            };
        }
        buffer::extend(&mut self.read_buf, bytes);
        Ok(())
    }

    /// Tries to take the next frame from the buffer.
    ///
    /// Where the buffer begins with a whole frame, the message goes to the
    /// back of `events` as incoming, the frame leaves the buffer, and the
    /// answer is `None`. Where the buffer holds the beginning of a frame, the
    /// answer is the number of bytes that are still wanted. Bytes that are no
    /// frame end the connection.
    pub fn read_next_frame(&mut self, events: &mut VecDeque<Event>) -> (r: Result<
        Option<usize>,
        ReadError,
    >)
        ensures
            match parse_frame(old(self)@) {
                Ok(((message, _), end)) => {
                    ||| {
                        &&& r == Ok::<Option<usize>, ReadError>(None)
                        &&& final(self)@ == old(self)@.skip(end)
                        &&& final(events)@.len() == old(events)@.len() + 1
                        &&& final(events)@.drop_last() == old(events)@
                        &&& final(events)@.last() matches Event::Incoming(m) && m.deep_view()
                            == message
                    }
                    ||| refused(old(self)@, final(self)@, old(events)@, final(events)@, r)
                },
                Err((error, _)) => {
                    ||| {
                        &&& final(self)@ == old(self)@
                        &&& final(events)@ == old(events)@
                        &&& match wanted(error) {
                            Some(more) => r == Ok::<Option<usize>, ReadError>(Some(more)),
                            None => r matches Err(ReadError::InvalidData(e)) && e@ == error,
                        }
                    }
                    ||| refused(old(self)@, final(self)@, old(events)@, final(events)@, r)
                },
            },
    {
        match read_message(buffer::contents(&self.read_buf)) {
            Ok((message, taken)) => {
                events.push_back(Event::Incoming(message));
                buffer::advance(&mut self.read_buf, taken);
                assert(events@.drop_last() =~= old(events)@);
                Ok(None)
            },
            Err(decode::Error::InsufficientBytes { have, need }) => {
                if need > have {
                    Ok(Some(need - have))
                } else {
                    Err(ReadError::InvalidData(decode::Error::InsufficientBytes { have, need }))
                }
            },
            Err(e) => Err(ReadError::InvalidData(e)),
        }
    }
}

/// Whether reading a frame ended because the host knows no single local
/// time for a timestamp in it: nothing changed, and the connection ends on
/// invalid data.
pub open spec fn refused(
    before: Seq<u8>,
    after: Seq<u8>,
    events_before: Seq<Event>,
    events_after: Seq<Event>,
    r: Result<Option<usize>, ReadError>,
) -> bool {
    &&& asks_frame(before)
    &&& after == before
    &&& events_after == events_before
    &&& r matches Err(ReadError::InvalidData(e))
    &&& e@ == ErrorView::InvalidTimestamp
}

/// The frame written for a legal message is read as that message, and the
/// read takes the whole frame, its NUL included. Where the message holds no
/// timestamp, the host is not asked, so that the read cannot be refused.
pub proof fn lemma_frame_is_read(message: Message, overrides: Header, stream: Seq<u8>)
    requires
        message.legal_payload(),
        message.frame(overrides) == Ok::<Seq<u8>, crate::encode::Error>(stream),
        message.frame_header(overrides, message.wire_payload().bytes.len() as int).legal(),
    ensures
        parse_frame(stream) == crate::faithful::parsed(
            (message.deep_view(), stream.len() as usize),
            stream.len() as int,
        ),
        !Message::zoned(message.ident().0, message.ident().1) ==> !asks_frame(stream),
{
    assert(crate::faithful::holds(stream, 0, stream)) by {
        reveal(crate::faithful::holds);
        assert(stream.subrange(0, stream.len() as int) =~= stream);
    }
    message.lemma_frame_read_back(overrides, stream, 0);
    Message::lemma_frame_shape(stream, 0);
}

} // verus!
