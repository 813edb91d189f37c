//! The inbound demultiplexer: turns transport frames into an ordered stream of
//! JSON payloads, one at a time, buffering the rest of a multi-message frame
//! in the residual queue.

use vstd::prelude::*;

use crate::json::{lemma_model_of_seq, model_of, model_of_seq, JsonValue, SpecJson};
use crate::wire::{json_doc_of, parse_json_text};

verus! {

broadcast use {vstd::std_specs::vec::group_vec_axioms, vstd::seq::group_seq_axioms};

/// One discrete unit of transport transmission.
#[derive(Debug)]
pub enum Frame {
    Text(String),
    Binary(Vec<u8>),
    Ping(Vec<u8>),
    Pong(Vec<u8>),
    Close,
    /// Any other transmission unit the transport may surface.
    Raw,
}

/// A frame's kind, as named in errors.
#[derive(Debug, Clone, Copy, PartialEq, Eq, Structural)]
pub enum FrameKind {
    Text,
    Binary,
    Ping,
    Pong,
    Close,
    Raw,
}

impl FrameKind {
    pub open spec fn spec_name(self) -> Seq<char> {
        match self {
            FrameKind::Text => "text"@,
            FrameKind::Binary => "binary"@,
            FrameKind::Ping => "ping"@,
            FrameKind::Pong => "pong"@,
            FrameKind::Close => "close"@,
            FrameKind::Raw => "frame"@,
        }
    }

    /// The kind's name, as an error message shows it.
    pub fn name(&self) -> (r: &'static str)
        ensures
            r@ == self.spec_name(),
    {
        match self {
            FrameKind::Text => "text",
            FrameKind::Binary => "binary",
            FrameKind::Ping => "ping",
            FrameKind::Pong => "pong",
            FrameKind::Close => "close",
            FrameKind::Raw => "frame",
        }
    }
}

/// What the transport hands the demultiplexer on one receive.
#[derive(Debug)]
pub enum TransportEvent {
    Frame(Frame),
    /// The transport failed; the text describes the failure.
    Failed(String),
    /// The transport's stream ended without a close frame.
    Closed,
}

/// The model of a transport event.
#[verifier::ext_equal]
pub enum SpecTransportEvent {
    Text(Seq<char>),
    Binary,
    Ping,
    Pong,
    Close,
    Raw,
    Failed(Seq<char>),
    Closed,
}

impl View for TransportEvent {
    type V = SpecTransportEvent;

    open spec fn view(&self) -> SpecTransportEvent {
        match self {
            TransportEvent::Frame(Frame::Text(t)) => SpecTransportEvent::Text(t@),
            TransportEvent::Frame(Frame::Binary(_)) => SpecTransportEvent::Binary,
            TransportEvent::Frame(Frame::Ping(_)) => SpecTransportEvent::Ping,
            TransportEvent::Frame(Frame::Pong(_)) => SpecTransportEvent::Pong,
            TransportEvent::Frame(Frame::Close) => SpecTransportEvent::Close,
            TransportEvent::Frame(Frame::Raw) => SpecTransportEvent::Raw,
            TransportEvent::Failed(e) => SpecTransportEvent::Failed(e@),
            TransportEvent::Closed => SpecTransportEvent::Closed,
        }
    }
}

/// Why a frame failed to parse.
#[derive(Debug, Clone, Copy, PartialEq, Eq, Structural)]
pub enum ParseFault {
    /// The frame's text is not one valid JSON document.
    InvalidJson,
    /// The document's root is not an array.
    NotAnArray,
    /// A payload's shape matches no message of the expected family.
    MessageShape,
}

/// A failure of the inbound stream.
#[derive(Debug)]
pub enum MessageStreamError {
    ParseError(ParseFault),
    /// The underlying transport failed; the text describes the failure.
    WebsocketError(String),
    /// A frame arrived that carries no message, naming its kind.
    UnexpectedMessageType(FrameKind),
}

#[verifier::ext_equal]
pub enum SpecStreamError {
    ParseError(ParseFault),
    WebsocketError(Seq<char>),
    UnexpectedMessageType(FrameKind),
}

impl View for MessageStreamError {
    type V = SpecStreamError;

    open spec fn view(&self) -> SpecStreamError {
        match self {
            MessageStreamError::ParseError(f) => SpecStreamError::ParseError(*f),
            MessageStreamError::WebsocketError(e) => SpecStreamError::WebsocketError(e@),
            MessageStreamError::UnexpectedMessageType(k) => SpecStreamError::UnexpectedMessageType(
                *k,
            ),
        }
    }
}

/// What one feeding of a transport event produces.
#[derive(Debug)]
pub enum FeedResult {
    /// One payload, or one stream error, is ready.
    Yielded(Result<JsonValue, MessageStreamError>),
    /// Nothing came of this event; await the next one.
    Pending,
    /// The stream is over; no further event will produce anything.
    End,
}

#[verifier::ext_equal]
pub enum SpecFeedResult {
    Yielded(Result<SpecJson, SpecStreamError>),
    Pending,
    End,
}

impl View for FeedResult {
    type V = SpecFeedResult;

    open spec fn view(&self) -> SpecFeedResult {
        match self {
            FeedResult::Yielded(Ok(v)) => SpecFeedResult::Yielded(Ok(v@)),
            FeedResult::Yielded(Err(e)) => SpecFeedResult::Yielded(Err(e@)),
            FeedResult::Pending => SpecFeedResult::Pending,
            FeedResult::End => SpecFeedResult::End,
        }
    }
}

/// What feeding one event does to the residual queue, and what it produces:
/// the demultiplexer's whole transition, as a function.
pub open spec fn spec_feed(q: Seq<SpecJson>, ev: SpecTransportEvent) -> (SpecFeedResult, Seq<
    SpecJson,
>) {
    match ev {
        SpecTransportEvent::Text(t) => match json_doc_of(t) {
            None => (
                SpecFeedResult::Yielded(
                    Err(SpecStreamError::ParseError(ParseFault::InvalidJson)),
                ),
                q,
            ),
            Some(SpecJson::Arr(elems)) => if elems.len() == 0 {
                (SpecFeedResult::Pending, q)
            } else {
                (SpecFeedResult::Yielded(Ok(elems[0])), q + elems.drop_first())
            },
            Some(_) => (
                SpecFeedResult::Yielded(
                    Err(SpecStreamError::ParseError(ParseFault::NotAnArray)),
                ),
                q,
            ),
        },
        SpecTransportEvent::Ping => (SpecFeedResult::Pending, q),
        SpecTransportEvent::Pong => (SpecFeedResult::Pending, q),
        SpecTransportEvent::Close => (SpecFeedResult::End, q),
        SpecTransportEvent::Binary => (
            SpecFeedResult::Yielded(
                Err(SpecStreamError::UnexpectedMessageType(FrameKind::Binary)),
            ),
            q,
        ),
        SpecTransportEvent::Raw => (
            SpecFeedResult::Yielded(Err(SpecStreamError::UnexpectedMessageType(FrameKind::Raw))),
            q,
        ),
        SpecTransportEvent::Failed(e) => (
            SpecFeedResult::Yielded(Err(SpecStreamError::WebsocketError(e))),
            q,
        ),
        SpecTransportEvent::Closed => (SpecFeedResult::End, q),
    }
}

/// The inbound demultiplexer's state: the residual queue of payloads parsed
/// but not yet handed out, front first.
#[derive(Debug)]
pub struct Demux {
    queue: Vec<JsonValue>,
}

impl View for Demux {
    type V = Seq<SpecJson>;

    closed spec fn view(&self) -> Seq<SpecJson> {
        model_of_seq(self.queue@)
    }
}

impl Demux {
    pub fn new() -> (r: Demux)
        ensures
            r@ == Seq::<SpecJson>::empty(),
    {
        let r = Demux { queue: Vec::new() };
        proof {
            lemma_model_of_seq(r.queue@);
        }
        r
    }

    /// Pops the residual queue's front payload, if any; the transport is not
    /// touched while the queue is non-empty.
    pub fn take_buffered(&mut self) -> (r: Option<JsonValue>)
        ensures
            match r {
                Some(v) => old(self)@.len() > 0 && v@ == old(self)@[0] && final(self)@ == old(
                    self,
                )@.drop_first(),
                None => old(self)@.len() == 0 && final(self)@ == old(self)@,
            },
    {
        proof {
            lemma_model_of_seq(self.queue@);
        }
        if self.queue.len() == 0 {
            return None;
        }
        let v = self.queue.remove(0);
        proof {
            lemma_model_of_seq(self.queue@);
            assert(self@ =~= old(self)@.drop_first());
        }
        Some(v)
    }

    /// Feeds one transport event in. A text frame is parsed as a JSON array:
    /// its first payload is yielded at once and the rest join the residual
    /// queue in wire order. Ping and pong yield nothing; close and a closed
    /// stream end the sequence; any other frame is an error naming its kind;
    /// a transport failure is passed through as an error.
    pub fn feed(&mut self, ev: TransportEvent) -> (r: FeedResult)
        ensures
            (r@, final(self)@) == spec_feed(old(self)@, ev@),
    {
        match ev {
            TransportEvent::Frame(Frame::Text(t)) => {
                match parse_json_text(t.as_str()) {
                    None => FeedResult::Yielded(
                        Err(MessageStreamError::ParseError(ParseFault::InvalidJson)),
                    ),
                    Some(doc) => {
                        match doc {
                            JsonValue::Arr(mut elems) => {
                                let ghost e_model = model_of_seq(elems@);
                                proof {
                                    lemma_model_of_seq(elems@);
                                }
                                if elems.len() == 0 {
                                    FeedResult::Pending
                                } else {
                                    let first = elems.remove(0);
                                    proof {
                                        lemma_model_of_seq(elems@);
                                        assert(model_of_seq(elems@) =~= e_model.drop_first());
                                    }
                                    let ghost rest = model_of_seq(elems@);
                                    let ghost q0 = old(self)@;
                                    let ghost n0 = self.queue@.len() as int;
                                    proof {
                                        lemma_model_of_seq(self.queue@);
                                    }
                                    let mut i: usize = 0;
                                    while i < elems.len()
                                        invariant
                                            i <= elems.len(),
                                            rest == model_of_seq(elems@),
                                            rest.len() == elems@.len(),
                                            q0 == old(self)@,
                                            n0 == q0.len(),
                                            self.queue@.len() == n0 + i,
                                            forall|j: int|
                                                0 <= j < n0 ==> #[trigger] self.queue@[j]@ == q0[j],
                                            forall|j: int|
                                                n0 <= j < n0 + i ==> #[trigger] self.queue@[j]@
                                                    == rest[j - n0],
                                        decreases elems.len() - i,
                                    {
                                        proof {
                                            lemma_model_of_seq(elems@);
                                        }
                                        let v = elems[i].duplicate();
                                        self.queue.push(v);
                                        i = i + 1;
                                    }
                                    proof {
                                        lemma_model_of_seq(self.queue@);
                                        assert(self@.len() == n0 + rest.len());
                                        assert forall|j: int| 0 <= j < n0 implies #[trigger] self@[j]
                                            == q0[j] by {
                                            assert(self@[j] == model_of(self.queue@[j]));
                                            assert(self.queue@[j]@ == q0[j]);
                                        }
                                        assert forall|j: int|
                                            n0 <= j < self@.len() implies #[trigger] self@[j] == rest[j
                                            - n0] by {
                                            assert(self@[j] == model_of(self.queue@[j]));
                                            assert(self.queue@[j]@ == rest[j - n0]);
                                        }
                                        assert(self@ =~= q0 + rest);
                                    }
                                    FeedResult::Yielded(Ok(first))
                                }
                            }
                            _ => FeedResult::Yielded(
                                Err(MessageStreamError::ParseError(ParseFault::NotAnArray)),
                            ),
                        }
                    }
                }
            }
            TransportEvent::Frame(Frame::Ping(_)) => FeedResult::Pending,
            TransportEvent::Frame(Frame::Pong(_)) => FeedResult::Pending,
            TransportEvent::Frame(Frame::Close) => FeedResult::End,
            TransportEvent::Frame(Frame::Binary(_)) => FeedResult::Yielded(
                Err(MessageStreamError::UnexpectedMessageType(FrameKind::Binary)),
            ),
            TransportEvent::Frame(Frame::Raw) => FeedResult::Yielded(
                Err(MessageStreamError::UnexpectedMessageType(FrameKind::Raw)),
            ),
            TransportEvent::Failed(e) => FeedResult::Yielded(
                Err(MessageStreamError::WebsocketError(e)),
            ),
            TransportEvent::Closed => FeedResult::End,
        }
    }

    /// Hands the residual queue over unchanged, for the transition to the
    /// authenticated session.
    pub fn into_queue(self) -> (r: Vec<JsonValue>)
        ensures
            model_of_seq(r@) == self@,
    {
        self.queue
    }

    /// Rebuilds a demultiplexer around a queue, preserving its contents.
    pub fn from_queue(queue: Vec<JsonValue>) -> (r: Demux)
        ensures
            r@ == model_of_seq(queue@),
    {
        Demux { queue }
    }
}

/// A frame holding several payloads yields them in wire order, before any
/// further transport poll: feeding it yields the first payload at once and
/// appends exactly the remaining payloads, in order, to the residual queue.
/// Starting from an empty queue, the yielded payload followed by the queue's
/// contents is exactly the frame's payload list; each later production pops
/// the queue's front without touching the transport.
pub proof fn lemma_frame_ordering(q: Seq<SpecJson>, t: Seq<char>, elems: Seq<SpecJson>)
    requires
        json_doc_of(t) == Some(SpecJson::Arr(elems)),
        elems.len() >= 1,
    ensures
        spec_feed(q, SpecTransportEvent::Text(t)).0 == SpecFeedResult::Yielded(Ok(elems[0])),
        spec_feed(q, SpecTransportEvent::Text(t)).1 == q + elems.drop_first(),
        q.len() == 0 ==> seq![elems[0]] + spec_feed(q, SpecTransportEvent::Text(t)).1 == elems,
{
    if q.len() == 0 {
        assert(q + elems.drop_first() =~= elems.drop_first());
        assert(seq![elems[0]] + elems.drop_first() =~= elems);
    }
}

/// Ping and pong frames never produce a message or an error, and never touch
/// the residual queue; a close frame, or the stream's end, always ends the
/// sequence cleanly.
pub proof fn lemma_control_frames(q: Seq<SpecJson>)
    ensures
        spec_feed(q, SpecTransportEvent::Ping) == (SpecFeedResult::Pending, q),
        spec_feed(q, SpecTransportEvent::Pong) == (SpecFeedResult::Pending, q),
        spec_feed(q, SpecTransportEvent::Close) == (SpecFeedResult::End, q),
        spec_feed(q, SpecTransportEvent::Closed) == (SpecFeedResult::End, q),
{
}

/// A frame that is neither text, nor control, nor close always yields the
/// unexpected-frame error naming the frame's actual kind.
pub proof fn lemma_unexpected_frames(q: Seq<SpecJson>)
    ensures
        spec_feed(q, SpecTransportEvent::Binary) == (
            SpecFeedResult::Yielded(
                Err(SpecStreamError::UnexpectedMessageType(FrameKind::Binary)),
            ),
            q,
        ),
        spec_feed(q, SpecTransportEvent::Raw) == (
            SpecFeedResult::Yielded(Err(SpecStreamError::UnexpectedMessageType(FrameKind::Raw))),
            q,
        ),
        FrameKind::Binary.spec_name() == "binary"@,
        FrameKind::Raw.spec_name() == "frame"@,
{
}

} // verus!
