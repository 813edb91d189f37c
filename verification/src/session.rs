//! The handshake and the authenticated session.
//!
//! `AnonymousClient` is the pre-authentication phase: it is built around the
//! mandatory first `RoomInfo` message, can request the data package, and is
//! consumed by a successful authentication, which moves its room metadata and
//! residual queue into the authenticated `Client`. All transport I/O stays
//! with the caller: the session functions decide, from state and one reply,
//! what comes next.

use vstd::prelude::*;

use vstd::string::StringExecFns;
use vstd::string::StrSliceExecFns;

use crate::codec_client::{enc_client, encode_client_message};
use crate::codec_family::{dec_anonymous, dec_server, decode_anonymous, decode_server};
use crate::codec_values::{enc_version, enc_items_handling};
use crate::codec_arrays::enc_str_seq;
use crate::demux::{
    Demux, FeedResult, MessageStreamError, ParseFault, SpecFeedResult, SpecStreamError,
    SpecTransportEvent, TransportEvent, spec_feed,
};
use crate::json::{
    distinct_keys, lemma_model_of_seq, lemma_renderable_fields, lemma_renderable_seq, renderable,
    renderable_fields, renderable_seq, JsonValue, SpecJson,
};
use crate::protocol::{
    deep, view_opt_string, AnonymousServerMessage, ClientMessage, Connect, Connected,
    ConnectionRefused, DataPackage, GetDataPackage, ItemsHandlingFlags, NetworkVersion, RoomInfo,
    ServerMessage, SpecAnonymousServerMessage, SpecConnect, SpecConnected, SpecConnectionRefused,
    SpecDataPackage, SpecGetDataPackage, SpecRoomInfo, SpecServerMessage, spec_supported_version,
    supported_version,
};
use crate::wire::{json_text_of, render_json_text};

verus! {

broadcast use {vstd::std_specs::vec::group_vec_axioms, vstd::seq::group_seq_axioms};

// ---------------------------------------------------------------------------
// Endpoint resolution
// ---------------------------------------------------------------------------
/// The index of the last colon of the address, or a negative value where it
/// has none.
pub open spec fn last_colon(s: Seq<char>) -> int
    decreases s.len(),
{
    if s.len() == 0 {
        -1
    } else if s.last() == ':' {
        s.len() - 1
    } else {
        last_colon(s.drop_last())
    }
}

/// The connection target for an address: split on its last colon into host
/// and port; without a port the default, 38281, is used.
pub open spec fn spec_endpoint(addr: Seq<char>) -> Seq<char> {
    let i = last_colon(addr);
    if i < 0 {
        "ws://"@ + addr + ":"@ + "38281"@
    } else {
        "ws://"@ + addr.take(i) + ":"@ + addr.skip(i + 1)
    }
}

proof fn lemma_last_colon_at(s: Seq<char>, i: int)
    requires
        0 <= i < s.len(),
        s[i] == ':',
        forall|k: int| i < k < s.len() ==> s[k] != ':',
    ensures
        last_colon(s) == i,
    decreases s.len(),
{
    if i == s.len() - 1 {
    } else {
        assert(s.last() != ':');
        assert(forall|k: int| 0 <= k < s.len() - 1 ==> #[trigger] s.drop_last()[k] == s[k]);
        lemma_last_colon_at(s.drop_last(), i);
    }
}

proof fn lemma_last_colon_none(s: Seq<char>)
    requires
        forall|k: int| 0 <= k < s.len() ==> s[k] != ':',
    ensures
        last_colon(s) < 0,
    decreases s.len(),
{
    if s.len() > 0 {
        assert(forall|k: int| 0 <= k < s.len() - 1 ==> #[trigger] s.drop_last()[k] == s[k]);
        lemma_last_colon_none(s.drop_last());
    }
}

/// Builds the connection target for an address.
pub fn endpoint_url(addr: &str) -> (r: String)
    ensures
        r@ == spec_endpoint(addr@),
{
    let n = addr.unicode_len();
    let mut j: usize = n;
    while j > 0
        invariant
            j <= n,
            n == addr@.len(),
            forall|k: int| j <= k < n ==> addr@[k] != ':',
        decreases j,
    {
        if addr.get_char(j - 1) == ':' {
            proof {
                lemma_last_colon_at(addr@, j - 1);
            }
            let host = addr.substring_char(0, j - 1);
            let port = addr.substring_char(j, n);
            let mut url: String = "ws://".to_owned();
            url.append(host);
            url.append(":");
            url.append(port);
            proof {
                assert(url@ =~= spec_endpoint(addr@));
            }
            return url;
        }
        j = j - 1;
    }
    proof {
        lemma_last_colon_none(addr@);
        reveal_strlit(":38281");
        reveal_strlit(":");
        reveal_strlit("38281");
    }
    let mut url: String = "ws://".to_owned();
    url.append(addr);
    url.append(":38281");
    proof {
        assert(url@ =~= spec_endpoint(addr@));
    }
    url
}

// ---------------------------------------------------------------------------
// Outbound frames
// ---------------------------------------------------------------------------
/// The wire envelope of one outbound message: a one-element array.
pub open spec fn client_frame(m: crate::protocol::SpecClientMessage) -> SpecJson {
    SpecJson::Arr(seq![enc_client(m)])
}

/// Wraps one outbound message in its one-element array envelope and prints the
/// frame's text. On every `renderable` envelope — every message the handshake
/// itself sends is one — the text is pinned and printing succeeds.
pub fn encode_wire_frame(m: &ClientMessage) -> (r: Option<String>)
    ensures
        renderable(client_frame(m@)) ==> (r matches Some(s) && s@ == json_text_of(
            client_frame(m@),
        )),
{
    let enc = encode_client_message(m);
    let mut arr: Vec<JsonValue> = Vec::new();
    arr.push(enc);
    let tree = JsonValue::Arr(arr);
    proof {
        lemma_model_of_seq(arr@);
        assert(tree@ =~= client_frame(m@));
    }
    render_json_text(&tree)
}

/// Relies on `uuid::Uuid::new_v4` and its hyphenated text form: a fresh random
/// client identifier of 36 characters. Nothing else is promised of a random
/// value.
#[verifier::external_body]
fn fresh_uuid() -> (r: String)
    ensures
        r@.len() == 36,
{
    uuid::Uuid::new_v4().to_string()
}

proof fn lemma_str_arr_renderable(s: Seq<Seq<char>>)
    ensures
        renderable(SpecJson::Arr(enc_str_seq(s))),
{
    let items = enc_str_seq(s);
    lemma_renderable_seq(items);
    assert(forall|i: int| 0 <= i < items.len() ==> renderable(#[trigger] items[i]));
}

/// Every handshake request the library builds prints faithfully: its envelope
/// has no raw number text and no repeated key.
pub proof fn lemma_connect_frame_renderable(c: SpecConnect)
    ensures
        renderable(client_frame(crate::protocol::SpecClientMessage::Connect(c))),
{
    let m = crate::protocol::SpecClientMessage::Connect(c);
    let obj = enc_client(m);
    let fs = obj->Obj_0;
    assert(renderable(SpecJson::Str("Connect"@)));
    lemma_str_arr_renderable(c.tags);
    // the version triple's object
    let vfs = enc_version(c.version)->Obj_0;
    assert("major"@ != "minor"@) by {
        reveal_strlit("major");
        reveal_strlit("minor");
        assert("major"@[1] == 'a');
        assert("minor"@[1] == 'i');
    }
    assert("major"@ != "build"@) by {
        reveal_strlit("major");
        reveal_strlit("build");
        assert("major"@[0] == 'm');
        assert("build"@[0] == 'b');
    }
    assert("major"@ != "class"@) by {
        reveal_strlit("major");
        reveal_strlit("class");
        assert("major"@[0] == 'm');
        assert("class"@[0] == 'c');
    }
    assert("minor"@ != "build"@) by {
        reveal_strlit("minor");
        reveal_strlit("build");
        assert("minor"@[0] == 'm');
        assert("build"@[0] == 'b');
    }
    assert("minor"@ != "class"@) by {
        reveal_strlit("minor");
        reveal_strlit("class");
        assert("minor"@[0] == 'm');
        assert("class"@[0] == 'c');
    }
    assert("build"@ != "class"@) by {
        reveal_strlit("build");
        reveal_strlit("class");
        assert("build"@[0] == 'b');
        assert("class"@[0] == 'c');
    }
    assert(distinct_keys(vfs));
    lemma_renderable_fields(vfs);
    assert(renderable(enc_version(c.version)));
    // the connect object's own keys
    assert("cmd"@ != "password"@) by {
        reveal_strlit("cmd");
        reveal_strlit("password");
        assert("cmd"@.len() == 3);
        assert("password"@.len() == 8);
    }
    assert("cmd"@ != "game"@) by {
        reveal_strlit("cmd");
        reveal_strlit("game");
        assert("cmd"@.len() == 3);
        assert("game"@.len() == 4);
    }
    assert("cmd"@ != "name"@) by {
        reveal_strlit("cmd");
        reveal_strlit("name");
        assert("cmd"@.len() == 3);
        assert("name"@.len() == 4);
    }
    assert("cmd"@ != "uuid"@) by {
        reveal_strlit("cmd");
        reveal_strlit("uuid");
        assert("cmd"@.len() == 3);
        assert("uuid"@.len() == 4);
    }
    assert("cmd"@ != "version"@) by {
        reveal_strlit("cmd");
        reveal_strlit("version");
        assert("cmd"@.len() == 3);
        assert("version"@.len() == 7);
    }
    assert("cmd"@ != "items_handling"@) by {
        reveal_strlit("cmd");
        reveal_strlit("items_handling");
        assert("cmd"@.len() == 3);
        assert("items_handling"@.len() == 14);
    }
    assert("cmd"@ != "tags"@) by {
        reveal_strlit("cmd");
        reveal_strlit("tags");
        assert("cmd"@.len() == 3);
        assert("tags"@.len() == 4);
    }
    assert("cmd"@ != "slot_data"@) by {
        reveal_strlit("cmd");
        reveal_strlit("slot_data");
        assert("cmd"@.len() == 3);
        assert("slot_data"@.len() == 9);
    }
    assert("password"@ != "game"@) by {
        reveal_strlit("password");
        reveal_strlit("game");
        assert("password"@.len() == 8);
        assert("game"@.len() == 4);
    }
    assert("password"@ != "name"@) by {
        reveal_strlit("password");
        reveal_strlit("name");
        assert("password"@.len() == 8);
        assert("name"@.len() == 4);
    }
    assert("password"@ != "uuid"@) by {
        reveal_strlit("password");
        reveal_strlit("uuid");
        assert("password"@.len() == 8);
        assert("uuid"@.len() == 4);
    }
    assert("password"@ != "version"@) by {
        reveal_strlit("password");
        reveal_strlit("version");
        assert("password"@.len() == 8);
        assert("version"@.len() == 7);
    }
    assert("password"@ != "items_handling"@) by {
        reveal_strlit("password");
        reveal_strlit("items_handling");
        assert("password"@.len() == 8);
        assert("items_handling"@.len() == 14);
    }
    assert("password"@ != "tags"@) by {
        reveal_strlit("password");
        reveal_strlit("tags");
        assert("password"@.len() == 8);
        assert("tags"@.len() == 4);
    }
    assert("password"@ != "slot_data"@) by {
        reveal_strlit("password");
        reveal_strlit("slot_data");
        assert("password"@.len() == 8);
        assert("slot_data"@.len() == 9);
    }
    assert("game"@ != "name"@) by {
        reveal_strlit("game");
        reveal_strlit("name");
        assert("game"@[0] == 'g');
        assert("name"@[0] == 'n');
    }
    assert("game"@ != "uuid"@) by {
        reveal_strlit("game");
        reveal_strlit("uuid");
        assert("game"@[0] == 'g');
        assert("uuid"@[0] == 'u');
    }
    assert("game"@ != "version"@) by {
        reveal_strlit("game");
        reveal_strlit("version");
        assert("game"@.len() == 4);
        assert("version"@.len() == 7);
    }
    assert("game"@ != "items_handling"@) by {
        reveal_strlit("game");
        reveal_strlit("items_handling");
        assert("game"@.len() == 4);
        assert("items_handling"@.len() == 14);
    }
    assert("game"@ != "tags"@) by {
        reveal_strlit("game");
        reveal_strlit("tags");
        assert("game"@[0] == 'g');
        assert("tags"@[0] == 't');
    }
    assert("game"@ != "slot_data"@) by {
        reveal_strlit("game");
        reveal_strlit("slot_data");
        assert("game"@.len() == 4);
        assert("slot_data"@.len() == 9);
    }
    assert("name"@ != "uuid"@) by {
        reveal_strlit("name");
        reveal_strlit("uuid");
        assert("name"@[0] == 'n');
        assert("uuid"@[0] == 'u');
    }
    assert("name"@ != "version"@) by {
        reveal_strlit("name");
        reveal_strlit("version");
        assert("name"@.len() == 4);
        assert("version"@.len() == 7);
    }
    assert("name"@ != "items_handling"@) by {
        reveal_strlit("name");
        reveal_strlit("items_handling");
        assert("name"@.len() == 4);
        assert("items_handling"@.len() == 14);
    }
    assert("name"@ != "tags"@) by {
        reveal_strlit("name");
        reveal_strlit("tags");
        assert("name"@[0] == 'n');
        assert("tags"@[0] == 't');
    }
    assert("name"@ != "slot_data"@) by {
        reveal_strlit("name");
        reveal_strlit("slot_data");
        assert("name"@.len() == 4);
        assert("slot_data"@.len() == 9);
    }
    assert("uuid"@ != "version"@) by {
        reveal_strlit("uuid");
        reveal_strlit("version");
        assert("uuid"@.len() == 4);
        assert("version"@.len() == 7);
    }
    assert("uuid"@ != "items_handling"@) by {
        reveal_strlit("uuid");
        reveal_strlit("items_handling");
        assert("uuid"@.len() == 4);
        assert("items_handling"@.len() == 14);
    }
    assert("uuid"@ != "tags"@) by {
        reveal_strlit("uuid");
        reveal_strlit("tags");
        assert("uuid"@[0] == 'u');
        assert("tags"@[0] == 't');
    }
    assert("uuid"@ != "slot_data"@) by {
        reveal_strlit("uuid");
        reveal_strlit("slot_data");
        assert("uuid"@.len() == 4);
        assert("slot_data"@.len() == 9);
    }
    assert("version"@ != "items_handling"@) by {
        reveal_strlit("version");
        reveal_strlit("items_handling");
        assert("version"@.len() == 7);
        assert("items_handling"@.len() == 14);
    }
    assert("version"@ != "tags"@) by {
        reveal_strlit("version");
        reveal_strlit("tags");
        assert("version"@.len() == 7);
        assert("tags"@.len() == 4);
    }
    assert("version"@ != "slot_data"@) by {
        reveal_strlit("version");
        reveal_strlit("slot_data");
        assert("version"@.len() == 7);
        assert("slot_data"@.len() == 9);
    }
    assert("items_handling"@ != "tags"@) by {
        reveal_strlit("items_handling");
        reveal_strlit("tags");
        assert("items_handling"@.len() == 14);
        assert("tags"@.len() == 4);
    }
    assert("items_handling"@ != "slot_data"@) by {
        reveal_strlit("items_handling");
        reveal_strlit("slot_data");
        assert("items_handling"@.len() == 14);
        assert("slot_data"@.len() == 9);
    }
    assert("tags"@ != "slot_data"@) by {
        reveal_strlit("tags");
        reveal_strlit("slot_data");
        assert("tags"@.len() == 4);
        assert("slot_data"@.len() == 9);
    }
    assert(distinct_keys(fs));
    lemma_renderable_fields(fs);
    assert(renderable_fields(fs));
    assert(renderable(obj));
    lemma_renderable_seq(seq![obj]);
}

pub proof fn lemma_data_package_frame_renderable(g: SpecGetDataPackage)
    ensures
        renderable(client_frame(crate::protocol::SpecClientMessage::GetDataPackage(g))),
{
    let m = crate::protocol::SpecClientMessage::GetDataPackage(g);
    let obj = enc_client(m);
    let fs = obj->Obj_0;
    lemma_str_arr_renderable(g.games);
    assert("cmd"@ != "games"@) by {
        reveal_strlit("cmd");
        reveal_strlit("games");
        assert("cmd"@.len() == 3);
        assert("games"@.len() == 5);
    }
    assert(distinct_keys(fs));
    lemma_renderable_fields(fs);
    assert(renderable(obj));
    lemma_renderable_seq(seq![obj]);
}

// ---------------------------------------------------------------------------
// Errors of the handshake and the session
// ---------------------------------------------------------------------------
/// What can go wrong around one awaited reply.
#[derive(Debug)]
pub enum SessionError {
    /// The inbound stream itself failed.
    Stream(MessageStreamError),
    /// A well-formed message arrived that is not the one this point of the
    /// handshake expects; it is carried for diagnostics.
    UnexpectedMessage(AnonymousServerMessage),
    /// The stream ended while a reply was still owed.
    StreamEnded,
    /// The server refused the connection, for the carried reasons.
    Refused(ConnectionRefused),
}

#[verifier::ext_equal]
pub enum SpecSessionError {
    Stream(SpecStreamError),
    UnexpectedMessage(SpecAnonymousServerMessage),
    StreamEnded,
    Refused(SpecConnectionRefused),
}

impl View for SessionError {
    type V = SpecSessionError;

    open spec fn view(&self) -> SpecSessionError {
        match self {
            SessionError::Stream(e) => SpecSessionError::Stream(e@),
            SessionError::UnexpectedMessage(m) => SpecSessionError::UnexpectedMessage(m@),
            SessionError::StreamEnded => SpecSessionError::StreamEnded,
            SessionError::Refused(r) => SpecSessionError::Refused(r@),
        }
    }
}

pub open spec fn result_view<A: View, B: View>(r: Result<A, B>) -> Result<A::V, B::V> {
    match r {
        Ok(a) => Ok(a@),
        Err(b) => Err(b@),
    }
}

/// The view of one completed production of the inbound stream.
pub open spec fn reply_view<M: View>(x: Option<Result<M, MessageStreamError>>) -> Option<
    Result<M::V, SpecStreamError>,
> {
    match x {
        None => None,
        Some(Ok(m)) => Some(Ok(m@)),
        Some(Err(e)) => Some(Err(e@)),
    }
}

/// Decoding one buffered payload into the given family: a mismatch is a parse
/// error at the message level, not a transport failure.
pub open spec fn dec_step_anonymous(v: SpecJson) -> Result<
    SpecAnonymousServerMessage,
    SpecStreamError,
> {
    match dec_anonymous(v) {
        Some(m) => Ok(m),
        None => Err(SpecStreamError::ParseError(ParseFault::MessageShape)),
    }
}

pub open spec fn dec_step_server(v: SpecJson) -> Result<SpecServerMessage, SpecStreamError> {
    match dec_server(v) {
        Some(m) => Ok(m),
        None => Err(SpecStreamError::ParseError(ParseFault::MessageShape)),
    }
}

/// One production attempt against the transport.
#[derive(Debug)]
pub enum PollOutcome<M> {
    /// A message, or a stream error, was produced.
    Message(Result<M, MessageStreamError>),
    /// The event produced nothing; await the next one.
    Pending,
    /// The stream is over.
    End,
}

#[verifier::ext_equal]
pub enum SpecPollOutcome<V> {
    Message(Result<V, SpecStreamError>),
    Pending,
    End,
}

impl<M: View> View for PollOutcome<M> {
    type V = SpecPollOutcome<M::V>;

    open spec fn view(&self) -> SpecPollOutcome<M::V> {
        match self {
            PollOutcome::Message(Ok(m)) => SpecPollOutcome::Message(Ok(m@)),
            PollOutcome::Message(Err(e)) => SpecPollOutcome::Message(Err(e@)),
            PollOutcome::Pending => SpecPollOutcome::Pending,
            PollOutcome::End => SpecPollOutcome::End,
        }
    }
}

// ---------------------------------------------------------------------------
// The pre-authentication session
// ---------------------------------------------------------------------------
/// The model of the pre-authentication session: the room's metadata and the
/// residual queue.
#[verifier::ext_equal]
pub struct SpecAnonymousClient {
    pub room_info: SpecRoomInfo,
    pub queue: Seq<SpecJson>,
}

/// The pre-authentication session: it exists only once the server's first
/// message, the room metadata, has arrived.
#[derive(Debug)]
pub struct AnonymousClient {
    demux: Demux,
    room_info: RoomInfo,
}

impl View for AnonymousClient {
    type V = SpecAnonymousClient;

    closed spec fn view(&self) -> SpecAnonymousClient {
        SpecAnonymousClient { room_info: self.room_info@, queue: self.demux@ }
    }
}

/// What establishing a session yields for each possible first production:
/// only the room metadata opens a session; anything else is fatal.
pub open spec fn spec_establish(
    q: Seq<SpecJson>,
    first: Option<Result<SpecAnonymousServerMessage, SpecStreamError>>,
) -> Result<SpecAnonymousClient, SpecSessionError> {
    match first {
        None => Err(SpecSessionError::StreamEnded),
        Some(Err(e)) => Err(SpecSessionError::Stream(e)),
        Some(Ok(SpecAnonymousServerMessage::RoomInfo(ri))) => Ok(
            SpecAnonymousClient { room_info: ri, queue: q },
        ),
        Some(Ok(m)) => Err(SpecSessionError::UnexpectedMessage(m)),
    }
}

/// What each awaited single reply of the data-package request yields.
pub open spec fn spec_data_package_reply(
    reply: Option<Result<SpecAnonymousServerMessage, SpecStreamError>>,
) -> Result<SpecDataPackage, SpecSessionError> {
    match reply {
        None => Err(SpecSessionError::StreamEnded),
        Some(Err(e)) => Err(SpecSessionError::Stream(e)),
        Some(Ok(SpecAnonymousServerMessage::DataPackage(d))) => Ok(d),
        Some(Ok(m)) => Err(SpecSessionError::UnexpectedMessage(m)),
    }
}

/// What each awaited single reply of the authentication request yields: the
/// session identity on success, the structured refusal on refusal, and a
/// sequence error on anything else.
pub open spec fn spec_finish_connect(
    s: SpecAnonymousClient,
    reply: Option<Result<SpecAnonymousServerMessage, SpecStreamError>>,
) -> Result<SpecClient, SpecSessionError> {
    match reply {
        None => Err(SpecSessionError::StreamEnded),
        Some(Err(e)) => Err(SpecSessionError::Stream(e)),
        Some(Ok(SpecAnonymousServerMessage::Connected(c))) => Ok(
            SpecClient { room_info: s.room_info, connected: c, queue: s.queue },
        ),
        Some(Ok(SpecAnonymousServerMessage::ConnectionRefused(r))) => Err(
            SpecSessionError::Refused(r),
        ),
        Some(Ok(m)) => Err(SpecSessionError::UnexpectedMessage(m)),
    }
}

impl AnonymousClient {
    /// Opens the session around the stream's first production, which must be
    /// the room metadata; the demultiplexer, with whatever it already
    /// buffered, moves into the session.
    pub fn establish(
        demux: Demux,
        first: Option<Result<AnonymousServerMessage, MessageStreamError>>,
    ) -> (r: Result<AnonymousClient, SessionError>)
        ensures
            result_view(r) == spec_establish(demux@, reply_view(first)),
    {
        match first {
            None => Err(SessionError::StreamEnded),
            Some(Err(e)) => Err(SessionError::Stream(e)),
            Some(Ok(AnonymousServerMessage::RoomInfo(ri))) => Ok(
                AnonymousClient { demux, room_info: ri },
            ),
            Some(Ok(m)) => Err(SessionError::UnexpectedMessage(m)),
        }
    }

    /// The room metadata the server announced.
    pub fn get_room_info(&self) -> (r: &RoomInfo)
        ensures
            r@ == self@.room_info,
    {
        &self.room_info
    }

    /// Pops and decodes the front of the residual queue, if any; the transport
    /// is only to be polled once this returns nothing.
    pub fn next_buffered(&mut self) -> (r: Option<
        Result<AnonymousServerMessage, MessageStreamError>,
    >)
        ensures
            final(self)@.room_info == old(self)@.room_info,
            old(self)@.queue.len() == 0 ==> r is None && final(self)@ == old(self)@,
            old(self)@.queue.len() > 0 ==> final(self)@.queue == old(self)@.queue.drop_first()
                && reply_view(r) == Some(dec_step_anonymous(old(self)@.queue[0])),
    {
        match self.demux.take_buffered() {
            None => None,
            Some(v) => match decode_anonymous(&v) {
                Some(m) => Some(Ok(m)),
                None => Some(Err(MessageStreamError::ParseError(ParseFault::MessageShape))),
            },
        }
    }

    /// Feeds one transport event and decodes whatever payload it yields, with
    /// the demultiplexer's exact buffering behaviour.
    pub fn accept_event(&mut self, ev: TransportEvent) -> (r: PollOutcome<AnonymousServerMessage>)
        ensures
            final(self)@.room_info == old(self)@.room_info,
            final(self)@.queue == spec_feed(old(self)@.queue, ev@).1,
            r@ == (match spec_feed(old(self)@.queue, ev@).0 {
                SpecFeedResult::Yielded(Ok(v)) => SpecPollOutcome::Message(dec_step_anonymous(v)),
                SpecFeedResult::Yielded(Err(e)) => SpecPollOutcome::Message(Err(e)),
                SpecFeedResult::Pending => SpecPollOutcome::Pending,
                SpecFeedResult::End => SpecPollOutcome::End,
            }),
    {
        match self.demux.feed(ev) {
            FeedResult::Yielded(Ok(v)) => match decode_anonymous(&v) {
                Some(m) => PollOutcome::Message(Ok(m)),
                None => PollOutcome::Message(
                    Err(MessageStreamError::ParseError(ParseFault::MessageShape)),
                ),
            },
            FeedResult::Yielded(Err(e)) => PollOutcome::Message(Err(e)),
            FeedResult::Pending => PollOutcome::Pending,
            FeedResult::End => PollOutcome::End,
        }
    }

    /// The data-package request: it asks for the games the room announced.
    pub fn data_package_request(&self) -> (r: GetDataPackage)
        ensures
            r@.games == self@.room_info.games,
    {
        GetDataPackage { games: clone_string_vec(&self.room_info.games) }
    }

    /// The data-package request's wire frame, printed.
    pub fn data_package_frame(&self) -> (r: String)
        ensures
            r@ == json_text_of(
                client_frame(
                    crate::protocol::SpecClientMessage::GetDataPackage(
                        SpecGetDataPackage { games: self@.room_info.games },
                    ),
                ),
            ),
    {
        let req = ClientMessage::GetDataPackage(self.data_package_request());
        proof {
            lemma_data_package_frame_renderable(req@->GetDataPackage_0);
        }
        match encode_wire_frame(&req) {
            Some(s) => s,
            None => {
                proof {
                    assert(false);
                }
                String::new()
            }
        }
    }

    /// Sorts the data-package reply: only the data package itself answers the
    /// request; a problem report or any other message is a sequence error.
    pub fn accept_data_package_reply(
        &self,
        reply: Option<Result<AnonymousServerMessage, MessageStreamError>>,
    ) -> (r: Result<DataPackage, SessionError>)
        ensures
            result_view(r) == spec_data_package_reply(reply_view(reply)),
    {
        match reply {
            None => Err(SessionError::StreamEnded),
            Some(Err(e)) => Err(SessionError::Stream(e)),
            Some(Ok(AnonymousServerMessage::DataPackage(d))) => Ok(d),
            Some(Ok(m)) => Err(SessionError::UnexpectedMessage(m)),
        }
    }

    /// Builds the authentication request: the caller's credentials, a fresh
    /// random client identifier, the supported protocol version, and the
    /// request that slot data be included.
    pub fn connect_request(
        &self,
        password: Option<String>,
        game: String,
        name: String,
        tags: Vec<String>,
        items_handling: ItemsHandlingFlags,
    ) -> (r: Connect)
        ensures
            r@.password == view_opt_string(password),
            r@.game == game@,
            r@.name == name@,
            r@.uuid.len() == 36,
            r@.version == spec_supported_version(),
            r@.items_handling == items_handling,
            r@.tags == deep(tags@),
            r@.slot_data == true,
    {
        Connect {
            password,
            game,
            name,
            uuid: fresh_uuid(),
            version: supported_version(),
            items_handling,
            tags,
            slot_data: true,
        }
    }

    /// Prints the authentication request's wire frame.
    pub fn connect_frame(req: Connect) -> (r: String)
        ensures
            r@ == json_text_of(client_frame(crate::protocol::SpecClientMessage::Connect(req@))),
    {
        proof {
            lemma_connect_frame_renderable(req@);
        }
        let m = ClientMessage::Connect(req);
        match encode_wire_frame(&m) {
            Some(s) => s,
            None => {
                proof {
                    assert(false);
                }
                String::new()
            }
        }
    }

    /// Consumes the handshake around the authentication reply. On the session
    /// identity it becomes the authenticated session, keeping the room
    /// metadata and the residual queue; on a refusal or any other reply the
    /// handshake is spent and only the error remains.
    pub fn finish_connect(
        self,
        reply: Option<Result<AnonymousServerMessage, MessageStreamError>>,
    ) -> (r: Result<Client, SessionError>)
        ensures
            result_view(r) == spec_finish_connect(self@, reply_view(reply)),
    {
        match reply {
            None => Err(SessionError::StreamEnded),
            Some(Err(e)) => Err(SessionError::Stream(e)),
            Some(Ok(AnonymousServerMessage::Connected(c))) => Ok(
                Client { demux: self.demux, room_info: self.room_info, connected: c },
            ),
            Some(Ok(AnonymousServerMessage::ConnectionRefused(r))) => Err(
                SessionError::Refused(r),
            ),
            Some(Ok(m)) => Err(SessionError::UnexpectedMessage(m)),
        }
    }
}

/// Copies a list of strings, keeping its contents.
fn clone_string_vec(v: &Vec<String>) -> (r: Vec<String>)
    ensures
        deep(r@) == deep(v@),
{
    let mut out: Vec<String> = Vec::new();
    let mut i: usize = 0;
    while i < v.len()
        invariant
            i <= v.len(),
            out@.len() == i as nat,
            forall|j: int| 0 <= j < i ==> out@[j]@ == v@[j]@,
        decreases v.len() - i,
    {
        out.push(v[i].clone());
        i = i + 1;
    }
    proof {
        assert(deep(out@) =~= deep(v@));
    }
    out
}

// ---------------------------------------------------------------------------
// The authenticated session
// ---------------------------------------------------------------------------
/// The model of the authenticated session.
#[verifier::ext_equal]
pub struct SpecClient {
    pub room_info: SpecRoomInfo,
    pub connected: SpecConnected,
    pub queue: Seq<SpecJson>,
}

/// The authenticated session: the room metadata and the identity snapshot
/// obtained at authentication, plus the stream of server messages.
#[derive(Debug)]
pub struct Client {
    demux: Demux,
    room_info: RoomInfo,
    connected: Connected,
}

impl View for Client {
    type V = SpecClient;

    closed spec fn view(&self) -> SpecClient {
        SpecClient {
            room_info: self.room_info@,
            connected: self.connected@,
            queue: self.demux@,
        }
    }
}

impl Client {
    /// The room metadata retained from the handshake.
    pub fn get_room_info(&self) -> (r: &RoomInfo)
        ensures
            r@ == self@.room_info,
    {
        &self.room_info
    }

    /// The session identity obtained at authentication.
    pub fn get_connected(&self) -> (r: &Connected)
        ensures
            r@ == self@.connected,
    {
        &self.connected
    }

    /// Pops and decodes the front of the residual queue, if any; the transport
    /// is only to be polled once this returns nothing.
    pub fn next_buffered(&mut self) -> (r: Option<Result<ServerMessage, MessageStreamError>>)
        ensures
            final(self)@.room_info == old(self)@.room_info,
            final(self)@.connected == old(self)@.connected,
            old(self)@.queue.len() == 0 ==> r is None && final(self)@ == old(self)@,
            old(self)@.queue.len() > 0 ==> final(self)@.queue == old(self)@.queue.drop_first()
                && reply_view(r) == Some(dec_step_server(old(self)@.queue[0])),
    {
        match self.demux.take_buffered() {
            None => None,
            Some(v) => match decode_server(&v) {
                Some(m) => Some(Ok(m)),
                None => Some(Err(MessageStreamError::ParseError(ParseFault::MessageShape))),
            },
        }
    }

    /// Feeds one transport event and decodes whatever payload it yields; the
    /// ordering and buffering behaviour is the demultiplexer's.
    pub fn accept_event(&mut self, ev: TransportEvent) -> (r: PollOutcome<ServerMessage>)
        ensures
            final(self)@.room_info == old(self)@.room_info,
            final(self)@.connected == old(self)@.connected,
            final(self)@.queue == spec_feed(old(self)@.queue, ev@).1,
            r@ == (match spec_feed(old(self)@.queue, ev@).0 {
                SpecFeedResult::Yielded(Ok(v)) => SpecPollOutcome::Message(dec_step_server(v)),
                SpecFeedResult::Yielded(Err(e)) => SpecPollOutcome::Message(Err(e)),
                SpecFeedResult::Pending => SpecPollOutcome::Pending,
                SpecFeedResult::End => SpecPollOutcome::End,
            }),
    {
        match self.demux.feed(ev) {
            FeedResult::Yielded(Ok(v)) => match decode_server(&v) {
                Some(m) => PollOutcome::Message(Ok(m)),
                None => PollOutcome::Message(
                    Err(MessageStreamError::ParseError(ParseFault::MessageShape)),
                ),
            },
            FeedResult::Yielded(Err(e)) => PollOutcome::Message(Err(e)),
            FeedResult::Pending => PollOutcome::Pending,
            FeedResult::End => PollOutcome::End,
        }
    }
}

} // verus!
