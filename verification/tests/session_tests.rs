//! Tests of the demultiplexer's ordering and the handshake state machine,
//! driving them with hand-made frames the way a transport would.

use archipelago::demux::{
    Demux, FeedResult, Frame, FrameKind, MessageStreamError, ParseFault, TransportEvent,
};
use archipelago::json::JsonValue;
use archipelago::protocol::{
    AnonymousServerMessage, ClientStatus, ItemsHandlingFlags, PrintJSON, ServerMessage,
};
use archipelago::session::{endpoint_url, AnonymousClient, PollOutcome, SessionError};

fn text_event(text: &str) -> TransportEvent {
    TransportEvent::Frame(Frame::Text(text.to_owned()))
}

const ROOM_INFO: &str = r#"{"cmd":"RoomInfo","version":{"major":0,"minor":4,"build":5,"class":"Version"},"generator_version":{"major":0,"minor":4,"build":5,"class":"Version"},"tags":[],"password":false,"permissions":{},"hint_cost":10,"location_check_points":1,"games":["GameA"],"datapackage_versions":{},"datapackage_checksums":{},"seed_name":"seed1","time":1.5}"#;

fn established() -> AnonymousClient {
    let mut demux = Demux::new();
    let first = match demux.feed(text_event(&format!("[{}]", ROOM_INFO))) {
        FeedResult::Yielded(Ok(v)) => v,
        other => panic!("expected a payload, got {:?}", other),
    };
    let first = archipelago::codec_family::decode_anonymous(&first).expect("decodes");
    AnonymousClient::establish(demux, Some(Ok(first))).expect("establishes")
}

#[test]
fn multi_message_frame_yields_in_order_without_polling() {
    let mut demux = Demux::new();
    let r = demux.feed(text_event("[1,2,3]"));
    match r {
        FeedResult::Yielded(Ok(JsonValue::Int(1))) => {}
        other => panic!("expected the first payload, got {:?}", other),
    }
    // the two residual payloads come out in order, with no transport event
    assert!(matches!(demux.take_buffered(), Some(JsonValue::Int(2))));
    assert!(matches!(demux.take_buffered(), Some(JsonValue::Int(3))));
    assert!(demux.take_buffered().is_none());
}

#[test]
fn ping_pong_yield_nothing_and_close_ends() {
    let mut demux = Demux::new();
    assert!(matches!(
        demux.feed(TransportEvent::Frame(Frame::Ping(vec![1]))),
        FeedResult::Pending
    ));
    assert!(matches!(
        demux.feed(TransportEvent::Frame(Frame::Pong(vec![]))),
        FeedResult::Pending
    ));
    assert!(matches!(demux.feed(TransportEvent::Frame(Frame::Close)), FeedResult::End));
    assert!(matches!(demux.feed(TransportEvent::Closed), FeedResult::End));
}

#[test]
fn binary_frame_yields_error_naming_its_kind() {
    let mut demux = Demux::new();
    match demux.feed(TransportEvent::Frame(Frame::Binary(vec![0]))) {
        FeedResult::Yielded(Err(MessageStreamError::UnexpectedMessageType(k))) => {
            assert_eq!(k, FrameKind::Binary);
            assert_eq!(k.name(), "binary");
        }
        other => panic!("expected the unexpected-frame error, got {:?}", other),
    }
    match demux.feed(TransportEvent::Frame(Frame::Raw)) {
        FeedResult::Yielded(Err(MessageStreamError::UnexpectedMessageType(k))) => {
            assert_eq!(k.name(), "frame");
        }
        other => panic!("expected the unexpected-frame error, got {:?}", other),
    }
}

#[test]
fn malformed_and_non_array_frames_are_parse_errors() {
    let mut demux = Demux::new();
    assert!(matches!(
        demux.feed(text_event("{nope")),
        FeedResult::Yielded(Err(MessageStreamError::ParseError(ParseFault::InvalidJson)))
    ));
    assert!(matches!(
        demux.feed(text_event("{}")),
        FeedResult::Yielded(Err(MessageStreamError::ParseError(ParseFault::NotAnArray)))
    ));
    // an empty array yields nothing at all for this attempt
    assert!(matches!(demux.feed(text_event("[]")), FeedResult::Pending));
}

#[test]
fn transport_failure_is_passed_through() {
    let mut demux = Demux::new();
    match demux.feed(TransportEvent::Failed("broken pipe".to_owned())) {
        FeedResult::Yielded(Err(MessageStreamError::WebsocketError(e))) => {
            assert_eq!(e, "broken pipe");
        }
        other => panic!("expected the transport error, got {:?}", other),
    }
}

#[test]
fn construction_succeeds_on_room_info() {
    let s = established();
    let ri = s.get_room_info();
    assert_eq!(ri.seed_name, "seed1");
    assert_eq!(ri.games, vec!["GameA".to_owned()]);
    assert_eq!(ri.hint_cost, 10);
}

#[test]
fn construction_fails_on_wrong_first_message() {
    let demux = Demux::new();
    let first = r#"{"cmd":"Connected","team":0,"slot":1,"players":[],"missing_locations":[],"checked_locations":[],"slot_data":{},"slot_info":{},"hint_points":0}"#;
    let v = archipelago::wire::parse_json_text(first).expect("valid JSON");
    let msg = archipelago::codec_family::decode_anonymous(&v).expect("decodes");
    match AnonymousClient::establish(demux, Some(Ok(msg))) {
        Err(SessionError::UnexpectedMessage(AnonymousServerMessage::Connected(_))) => {}
        other => panic!("expected a sequence error, got {:?}", other.err()),
    }
}

#[test]
fn construction_fails_on_ended_stream() {
    assert!(matches!(
        AnonymousClient::establish(Demux::new(), None),
        Err(SessionError::StreamEnded)
    ));
}

#[test]
fn data_package_request_names_the_rooms_games() {
    let s = established();
    let req = s.data_package_request();
    assert_eq!(req.games, vec!["GameA".to_owned()]);
    let frame = s.data_package_frame();
    assert_eq!(frame, r#"[{"cmd":"GetDataPackage","games":["GameA"]}]"#);
}

#[test]
fn data_package_reply_must_be_the_data_package() {
    let s = established();
    let v = archipelago::wire::parse_json_text(
        r#"{"cmd":"InvalidPacket","type":"cmd","original_cmd":null,"text":"bad"}"#,
    )
    .expect("valid JSON");
    let msg = archipelago::codec_family::decode_anonymous(&v).expect("decodes");
    assert!(matches!(
        s.accept_data_package_reply(Some(Ok(msg))),
        Err(SessionError::UnexpectedMessage(_))
    ));
    assert!(matches!(s.accept_data_package_reply(None), Err(SessionError::StreamEnded)));
}

#[test]
fn connect_request_carries_version_flags_and_fresh_uuid() {
    let s = established();
    let req = s.connect_request(
        Some("pw".to_owned()),
        "GameA".to_owned(),
        "alice".to_owned(),
        vec!["AP".to_owned()],
        ItemsHandlingFlags::from_bits(0b111),
    );
    assert_eq!(req.password.as_deref(), Some("pw"));
    assert_eq!(req.game, "GameA");
    assert_eq!(req.name, "alice");
    assert_eq!(req.uuid.chars().count(), 36);
    assert_eq!(req.version.major, 0);
    assert_eq!(req.version.minor, 4);
    assert_eq!(req.version.build, 5);
    assert!(req.slot_data);
    let frame = AnonymousClient::connect_frame(req);
    assert!(frame.starts_with(r#"[{"cmd":"Connect","password":"pw","#));
    assert!(frame.contains(r#""version":{"major":0,"minor":4,"build":5,"class":"Version"}"#));
}

#[test]
fn refused_authentication_reports_exactly_the_reason() {
    let s = established();
    let v = archipelago::wire::parse_json_text(
        r#"{"cmd":"ConnectionRefused","errors":["InvalidPassword"]}"#,
    )
    .expect("valid JSON");
    let msg = archipelago::codec_family::decode_anonymous(&v).expect("decodes");
    // the handshake session is consumed by the attempt, whatever the outcome
    match s.finish_connect(Some(Ok(msg))) {
        Err(SessionError::Refused(r)) => {
            assert_eq!(
                r.errors,
                vec![archipelago::protocol::ConnectionRefusedError::InvalidPassword]
            );
        }
        other => panic!("expected the refusal, got {:?}", other.err()),
    }
}

#[test]
fn successful_authentication_moves_state_and_residual_queue() {
    let mut demux = Demux::new();
    // one frame carrying the room info and one early extra message
    let frame = format!("[{},{}]", ROOM_INFO, r#"{"cmd":"RoomUpdate"}"#);
    let first = match demux.feed(text_event(&frame)) {
        FeedResult::Yielded(Ok(v)) => v,
        other => panic!("expected a payload, got {:?}", other),
    };
    let first = archipelago::codec_family::decode_anonymous(&first).expect("decodes");
    let s = AnonymousClient::establish(demux, Some(Ok(first))).expect("establishes");

    let connected = r#"{"cmd":"Connected","team":0,"slot":1,"players":[],"missing_locations":[],"checked_locations":[],"slot_data":{},"slot_info":{},"hint_points":0}"#;
    let v = archipelago::wire::parse_json_text(connected).expect("valid JSON");
    let msg = archipelago::codec_family::decode_anonymous(&v).expect("decodes");
    let mut client = s.finish_connect(Some(Ok(msg))).expect("authenticates");
    assert_eq!(client.get_room_info().seed_name, "seed1");
    assert_eq!(client.get_connected().slot, 1);
    // the residual message survived the transition
    match client.next_buffered() {
        Some(Ok(ServerMessage::RoomUpdate(_))) => {}
        other => panic!("expected the buffered update, got {:?}", other),
    }
    assert!(client.next_buffered().is_none());
}

#[test]
fn two_print_json_in_one_frame_come_out_in_order() {
    let mut demux = Demux::new();
    let first = match demux.feed(text_event(&format!("[{}]", ROOM_INFO))) {
        FeedResult::Yielded(Ok(v)) => v,
        other => panic!("expected a payload, got {:?}", other),
    };
    let first = archipelago::codec_family::decode_anonymous(&first).expect("decodes");
    let s = AnonymousClient::establish(demux, Some(Ok(first))).expect("establishes");
    let connected = r#"{"cmd":"Connected","team":0,"slot":1,"players":[],"missing_locations":[],"checked_locations":[],"slot_data":{},"slot_info":{},"hint_points":0}"#;
    let v = archipelago::wire::parse_json_text(connected).expect("valid JSON");
    let msg = archipelago::codec_family::decode_anonymous(&v).expect("decodes");
    let mut client = s.finish_connect(Some(Ok(msg))).expect("authenticates");

    let frame = r#"[{"cmd":"PrintJSON","type":"Chat","data":[{"text":"hi"}],"team":0,"slot":1,"message":"hi"},{"cmd":"PrintJSON","type":"Join","data":[{"text":"j"}],"team":0,"slot":2,"tags":[]}]"#;
    // one transport event, two consecutive productions, in wire order
    match client.accept_event(text_event(frame)) {
        PollOutcome::Message(Ok(ServerMessage::PrintJSON(PrintJSON::Chat { message, .. }))) => {
            assert_eq!(message, "hi");
        }
        other => panic!("expected the chat event first, got {:?}", other),
    }
    match client.next_buffered() {
        Some(Ok(ServerMessage::PrintJSON(PrintJSON::Join { slot, .. }))) => {
            assert_eq!(slot, 2);
        }
        other => panic!("expected the join event second, got {:?}", other),
    }
    assert!(client.next_buffered().is_none());
}

#[test]
fn residual_payload_of_wrong_shape_is_reported_not_skipped() {
    let mut demux = Demux::new();
    let r = demux.feed(text_event(r#"[{"cmd":"RoomUpdate"},42]"#));
    assert!(matches!(r, FeedResult::Yielded(Ok(_))));
    assert!(matches!(
        demux.feed(TransportEvent::Frame(Frame::Ping(vec![]))),
        FeedResult::Pending
    ));
    let v = demux.take_buffered().expect("the extra payload is buffered");
    assert!(archipelago::codec_family::decode_server(&v).is_none());
}

#[test]
fn endpoint_splits_on_last_colon_with_default_port() {
    assert_eq!(endpoint_url("example.com"), "ws://example.com:38281");
    assert_eq!(endpoint_url("example.com:1234"), "ws://example.com:1234");
    assert_eq!(endpoint_url("a:b:c"), "ws://a:b:c");
    assert_eq!(endpoint_url("host:"), "ws://host:");
    assert_eq!(endpoint_url(""), "ws://:38281");
}

#[test]
fn client_status_values_follow_the_wire_integers() {
    let m = archipelago::codec_client::encode_client_message(&archipelago::protocol::ClientMessage::StatusUpdate(
        archipelago::protocol::StatusUpdate { status: ClientStatus::Playing },
    ));
    let text = archipelago::wire::render_json_text(&m).expect("renderable");
    assert_eq!(text, r#"{"cmd":"StatusUpdate","status":20}"#);
}
