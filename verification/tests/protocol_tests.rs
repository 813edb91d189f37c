//! Tests of the message model and the wire codec, against hand-written frame
//! texts and exact expected values.

use archipelago::codec_client::encode_client_message;
use archipelago::codec_family::{decode_anonymous, decode_server};
use archipelago::json::JsonValue;
use archipelago::protocol::{
    Bounce, ClientMessage, ClientStatus, Connect, ConnectionRefusedError, DataStorageOperation,
    Get, GetDataPackage, ItemsHandlingFlags, JSONColor, LocationChecks, LocationScouts,
    NetworkItemFlags, PrintJSON, Say, ServerMessage, SetNotify, SetRequest, SlotType,
    StatusUpdate, AnonymousServerMessage,
};
use archipelago::session::encode_wire_frame;
use archipelago::wire::{parse_json_text, render_json_text};

fn parse(text: &str) -> JsonValue {
    parse_json_text(text).expect("valid JSON")
}

fn render_frame(m: &ClientMessage) -> String {
    encode_wire_frame(m).expect("renderable message")
}

#[test]
fn items_handling_flags_dependency_all_eight() {
    for bits in 0u8..8u8 {
        let f = ItemsHandlingFlags::from_bits(bits);
        if bits & 1 == 0 {
            assert!(!f.can_receive_items());
            assert!(!f.has_local_items());
            assert!(!f.receive_starting_inventory());
        } else {
            assert!(f.can_receive_items());
            assert_eq!(f.has_local_items(), bits & 2 != 0);
            assert_eq!(f.receive_starting_inventory(), bits & 4 != 0);
        }
    }
}

#[test]
fn items_handling_union_combines_bits() {
    let f = ItemsHandlingFlags::from_bits(0b1).union(ItemsHandlingFlags::from_bits(0b100));
    assert_eq!(f, ItemsHandlingFlags(0b101));
    assert!(f.can_receive_items());
    assert!(!f.has_local_items());
    assert!(f.receive_starting_inventory());
}

#[test]
fn network_item_flags_are_independent() {
    let f = NetworkItemFlags::from_bits(0b101);
    assert!(f.is_progression());
    assert!(!f.is_important());
    assert!(f.is_trap());
}

#[test]
fn say_frame_exact_text() {
    let m = ClientMessage::Say(Say { text: "hello".to_owned() });
    assert_eq!(render_frame(&m), r#"[{"cmd":"Say","text":"hello"}]"#);
}

#[test]
fn connect_frame_exact_text() {
    let m = ClientMessage::Connect(Connect {
        password: None,
        game: "GameA".to_owned(),
        name: "alice".to_owned(),
        uuid: "u-1".to_owned(),
        version: archipelago::protocol::supported_version(),
        items_handling: ItemsHandlingFlags::from_bits(7),
        tags: vec!["AP".to_owned()],
        slot_data: true,
    });
    let expected = r#"[{"cmd":"Connect","password":null,"game":"GameA","name":"alice","uuid":"u-1","version":{"major":0,"minor":4,"build":5,"class":"Version"},"items_handling":7,"tags":["AP"],"slot_data":true}]"#;
    assert_eq!(render_frame(&m), expected);
}

#[test]
fn every_client_variant_round_trips_through_text() {
    let messages = vec![
        ClientMessage::Connect(Connect {
            password: Some("pw".to_owned()),
            game: "G".to_owned(),
            name: "n".to_owned(),
            uuid: "u".to_owned(),
            version: archipelago::protocol::supported_version(),
            items_handling: ItemsHandlingFlags::from_bits(3),
            tags: vec!["AP".to_owned(), "Tracker".to_owned()],
            slot_data: false,
        }),
        ClientMessage::Sync,
        ClientMessage::LocationChecks(LocationChecks { locations: vec![1, -2, 3] }),
        ClientMessage::LocationScouts(LocationScouts { locations: vec![9], create_as_hint: 2 }),
        ClientMessage::StatusUpdate(StatusUpdate { status: ClientStatus::Goal }),
        ClientMessage::Say(Say { text: "hi".to_owned() }),
        ClientMessage::GetDataPackage(GetDataPackage { games: vec!["G".to_owned()] }),
        ClientMessage::Bounce(Bounce {
            games: vec!["G".to_owned()],
            slots: vec![1],
            tags: vec![],
            data: JsonValue::Bool(true),
        }),
        ClientMessage::Get(Get { keys: vec!["k".to_owned()] }),
        ClientMessage::SetRequest(SetRequest {
            key: "k".to_owned(),
            default: JsonValue::Int(0),
            want_reply: true,
            operations: vec![
                DataStorageOperation::Replace(JsonValue::Int(1)),
                DataStorageOperation::Default,
                DataStorageOperation::Floor,
                DataStorageOperation::Add(JsonValue::Int(2)),
            ],
        }),
        ClientMessage::SetNotify(SetNotify { keys: vec!["k".to_owned()] }),
    ];
    for m in &messages {
        // encode, print, parse back, print again: the texts must agree, so the
        // parse inverted the print.
        let tree = encode_client_message(m);
        let text = render_json_text(&tree).expect("renderable");
        let back = parse(&text);
        let text2 = render_json_text(&back).expect("renderable");
        assert_eq!(text, text2);
    }
}

#[test]
fn room_info_decodes_with_fractional_time() {
    let text = r#"{"cmd":"RoomInfo","version":{"major":0,"minor":4,"build":5,"class":"Version"},"generator_version":{"major":0,"minor":4,"build":4,"class":"Version"},"tags":["WebHost"],"password":false,"permissions":{"release":1,"collect":0,"remaining":2},"hint_cost":10,"location_check_points":1,"games":["GameA","GameB"],"datapackage_versions":{"GameA":3},"datapackage_checksums":{"GameA":"abc"},"seed_name":"seed1","time":123.5}"#;
    let v = parse(text);
    let m = decode_anonymous(&v).expect("decodes");
    match m {
        AnonymousServerMessage::RoomInfo(ri) => {
            assert_eq!(ri.version.minor, 4);
            assert_eq!(ri.generator_version.build, 4);
            assert_eq!(ri.tags, vec!["WebHost".to_owned()]);
            assert!(!ri.password_required);
            assert_eq!(ri.permissions.len(), 3);
            assert_eq!(ri.hint_cost, 10);
            assert_eq!(ri.games.len(), 2);
            assert_eq!(ri.datapackage_versions[0].1, 3);
            assert_eq!(ri.datapackage_checksums[0].1, "abc");
            assert_eq!(ri.seed_name, "seed1");
            match &ri.time {
                JsonValue::Real(t) => assert_eq!(t, "123.5"),
                other => panic!("time should stay a raw number, got {:?}", other),
            }
        }
        other => panic!("expected RoomInfo, got {:?}", other),
    }
}

#[test]
fn room_info_missing_field_is_rejected() {
    let text = r#"{"cmd":"RoomInfo","seed_name":"s"}"#;
    assert!(decode_anonymous(&parse(text)).is_none());
}

#[test]
fn connected_decodes_every_field() {
    let text = r#"{"cmd":"Connected","team":0,"slot":2,"players":[{"team":0,"slot":1,"alias":"a","name":"A"}],"missing_locations":[5,6],"checked_locations":[7],"slot_data":{"x":1},"slot_info":{"1":{"name":"A","game":"G","type":1,"group_members":[]}},"hint_points":3}"#;
    let m = decode_anonymous(&parse(text)).expect("decodes");
    match m {
        AnonymousServerMessage::Connected(c) => {
            assert_eq!(c.team, 0);
            assert_eq!(c.slot, 2);
            assert_eq!(c.players.len(), 1);
            assert_eq!(c.players[0].name, "A");
            assert_eq!(c.missing_locations, vec![5, 6]);
            assert_eq!(c.checked_locations, vec![7]);
            assert_eq!(c.slot_data.len(), 1);
            assert_eq!(c.slot_info[0].0, "1");
            assert_eq!(c.slot_info[0].1.slot_type, SlotType::Player);
            assert_eq!(c.hint_points, 3);
        }
        other => panic!("expected Connected, got {:?}", other),
    }
}

#[test]
fn connection_refused_decodes_reasons() {
    let text = r#"{"cmd":"ConnectionRefused","errors":["InvalidPassword","InvalidSlot"]}"#;
    let m = decode_anonymous(&parse(text)).expect("decodes");
    match m {
        AnonymousServerMessage::ConnectionRefused(r) => {
            assert_eq!(
                r.errors,
                vec![
                    ConnectionRefusedError::InvalidPassword,
                    ConnectionRefusedError::InvalidSlot
                ]
            );
        }
        other => panic!("expected ConnectionRefused, got {:?}", other),
    }
}

#[test]
fn data_package_decodes_tables() {
    let text = r#"{"cmd":"DataPackage","data":{"games":{"G":{"item_name_to_id":{"Sword":10},"location_name_to_id":{"Cave":20},"version":3,"checksum":"c"}}}}"#;
    let m = decode_anonymous(&parse(text)).expect("decodes");
    match m {
        AnonymousServerMessage::DataPackage(d) => {
            let (game, data) = &d.data.games[0];
            assert_eq!(game, "G");
            assert_eq!(data.item_name_to_id[0], ("Sword".to_owned(), 10));
            assert_eq!(data.location_name_to_id[0], ("Cave".to_owned(), 20));
            assert_eq!(data.version, 3);
            assert_eq!(data.checksum, "c");
        }
        other => panic!("expected DataPackage, got {:?}", other),
    }
}

#[test]
fn invalid_packet_decodes_both_problem_kinds() {
    let a = r#"{"cmd":"InvalidPacket","type":"cmd","original_cmd":null,"text":"bad"}"#;
    let b = r#"{"cmd":"InvalidPacket","type":"arguments","original_cmd":"Connect","text":"bad"}"#;
    match decode_anonymous(&parse(a)).expect("decodes") {
        AnonymousServerMessage::InvalidPacket(p) => {
            assert!(p.original_cmd.is_none());
            assert_eq!(p.text, "bad");
        }
        other => panic!("expected InvalidPacket, got {:?}", other),
    }
    match decode_server(&parse(b)).expect("decodes") {
        ServerMessage::InvalidPacket(p) => {
            assert_eq!(p.original_cmd.as_deref(), Some("Connect"));
        }
        other => panic!("expected InvalidPacket, got {:?}", other),
    }
}

#[test]
fn received_items_and_location_info_decode() {
    let a = r#"{"cmd":"ReceivedItems","index":1,"items":[{"item":1,"location":2,"player":3,"flags":1}]}"#;
    match decode_server(&parse(a)).expect("decodes") {
        ServerMessage::ReceivedItems(p) => {
            assert_eq!(p.index, 1);
            assert!(p.items[0].flags.is_progression());
            assert!(!p.items[0].flags.is_trap());
        }
        other => panic!("expected ReceivedItems, got {:?}", other),
    }
    let b = r#"{"cmd":"LocationInfo","locations":[{"item":9,"location":8,"player":7,"flags":4}]}"#;
    match decode_server(&parse(b)).expect("decodes") {
        ServerMessage::LocationInfo(p) => {
            assert_eq!(p.locations[0].item, 9);
            assert!(p.locations[0].flags.is_trap());
        }
        other => panic!("expected LocationInfo, got {:?}", other),
    }
}

#[test]
fn print_json_chat_decodes_with_parts() {
    let text = r#"{"cmd":"PrintJSON","type":"Chat","data":[{"text":"hi"},{"type":"color","text":"red!","color":"red"},{"type":"player_id","text":"1","player":1}],"team":0,"slot":1,"message":"hi"}"#;
    match decode_server(&parse(text)).expect("decodes") {
        ServerMessage::PrintJSON(PrintJSON::Chat { data, team, slot, message }) => {
            assert_eq!(team, 0);
            assert_eq!(slot, 1);
            assert_eq!(message, "hi");
            assert_eq!(data.len(), 3);
            match &data[1] {
                archipelago::protocol::JSONMessagePart::Color { text, color } => {
                    assert_eq!(text, "red!");
                    assert_eq!(*color, JSONColor::Red);
                }
                other => panic!("expected a colour part, got {:?}", other),
            }
        }
        other => panic!("expected a chat event, got {:?}", other),
    }
}

#[test]
fn bounced_defaults_apply_when_fields_are_missing() {
    let m = decode_server(&parse(r#"{"cmd":"Bounced"}"#)).expect("decodes");
    match m {
        ServerMessage::Bounced(b) => {
            assert!(b.games.is_empty());
            assert!(b.slots.is_empty());
            assert!(b.tags.is_empty());
            assert!(matches!(b.data, JsonValue::Null));
        }
        other => panic!("expected Bounced, got {:?}", other),
    }
}

#[test]
fn retrieved_and_set_reply_keep_raw_values() {
    let a = r#"{"cmd":"Retrieved","keys":{"k1":[1,2],"k2":null}}"#;
    match decode_server(&parse(a)).expect("decodes") {
        ServerMessage::Retrieved(r) => {
            assert_eq!(r.keys.len(), 2);
            assert_eq!(r.keys[0].0, "k1");
        }
        other => panic!("expected Retrieved, got {:?}", other),
    }
    let b = r#"{"cmd":"SetReply","key":"k","value":2,"original_value":1}"#;
    match decode_server(&parse(b)).expect("decodes") {
        ServerMessage::SetReply(r) => {
            assert_eq!(r.key, "k");
            assert!(matches!(r.value, JsonValue::Int(2)));
            assert!(matches!(r.original_value, JsonValue::Int(1)));
        }
        other => panic!("expected SetReply, got {:?}", other),
    }
}

#[test]
fn room_update_accepts_any_object() {
    assert!(matches!(
        decode_server(&parse(r#"{"cmd":"RoomUpdate","anything":1}"#)),
        Some(ServerMessage::RoomUpdate(_))
    ));
}

#[test]
fn unknown_command_tag_is_rejected() {
    assert!(decode_server(&parse(r#"{"cmd":"NoSuchThing"}"#)).is_none());
    assert!(decode_anonymous(&parse(r#"{"cmd":"NoSuchThing"}"#)).is_none());
}

#[test]
fn parser_wrapper_reads_structure_not_text() {
    // the parse must really interpret the text: numbers, strings, nesting
    match parse("[1]") {
        JsonValue::Arr(items) => {
            assert_eq!(items.len(), 1);
            assert!(matches!(items[0], JsonValue::Int(1)));
        }
        other => panic!("expected an array, got {:?}", other),
    }
    // and the printer must re-create syntax, not echo its input
    let text = render_json_text(&JsonValue::Str("a\"b".to_owned())).expect("renderable");
    assert_eq!(text, r#""a\"b""#);
    assert!(parse_json_text("{nope").is_none());
}

#[test]
fn flag_bits_outside_a_byte_are_rejected() {
    let text = r#"{"cmd":"ReceivedItems","index":0,"items":[{"item":1,"location":2,"player":3,"flags":256}]}"#;
    assert!(decode_server(&parse(text)).is_none());
    let neg = r#"{"cmd":"ReceivedItems","index":0,"items":[{"item":1,"location":2,"player":3,"flags":-1}]}"#;
    assert!(decode_server(&parse(neg)).is_none());
}

#[test]
fn unknown_permission_key_rejects_the_room_info() {
    let text = r#"{"cmd":"RoomInfo","version":{"major":0,"minor":4,"build":5,"class":"Version"},"generator_version":{"major":0,"minor":4,"build":5,"class":"Version"},"tags":[],"password":false,"permissions":{"nonsense":1},"hint_cost":1,"location_check_points":1,"games":[],"datapackage_versions":{},"datapackage_checksums":{},"seed_name":"s","time":1}"#;
    assert!(decode_anonymous(&parse(text)).is_none());
}

#[test]
fn hint_decodes_every_field() {
    let text = r#"{"receiving_player":1,"finding_player":2,"location":3,"item":4,"found":true,"entrance":"door","item_flags":2}"#;
    let h = archipelago::codec_composite::decode_hint(&parse(text)).expect("decodes");
    assert_eq!(h.receiving_player, 1);
    assert_eq!(h.finding_player, 2);
    assert_eq!(h.location, 3);
    assert_eq!(h.item, 4);
    assert!(h.found);
    assert_eq!(h.entrance, "door");
    assert!(h.item_flags.is_important());
}

#[test]
fn text_part_without_type_and_unknown_type_differ() {
    // no type at all: the bare text part
    let plain = r#"{"cmd":"PrintJSON","type":"Tutorial","data":[{"text":"t"}]}"#;
    match decode_server(&parse(plain)).expect("decodes") {
        ServerMessage::PrintJSON(PrintJSON::Tutorial { data }) => {
            assert!(matches!(
                &data[0],
                archipelago::protocol::JSONMessagePart::Text { text } if text == "t"
            ));
        }
        other => panic!("expected the tutorial event, got {:?}", other),
    }
    // an unknown part tag is a shape error
    let unknown = r#"{"cmd":"PrintJSON","type":"Tutorial","data":[{"type":"nope","text":"t"}]}"#;
    assert!(decode_server(&parse(unknown)).is_none());
}

#[test]
fn huge_integers_survive_as_raw_number_text() {
    // a number outside i64 keeps its wire text and prints back unchanged
    let v = parse("[18446744073709551615]");
    match &v {
        JsonValue::Arr(items) => match &items[0] {
            JsonValue::Real(s) => assert_eq!(s, "18446744073709551615"),
            other => panic!("expected a raw number, got {:?}", other),
        },
        other => panic!("expected an array, got {:?}", other),
    }
    assert_eq!(render_json_text(&v).expect("renderable"), "[18446744073709551615]");
}
