//! The two inbound message families, tagged by their `cmd` field: the full
//! server catalogue and the subset legal before authentication.

use vstd::prelude::*;

use crate::codec::{lemma_obj_get_at, obj_get, opt_view};
use crate::codec_print::{dec_printjson, decode_printjson, enc_printjson_fields,
    lemma_printjson_roundtrip};
use crate::codec_server::{
    dec_bounced, dec_connected, dec_connection_refused, dec_data_package, dec_invalid_packet,
    dec_location_info, dec_number, dec_received_items, dec_retrieved, dec_room_info,
    dec_room_update, dec_set_reply, decode_bounced, decode_connected, decode_connection_refused,
    decode_data_package, decode_invalid_packet, decode_location_info, decode_received_items,
    decode_retrieved, decode_room_info, decode_room_update, decode_set_reply, enc_bounced_fields,
    enc_connected_fields, enc_connection_refused_fields, enc_data_package_fields,
    enc_invalid_packet_fields, enc_location_info_fields, enc_received_items_fields,
    enc_retrieved_fields, enc_room_info_fields, enc_room_update_fields, enc_set_reply_fields,
    lemma_bounced_roundtrip, lemma_connected_roundtrip, lemma_connection_refused_roundtrip,
    lemma_data_package_roundtrip, lemma_invalid_packet_roundtrip, lemma_location_info_roundtrip,
    lemma_received_items_roundtrip, lemma_retrieved_roundtrip, lemma_room_info_roundtrip,
    lemma_set_reply_roundtrip,
};
use crate::codec_values::{dec_field_str, str_is};
use crate::json::{model_of_fields, spec_obj_get, JsonValue, SpecJson};
use crate::protocol::{
    AnonymousServerMessage, ServerMessage, SpecAnonymousServerMessage, SpecServerMessage,
};

verus! {

broadcast use {vstd::std_specs::vec::group_vec_axioms, vstd::seq::group_seq_axioms};

pub open spec fn anonymous_tag(m: SpecAnonymousServerMessage) -> Seq<char> {
    match m {
        SpecAnonymousServerMessage::RoomInfo(_) => "RoomInfo"@,
        SpecAnonymousServerMessage::ConnectionRefused(_) => "ConnectionRefused"@,
        SpecAnonymousServerMessage::Connected(_) => "Connected"@,
        SpecAnonymousServerMessage::DataPackage(_) => "DataPackage"@,
        SpecAnonymousServerMessage::InvalidPacket(_) => "InvalidPacket"@,
    }
}

/// The family envelope: the `cmd` tag first, then the payload's own fields.
pub open spec fn enc_anonymous(m: SpecAnonymousServerMessage) -> SpecJson {
    SpecJson::Obj(
        seq![("cmd"@, SpecJson::Str(anonymous_tag(m)))] + match m {
            SpecAnonymousServerMessage::RoomInfo(p) => enc_room_info_fields(p),
            SpecAnonymousServerMessage::ConnectionRefused(p) => enc_connection_refused_fields(p),
            SpecAnonymousServerMessage::Connected(p) => enc_connected_fields(p),
            SpecAnonymousServerMessage::DataPackage(p) => enc_data_package_fields(p),
            SpecAnonymousServerMessage::InvalidPacket(p) => enc_invalid_packet_fields(p),
        },
    )
}

pub open spec fn dec_anonymous(v: SpecJson) -> Option<SpecAnonymousServerMessage> {
    match v {
        SpecJson::Obj(fs) => match dec_field_str(fs, "cmd"@) {
            Some(tag) => {
                if tag == "RoomInfo"@ {
                    match dec_room_info(v) {
                        Some(p) => Some(SpecAnonymousServerMessage::RoomInfo(p)),
                        None => None,
                    }
                } else if tag == "ConnectionRefused"@ {
                    match dec_connection_refused(v) {
                        Some(p) => Some(SpecAnonymousServerMessage::ConnectionRefused(p)),
                        None => None,
                    }
                } else if tag == "Connected"@ {
                    match dec_connected(v) {
                        Some(p) => Some(SpecAnonymousServerMessage::Connected(p)),
                        None => None,
                    }
                } else if tag == "DataPackage"@ {
                    match dec_data_package(v) {
                        Some(p) => Some(SpecAnonymousServerMessage::DataPackage(p)),
                        None => None,
                    }
                } else if tag == "InvalidPacket"@ {
                    match dec_invalid_packet(v) {
                        Some(p) => Some(SpecAnonymousServerMessage::InvalidPacket(p)),
                        None => None,
                    }
                } else {
                    None
                }
            }
            None => None,
        },
        _ => None,
    }
}

pub fn decode_anonymous(v: &JsonValue) -> (r: Option<AnonymousServerMessage>)
    ensures
        opt_view(r) == dec_anonymous(v@),
{
    let fields = match v {
        JsonValue::Obj(fields) => fields,
        _ => { return None },
    };
    let tag = match obj_get(fields, "cmd") {
        Some(JsonValue::Str(s)) => s,
        _ => { return None },
    };
    if str_is(tag, "RoomInfo") {
        match decode_room_info(v) {
            Some(p) => Some(AnonymousServerMessage::RoomInfo(p)),
            None => None,
        }
    } else if str_is(tag, "ConnectionRefused") {
        match decode_connection_refused(v) {
            Some(p) => Some(AnonymousServerMessage::ConnectionRefused(p)),
            None => None,
        }
    } else if str_is(tag, "Connected") {
        match decode_connected(v) {
            Some(p) => Some(AnonymousServerMessage::Connected(p)),
            None => None,
        }
    } else if str_is(tag, "DataPackage") {
        match decode_data_package(v) {
            Some(p) => Some(AnonymousServerMessage::DataPackage(p)),
            None => None,
        }
    } else if str_is(tag, "InvalidPacket") {
        match decode_invalid_packet(v) {
            Some(p) => Some(AnonymousServerMessage::InvalidPacket(p)),
            None => None,
        }
    } else {
        None
    }
}

pub open spec fn server_tag(m: SpecServerMessage) -> Seq<char> {
    match m {
        SpecServerMessage::ReceivedItems(_) => "ReceivedItems"@,
        SpecServerMessage::LocationInfo(_) => "LocationInfo"@,
        SpecServerMessage::RoomUpdate(_) => "RoomUpdate"@,
        SpecServerMessage::PrintJSON(_) => "PrintJSON"@,
        SpecServerMessage::Bounced(_) => "Bounced"@,
        SpecServerMessage::Retrieved(_) => "Retrieved"@,
        SpecServerMessage::SetReply(_) => "SetReply"@,
        SpecServerMessage::InvalidPacket(_) => "InvalidPacket"@,
    }
}

/// The family envelope: the `cmd` tag first, then the payload's own fields.
pub open spec fn enc_server(m: SpecServerMessage) -> SpecJson {
    SpecJson::Obj(
        seq![("cmd"@, SpecJson::Str(server_tag(m)))] + match m {
            SpecServerMessage::ReceivedItems(p) => enc_received_items_fields(p),
            SpecServerMessage::LocationInfo(p) => enc_location_info_fields(p),
            SpecServerMessage::RoomUpdate(p) => enc_room_update_fields(p),
            SpecServerMessage::PrintJSON(p) => enc_printjson_fields(p),
            SpecServerMessage::Bounced(p) => enc_bounced_fields(p),
            SpecServerMessage::Retrieved(p) => enc_retrieved_fields(p),
            SpecServerMessage::SetReply(p) => enc_set_reply_fields(p),
            SpecServerMessage::InvalidPacket(p) => enc_invalid_packet_fields(p),
        },
    )
}

pub open spec fn dec_server(v: SpecJson) -> Option<SpecServerMessage> {
    match v {
        SpecJson::Obj(fs) => match dec_field_str(fs, "cmd"@) {
            Some(tag) => {
                if tag == "ReceivedItems"@ {
                    match dec_received_items(v) {
                        Some(p) => Some(SpecServerMessage::ReceivedItems(p)),
                        None => None,
                    }
                } else if tag == "LocationInfo"@ {
                    match dec_location_info(v) {
                        Some(p) => Some(SpecServerMessage::LocationInfo(p)),
                        None => None,
                    }
                } else if tag == "RoomUpdate"@ {
                    match dec_room_update(v) {
                        Some(p) => Some(SpecServerMessage::RoomUpdate(p)),
                        None => None,
                    }
                } else if tag == "PrintJSON"@ {
                    match dec_printjson(v) {
                        Some(p) => Some(SpecServerMessage::PrintJSON(p)),
                        None => None,
                    }
                } else if tag == "Bounced"@ {
                    match dec_bounced(v) {
                        Some(p) => Some(SpecServerMessage::Bounced(p)),
                        None => None,
                    }
                } else if tag == "Retrieved"@ {
                    match dec_retrieved(v) {
                        Some(p) => Some(SpecServerMessage::Retrieved(p)),
                        None => None,
                    }
                } else if tag == "SetReply"@ {
                    match dec_set_reply(v) {
                        Some(p) => Some(SpecServerMessage::SetReply(p)),
                        None => None,
                    }
                } else if tag == "InvalidPacket"@ {
                    match dec_invalid_packet(v) {
                        Some(p) => Some(SpecServerMessage::InvalidPacket(p)),
                        None => None,
                    }
                } else {
                    None
                }
            }
            None => None,
        },
        _ => None,
    }
}

pub fn decode_server(v: &JsonValue) -> (r: Option<ServerMessage>)
    ensures
        opt_view(r) == dec_server(v@),
{
    let fields = match v {
        JsonValue::Obj(fields) => fields,
        _ => { return None },
    };
    let tag = match obj_get(fields, "cmd") {
        Some(JsonValue::Str(s)) => s,
        _ => { return None },
    };
    if str_is(tag, "ReceivedItems") {
        match decode_received_items(v) {
            Some(p) => Some(ServerMessage::ReceivedItems(p)),
            None => None,
        }
    } else if str_is(tag, "LocationInfo") {
        match decode_location_info(v) {
            Some(p) => Some(ServerMessage::LocationInfo(p)),
            None => None,
        }
    } else if str_is(tag, "RoomUpdate") {
        match decode_room_update(v) {
            Some(p) => Some(ServerMessage::RoomUpdate(p)),
            None => None,
        }
    } else if str_is(tag, "PrintJSON") {
        match decode_printjson(v) {
            Some(p) => Some(ServerMessage::PrintJSON(p)),
            None => None,
        }
    } else if str_is(tag, "Bounced") {
        match decode_bounced(v) {
            Some(p) => Some(ServerMessage::Bounced(p)),
            None => None,
        }
    } else if str_is(tag, "Retrieved") {
        match decode_retrieved(v) {
            Some(p) => Some(ServerMessage::Retrieved(p)),
            None => None,
        }
    } else if str_is(tag, "SetReply") {
        match decode_set_reply(v) {
            Some(p) => Some(ServerMessage::SetReply(p)),
            None => None,
        }
    } else if str_is(tag, "InvalidPacket") {
        match decode_invalid_packet(v) {
            Some(p) => Some(ServerMessage::InvalidPacket(p)),
            None => None,
        }
    } else {
        None
    }
}

/// Decoding inverts encoding for every pre-authentication server message.
pub proof fn lemma_anonymous_roundtrip(m: SpecAnonymousServerMessage)
    requires
        m matches SpecAnonymousServerMessage::RoomInfo(r) ==> dec_number(r.time) == Some(r.time),
    ensures
        dec_anonymous(enc_anonymous(m)) == Some(m),
{
    assert("RoomInfo"@ != "ConnectionRefused"@) by {
        reveal_strlit("RoomInfo");
        reveal_strlit("ConnectionRefused");
        assert("RoomInfo"@[0] == 'R');
        assert("ConnectionRefused"@[0] == 'C');
    }
    assert("RoomInfo"@ != "Connected"@) by {
        reveal_strlit("RoomInfo");
        reveal_strlit("Connected");
        assert("RoomInfo"@[0] == 'R');
        assert("Connected"@[0] == 'C');
    }
    assert("RoomInfo"@ != "DataPackage"@) by {
        reveal_strlit("RoomInfo");
        reveal_strlit("DataPackage");
        assert("RoomInfo"@[0] == 'R');
        assert("DataPackage"@[0] == 'D');
    }
    assert("RoomInfo"@ != "InvalidPacket"@) by {
        reveal_strlit("RoomInfo");
        reveal_strlit("InvalidPacket");
        assert("RoomInfo"@[0] == 'R');
        assert("InvalidPacket"@[0] == 'I');
    }
    assert("ConnectionRefused"@ != "Connected"@) by {
        reveal_strlit("ConnectionRefused");
        reveal_strlit("Connected");
        assert("ConnectionRefused"@[7] == 'i');
        assert("Connected"@[7] == 'e');
    }
    assert("ConnectionRefused"@ != "DataPackage"@) by {
        reveal_strlit("ConnectionRefused");
        reveal_strlit("DataPackage");
        assert("ConnectionRefused"@[0] == 'C');
        assert("DataPackage"@[0] == 'D');
    }
    assert("ConnectionRefused"@ != "InvalidPacket"@) by {
        reveal_strlit("ConnectionRefused");
        reveal_strlit("InvalidPacket");
        assert("ConnectionRefused"@[0] == 'C');
        assert("InvalidPacket"@[0] == 'I');
    }
    assert("Connected"@ != "DataPackage"@) by {
        reveal_strlit("Connected");
        reveal_strlit("DataPackage");
        assert("Connected"@[0] == 'C');
        assert("DataPackage"@[0] == 'D');
    }
    assert("Connected"@ != "InvalidPacket"@) by {
        reveal_strlit("Connected");
        reveal_strlit("InvalidPacket");
        assert("Connected"@[0] == 'C');
        assert("InvalidPacket"@[0] == 'I');
    }
    assert("DataPackage"@ != "InvalidPacket"@) by {
        reveal_strlit("DataPackage");
        reveal_strlit("InvalidPacket");
        assert("DataPackage"@[0] == 'D');
        assert("InvalidPacket"@[0] == 'I');
    }
    let pre = seq![("cmd"@, SpecJson::Str(anonymous_tag(m)))];
    let fs = enc_anonymous(m)->Obj_0;
    lemma_obj_get_at(fs, "cmd"@, 0);
    match m {
        SpecAnonymousServerMessage::RoomInfo(p) => {
            lemma_room_info_roundtrip(p, pre);
        }
        SpecAnonymousServerMessage::ConnectionRefused(p) => {
            lemma_connection_refused_roundtrip(p, pre);
        }
        SpecAnonymousServerMessage::Connected(p) => {
            lemma_connected_roundtrip(p, pre);
        }
        SpecAnonymousServerMessage::DataPackage(p) => {
            lemma_data_package_roundtrip(p, pre);
        }
        SpecAnonymousServerMessage::InvalidPacket(p) => {
            lemma_invalid_packet_roundtrip(p, pre);
        }
    }
}

/// Decoding inverts encoding for every post-authentication server message.
pub proof fn lemma_server_roundtrip(m: SpecServerMessage)
    ensures
        dec_server(enc_server(m)) == Some(m),
{
    assert("ReceivedItems"@ != "LocationInfo"@) by {
        reveal_strlit("ReceivedItems");
        reveal_strlit("LocationInfo");
        assert("ReceivedItems"@[0] == 'R');
        assert("LocationInfo"@[0] == 'L');
    }
    assert("ReceivedItems"@ != "RoomUpdate"@) by {
        reveal_strlit("ReceivedItems");
        reveal_strlit("RoomUpdate");
        assert("ReceivedItems"@[1] == 'e');
        assert("RoomUpdate"@[1] == 'o');
    }
    assert("ReceivedItems"@ != "PrintJSON"@) by {
        reveal_strlit("ReceivedItems");
        reveal_strlit("PrintJSON");
        assert("ReceivedItems"@[0] == 'R');
        assert("PrintJSON"@[0] == 'P');
    }
    assert("ReceivedItems"@ != "Bounced"@) by {
        reveal_strlit("ReceivedItems");
        reveal_strlit("Bounced");
        assert("ReceivedItems"@[0] == 'R');
        assert("Bounced"@[0] == 'B');
    }
    assert("ReceivedItems"@ != "Retrieved"@) by {
        reveal_strlit("ReceivedItems");
        reveal_strlit("Retrieved");
        assert("ReceivedItems"@[2] == 'c');
        assert("Retrieved"@[2] == 't');
    }
    assert("ReceivedItems"@ != "SetReply"@) by {
        reveal_strlit("ReceivedItems");
        reveal_strlit("SetReply");
        assert("ReceivedItems"@[0] == 'R');
        assert("SetReply"@[0] == 'S');
    }
    assert("ReceivedItems"@ != "InvalidPacket"@) by {
        reveal_strlit("ReceivedItems");
        reveal_strlit("InvalidPacket");
        assert("ReceivedItems"@[0] == 'R');
        assert("InvalidPacket"@[0] == 'I');
    }
    assert("LocationInfo"@ != "RoomUpdate"@) by {
        reveal_strlit("LocationInfo");
        reveal_strlit("RoomUpdate");
        assert("LocationInfo"@[0] == 'L');
        assert("RoomUpdate"@[0] == 'R');
    }
    assert("LocationInfo"@ != "PrintJSON"@) by {
        reveal_strlit("LocationInfo");
        reveal_strlit("PrintJSON");
        assert("LocationInfo"@[0] == 'L');
        assert("PrintJSON"@[0] == 'P');
    }
    assert("LocationInfo"@ != "Bounced"@) by {
        reveal_strlit("LocationInfo");
        reveal_strlit("Bounced");
        assert("LocationInfo"@[0] == 'L');
        assert("Bounced"@[0] == 'B');
    }
    assert("LocationInfo"@ != "Retrieved"@) by {
        reveal_strlit("LocationInfo");
        reveal_strlit("Retrieved");
        assert("LocationInfo"@[0] == 'L');
        assert("Retrieved"@[0] == 'R');
    }
    assert("LocationInfo"@ != "SetReply"@) by {
        reveal_strlit("LocationInfo");
        reveal_strlit("SetReply");
        assert("LocationInfo"@[0] == 'L');
        assert("SetReply"@[0] == 'S');
    }
    assert("LocationInfo"@ != "InvalidPacket"@) by {
        reveal_strlit("LocationInfo");
        reveal_strlit("InvalidPacket");
        assert("LocationInfo"@[0] == 'L');
        assert("InvalidPacket"@[0] == 'I');
    }
    assert("RoomUpdate"@ != "PrintJSON"@) by {
        reveal_strlit("RoomUpdate");
        reveal_strlit("PrintJSON");
        assert("RoomUpdate"@[0] == 'R');
        assert("PrintJSON"@[0] == 'P');
    }
    assert("RoomUpdate"@ != "Bounced"@) by {
        reveal_strlit("RoomUpdate");
        reveal_strlit("Bounced");
        assert("RoomUpdate"@[0] == 'R');
        assert("Bounced"@[0] == 'B');
    }
    assert("RoomUpdate"@ != "Retrieved"@) by {
        reveal_strlit("RoomUpdate");
        reveal_strlit("Retrieved");
        assert("RoomUpdate"@[1] == 'o');
        assert("Retrieved"@[1] == 'e');
    }
    assert("RoomUpdate"@ != "SetReply"@) by {
        reveal_strlit("RoomUpdate");
        reveal_strlit("SetReply");
        assert("RoomUpdate"@[0] == 'R');
        assert("SetReply"@[0] == 'S');
    }
    assert("RoomUpdate"@ != "InvalidPacket"@) by {
        reveal_strlit("RoomUpdate");
        reveal_strlit("InvalidPacket");
        assert("RoomUpdate"@[0] == 'R');
        assert("InvalidPacket"@[0] == 'I');
    }
    assert("PrintJSON"@ != "Bounced"@) by {
        reveal_strlit("PrintJSON");
        reveal_strlit("Bounced");
        assert("PrintJSON"@[0] == 'P');
        assert("Bounced"@[0] == 'B');
    }
    assert("PrintJSON"@ != "Retrieved"@) by {
        reveal_strlit("PrintJSON");
        reveal_strlit("Retrieved");
        assert("PrintJSON"@[0] == 'P');
        assert("Retrieved"@[0] == 'R');
    }
    assert("PrintJSON"@ != "SetReply"@) by {
        reveal_strlit("PrintJSON");
        reveal_strlit("SetReply");
        assert("PrintJSON"@[0] == 'P');
        assert("SetReply"@[0] == 'S');
    }
    assert("PrintJSON"@ != "InvalidPacket"@) by {
        reveal_strlit("PrintJSON");
        reveal_strlit("InvalidPacket");
        assert("PrintJSON"@[0] == 'P');
        assert("InvalidPacket"@[0] == 'I');
    }
    assert("Bounced"@ != "Retrieved"@) by {
        reveal_strlit("Bounced");
        reveal_strlit("Retrieved");
        assert("Bounced"@[0] == 'B');
        assert("Retrieved"@[0] == 'R');
    }
    assert("Bounced"@ != "SetReply"@) by {
        reveal_strlit("Bounced");
        reveal_strlit("SetReply");
        assert("Bounced"@[0] == 'B');
        assert("SetReply"@[0] == 'S');
    }
    assert("Bounced"@ != "InvalidPacket"@) by {
        reveal_strlit("Bounced");
        reveal_strlit("InvalidPacket");
        assert("Bounced"@[0] == 'B');
        assert("InvalidPacket"@[0] == 'I');
    }
    assert("Retrieved"@ != "SetReply"@) by {
        reveal_strlit("Retrieved");
        reveal_strlit("SetReply");
        assert("Retrieved"@[0] == 'R');
        assert("SetReply"@[0] == 'S');
    }
    assert("Retrieved"@ != "InvalidPacket"@) by {
        reveal_strlit("Retrieved");
        reveal_strlit("InvalidPacket");
        assert("Retrieved"@[0] == 'R');
        assert("InvalidPacket"@[0] == 'I');
    }
    assert("SetReply"@ != "InvalidPacket"@) by {
        reveal_strlit("SetReply");
        reveal_strlit("InvalidPacket");
        assert("SetReply"@[0] == 'S');
        assert("InvalidPacket"@[0] == 'I');
    }
    let pre = seq![("cmd"@, SpecJson::Str(server_tag(m)))];
    let fs = enc_server(m)->Obj_0;
    lemma_obj_get_at(fs, "cmd"@, 0);
    match m {
        SpecServerMessage::ReceivedItems(p) => {
            lemma_received_items_roundtrip(p, pre);
        }
        SpecServerMessage::LocationInfo(p) => {
            lemma_location_info_roundtrip(p, pre);
        }
        SpecServerMessage::RoomUpdate(p) => {
            assert(enc_server(m)->Obj_0 =~= pre);
        }
        SpecServerMessage::PrintJSON(p) => {
            lemma_printjson_roundtrip(p, pre);
        }
        SpecServerMessage::Bounced(p) => {
            lemma_bounced_roundtrip(p, pre);
        }
        SpecServerMessage::Retrieved(p) => {
            lemma_retrieved_roundtrip(p, pre);
        }
        SpecServerMessage::SetReply(p) => {
            lemma_set_reply_roundtrip(p, pre);
        }
        SpecServerMessage::InvalidPacket(p) => {
            lemma_invalid_packet_roundtrip(p, pre);
        }
    }
}

} // verus!
