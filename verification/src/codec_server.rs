//! Codec for the server-to-client payloads and the two inbound message
//! families: the full catalogue and its pre-authentication subset.

use vstd::prelude::*;

use crate::codec::{enc_entries, lemma_dec_enc_all, lemma_dec_enc_entries, lemma_obj_get_at, obj_get, opt_view};
use crate::codec_arrays::{
    clone_fields, dec_str_entries, dec_str_seq, decode_permission_entries, decode_slot_entries,
    decode_str_entries, decode_strings, dec_permission_entries, dec_slot_entries,
    enc_permission_entries, enc_str_seq, lemma_deep_fields, lemma_permission_entries_roundtrip,
    lemma_str_seq_roundtrip,
};
use crate::codec_composite::{
    dec_game_data, dec_id_table, decode_id_table, enc_game_data, enc_id_table,
    lemma_game_data_roundtrip, lemma_id_table_roundtrip,
};
use crate::codec_print::{dec_printjson, decode_printjson, enc_printjson_fields,
    lemma_printjson_roundtrip};
use crate::codec_values::{
    dec_field, dec_field_bool, dec_field_i64, dec_field_opt_str, dec_field_str, dec_item,
    dec_player, dec_problem_type, dec_refusal, dec_slot, dec_version, decode_item, decode_player,
    decode_problem_type, decode_refusal, decode_version, enc_item, enc_player, enc_problem_type,
    enc_refusal, enc_slot, enc_version, lemma_item_roundtrip, lemma_player_roundtrip,
    lemma_problem_type_roundtrip, lemma_refusal_roundtrip, lemma_slot_roundtrip,
    lemma_version_roundtrip, str_is,
};
use crate::json::{model_of_fields, model_of_seq, spec_obj_get, JsonValue, SpecJson};
use crate::protocol::{
    deep, AnonymousServerMessage, Bounced, Connected, ConnectionRefused, DataPackage,
    DataPackageObject, InvalidPacket, LocationInfo, NetworkItem, ReceivedItems, Retrieved,
    RoomInfo, RoomUpdate, ServerMessage, SetReply, SpecAnonymousServerMessage, SpecBounced,
    SpecConnected, SpecConnectionRefused, SpecDataPackage, SpecDataPackageObject,
    SpecInvalidPacket, SpecLocationInfo, SpecNetworkPlayer, SpecReceivedItems, SpecRetrieved,
    SpecRoomInfo, SpecServerMessage, SpecSetReply, ConnectionRefusedError,
};

verus! {

broadcast use {vstd::std_specs::vec::group_vec_axioms, vstd::seq::group_seq_axioms};

// ---------------------------------------------------------------------------
// Sequence forms of the value encoders
// ---------------------------------------------------------------------------
pub open spec fn enc_item_seq(s: Seq<NetworkItem>) -> Seq<SpecJson> {
    s.map_values(|it: NetworkItem| enc_item(it))
}

pub open spec fn enc_player_seq(s: Seq<SpecNetworkPlayer>) -> Seq<SpecJson> {
    s.map_values(|p: SpecNetworkPlayer| enc_player(p))
}

pub open spec fn enc_refusal_seq(s: Seq<ConnectionRefusedError>) -> Seq<SpecJson> {
    s.map_values(|e: ConnectionRefusedError| enc_refusal(e))
}

pub open spec fn enc_str_table(s: Seq<(Seq<char>, Seq<char>)>) -> SpecJson {
    SpecJson::Obj(enc_entries(s, |t: Seq<char>| SpecJson::Str(t)))
}

pub open spec fn enc_slot_table(s: Seq<(Seq<char>, crate::protocol::SpecNetworkSlot)>) -> SpecJson {
    SpecJson::Obj(enc_entries(s, |t: crate::protocol::SpecNetworkSlot| enc_slot(t)))
}

pub open spec fn enc_game_data_table(s: Seq<(Seq<char>, crate::protocol::SpecGameData)>) -> SpecJson {
    SpecJson::Obj(enc_entries(s, |g: crate::protocol::SpecGameData| enc_game_data(g)))
}

pub proof fn lemma_item_seq_roundtrip(s: Seq<NetworkItem>)
    ensures
        crate::codec_arrays::dec_item_seq(enc_item_seq(s)) == Some(s),
{
    let enc = |it: NetworkItem| enc_item(it);
    let d = |v: SpecJson| dec_item(v);
    assert forall|i: int| 0 <= i < s.len() implies #[trigger] d(enc(s[i])) == Some(s[i]) by {
        lemma_item_roundtrip(s[i]);
    }
    lemma_dec_enc_all(s, enc, d);
}

pub proof fn lemma_player_seq_roundtrip(s: Seq<SpecNetworkPlayer>)
    ensures
        crate::codec_arrays::dec_player_seq(enc_player_seq(s)) == Some(s),
{
    let enc = |p: SpecNetworkPlayer| enc_player(p);
    let d = |v: SpecJson| dec_player(v);
    assert forall|i: int| 0 <= i < s.len() implies #[trigger] d(enc(s[i])) == Some(s[i]) by {
        lemma_player_roundtrip(s[i]);
    }
    lemma_dec_enc_all(s, enc, d);
}

pub proof fn lemma_refusal_seq_roundtrip(s: Seq<ConnectionRefusedError>)
    ensures
        crate::codec_arrays::dec_refusal_seq(enc_refusal_seq(s)) == Some(s),
{
    let enc = |e: ConnectionRefusedError| enc_refusal(e);
    let d = |v: SpecJson| dec_refusal(v);
    assert forall|i: int| 0 <= i < s.len() implies #[trigger] d(enc(s[i])) == Some(s[i]) by {
        lemma_refusal_roundtrip(s[i]);
    }
    lemma_dec_enc_all(s, enc, d);
}

pub proof fn lemma_str_table_roundtrip(s: Seq<(Seq<char>, Seq<char>)>)
    ensures
        dec_str_entries(enc_str_table(s)->Obj_0) == Some(s),
{
    let enc = |t: Seq<char>| SpecJson::Str(t);
    let d = |v: SpecJson| crate::codec::dec_str(v);
    assert(forall|i: int| 0 <= i < s.len() ==> #[trigger] d(enc(s[i].1)) == Some(s[i].1));
    lemma_dec_enc_entries(s, enc, d);
}

pub proof fn lemma_slot_table_roundtrip(s: Seq<(Seq<char>, crate::protocol::SpecNetworkSlot)>)
    ensures
        dec_slot_entries(enc_slot_table(s)->Obj_0) == Some(s),
{
    let enc = |t: crate::protocol::SpecNetworkSlot| enc_slot(t);
    let d = |v: SpecJson| dec_slot(v);
    assert forall|i: int| 0 <= i < s.len() implies #[trigger] d(enc(s[i].1)) == Some(s[i].1) by {
        lemma_slot_roundtrip(s[i].1);
    }
    lemma_dec_enc_entries(s, enc, d);
}

pub proof fn lemma_game_data_table_roundtrip(s: Seq<(Seq<char>, crate::protocol::SpecGameData)>)
    ensures
        crate::codec_arrays::dec_game_data_entries(enc_game_data_table(s)->Obj_0) == Some(s),
{
    let enc = |g: crate::protocol::SpecGameData| enc_game_data(g);
    let d = |v: SpecJson| dec_game_data(v);
    assert forall|i: int| 0 <= i < s.len() implies #[trigger] d(enc(s[i].1)) == Some(s[i].1) by {
        lemma_game_data_roundtrip(s[i].1);
    }
    lemma_dec_enc_entries(s, enc, d);
}

/// A JSON number of either form: the server's clock field.
pub open spec fn dec_number(v: SpecJson) -> Option<SpecJson> {
    match v {
        SpecJson::Int(_) => Some(v),
        SpecJson::Real(_) => Some(v),
        _ => None,
    }
}

// ---------------------------------------------------------------------------
// RoomInfo
// ---------------------------------------------------------------------------
pub open spec fn enc_room_info_fields(r: SpecRoomInfo) -> Seq<(Seq<char>, SpecJson)> {
    seq![
        ("version"@, enc_version(r.version)),
        ("generator_version"@, enc_version(r.generator_version)),
        ("tags"@, SpecJson::Arr(enc_str_seq(r.tags))),
        ("password"@, SpecJson::Bool(r.password_required)),
        ("permissions"@, SpecJson::Obj(enc_permission_entries(r.permissions))),
        ("hint_cost"@, SpecJson::Int(r.hint_cost as int)),
        ("location_check_points"@, SpecJson::Int(r.location_check_points as int)),
        ("games"@, SpecJson::Arr(enc_str_seq(r.games))),
        ("datapackage_versions"@, enc_id_table(r.datapackage_versions)),
        ("datapackage_checksums"@, enc_str_table(r.datapackage_checksums)),
        ("seed_name"@, SpecJson::Str(r.seed_name)),
        ("time"@, r.time),
    ]
}

pub open spec fn enc_room_info(r: SpecRoomInfo) -> SpecJson {
    SpecJson::Obj(enc_room_info_fields(r))
}

pub open spec fn dec_room_info(v: SpecJson) -> Option<SpecRoomInfo> {
    match v {
        SpecJson::Obj(fs) => match (
            dec_field(fs, "version"@),
            dec_field(fs, "generator_version"@),
            dec_field(fs, "tags"@),
            dec_field_bool(fs, "password"@),
            dec_field(fs, "permissions"@),
            dec_field_i64(fs, "hint_cost"@),
        ) {
            (Some(ver), Some(gen), Some(SpecJson::Arr(tags)), Some(password_required), Some(SpecJson::Obj(perms)), Some(hint_cost)) => match (
                dec_field_i64(fs, "location_check_points"@),
                dec_field(fs, "games"@),
                dec_field(fs, "datapackage_versions"@),
                dec_field(fs, "datapackage_checksums"@),
                dec_field_str(fs, "seed_name"@),
                dec_field(fs, "time"@),
            ) {
                (Some(location_check_points), Some(SpecJson::Arr(games)), Some(dv), Some(SpecJson::Obj(dc)), Some(seed_name), Some(t)) => match (
                    dec_version(ver),
                    dec_version(gen),
                    dec_str_seq(tags),
                    dec_permission_entries(perms),
                    dec_str_seq(games),
                    dec_id_table(dv),
                    dec_str_entries(dc),
                    dec_number(t),
                ) {
                    (
                        Some(version),
                        Some(generator_version),
                        Some(tags),
                        Some(permissions),
                        Some(games),
                        Some(datapackage_versions),
                        Some(datapackage_checksums),
                        Some(time),
                    ) => Some(
                        SpecRoomInfo {
                            version,
                            generator_version,
                            tags,
                            password_required,
                            permissions,
                            hint_cost,
                            location_check_points,
                            games,
                            datapackage_versions,
                            datapackage_checksums,
                            seed_name,
                            time,
                        },
                    ),
                    _ => None,
                },
                _ => None,
            },
            _ => None,
        },
        _ => None,
    }
}

pub fn decode_room_info(v: &JsonValue) -> (r: Option<RoomInfo>)
    ensures
        opt_view(r) == dec_room_info(v@),
{
    let fields = match v {
        JsonValue::Obj(fields) => fields,
        _ => { return None },
    };
    let version = match obj_get(fields, "version") {
        Some(x) => match decode_version(x) {
            Some(x) => x,
            None => { return None },
        },
        None => { return None },
    };
    let generator_version = match obj_get(fields, "generator_version") {
        Some(x) => match decode_version(x) {
            Some(x) => x,
            None => { return None },
        },
        None => { return None },
    };
    let tags = match obj_get(fields, "tags") {
        Some(JsonValue::Arr(items)) => match decode_strings(items) {
            Some(x) => x,
            None => { return None },
        },
        _ => { return None },
    };
    let password_required = match obj_get(fields, "password") {
        Some(JsonValue::Bool(b)) => *b,
        _ => { return None },
    };
    let permissions = match obj_get(fields, "permissions") {
        Some(JsonValue::Obj(pf)) => match decode_permission_entries(pf) {
            Some(x) => x,
            None => { return None },
        },
        _ => { return None },
    };
    let hint_cost = match obj_get(fields, "hint_cost") {
        Some(JsonValue::Int(i)) => *i,
        _ => { return None },
    };
    let location_check_points = match obj_get(fields, "location_check_points") {
        Some(JsonValue::Int(i)) => *i,
        _ => { return None },
    };
    let games = match obj_get(fields, "games") {
        Some(JsonValue::Arr(items)) => match decode_strings(items) {
            Some(x) => x,
            None => { return None },
        },
        _ => { return None },
    };
    let datapackage_versions = match obj_get(fields, "datapackage_versions") {
        Some(x) => match decode_id_table(x) {
            Some(x) => x,
            None => { return None },
        },
        None => { return None },
    };
    let datapackage_checksums = match obj_get(fields, "datapackage_checksums") {
        Some(JsonValue::Obj(cf)) => match decode_str_entries(cf) {
            Some(x) => x,
            None => { return None },
        },
        _ => { return None },
    };
    let seed_name = match obj_get(fields, "seed_name") {
        Some(JsonValue::Str(s)) => s.clone(),
        _ => { return None },
    };
    let time = match obj_get(fields, "time") {
        Some(t) => match t {
            JsonValue::Int(_) => t.duplicate(),
            JsonValue::Real(_) => t.duplicate(),
            _ => { return None },
        },
        None => { return None },
    };
    Some(
        RoomInfo {
            version,
            generator_version,
            tags,
            password_required,
            permissions,
            hint_cost,
            location_check_points,
            games,
            datapackage_versions,
            datapackage_checksums,
            seed_name,
            time,
        },
    )
}

pub proof fn lemma_room_info_roundtrip(r: SpecRoomInfo, pre: Seq<(Seq<char>, SpecJson)>)
    requires
        forall|j: int| 0 <= j < pre.len() ==> (#[trigger] pre[j]).0 == "cmd"@,
        dec_number(r.time) == Some(r.time),
    ensures
        dec_room_info(SpecJson::Obj(pre + enc_room_info_fields(r))) == Some(r),
{
    assert("cmd"@ != "version"@) by {
        reveal_strlit("cmd");
        reveal_strlit("version");
        assert("cmd"@[0] == 'c');
        assert("version"@[0] == 'v');
    }
    assert("cmd"@ != "generator_version"@) by {
        reveal_strlit("cmd");
        reveal_strlit("generator_version");
        assert("cmd"@[0] == 'c');
        assert("generator_version"@[0] == 'g');
    }
    assert("cmd"@ != "tags"@) by {
        reveal_strlit("cmd");
        reveal_strlit("tags");
        assert("cmd"@[0] == 'c');
        assert("tags"@[0] == 't');
    }
    assert("cmd"@ != "password"@) by {
        reveal_strlit("cmd");
        reveal_strlit("password");
        assert("cmd"@[0] == 'c');
        assert("password"@[0] == 'p');
    }
    assert("cmd"@ != "permissions"@) by {
        reveal_strlit("cmd");
        reveal_strlit("permissions");
        assert("cmd"@[0] == 'c');
        assert("permissions"@[0] == 'p');
    }
    assert("cmd"@ != "hint_cost"@) by {
        reveal_strlit("cmd");
        reveal_strlit("hint_cost");
        assert("cmd"@[0] == 'c');
        assert("hint_cost"@[0] == 'h');
    }
    assert("cmd"@ != "location_check_points"@) by {
        reveal_strlit("cmd");
        reveal_strlit("location_check_points");
        assert("cmd"@[0] == 'c');
        assert("location_check_points"@[0] == 'l');
    }
    assert("cmd"@ != "games"@) by {
        reveal_strlit("cmd");
        reveal_strlit("games");
        assert("cmd"@[0] == 'c');
        assert("games"@[0] == 'g');
    }
    assert("cmd"@ != "datapackage_versions"@) by {
        reveal_strlit("cmd");
        reveal_strlit("datapackage_versions");
        assert("cmd"@[0] == 'c');
        assert("datapackage_versions"@[0] == 'd');
    }
    assert("cmd"@ != "datapackage_checksums"@) by {
        reveal_strlit("cmd");
        reveal_strlit("datapackage_checksums");
        assert("cmd"@[0] == 'c');
        assert("datapackage_checksums"@[0] == 'd');
    }
    assert("cmd"@ != "seed_name"@) by {
        reveal_strlit("cmd");
        reveal_strlit("seed_name");
        assert("cmd"@[0] == 'c');
        assert("seed_name"@[0] == 's');
    }
    assert("cmd"@ != "time"@) by {
        reveal_strlit("cmd");
        reveal_strlit("time");
        assert("cmd"@[0] == 'c');
        assert("time"@[0] == 't');
    }
    assert("version"@ != "generator_version"@) by {
        reveal_strlit("version");
        reveal_strlit("generator_version");
        assert("version"@[0] == 'v');
        assert("generator_version"@[0] == 'g');
    }
    assert("version"@ != "tags"@) by {
        reveal_strlit("version");
        reveal_strlit("tags");
        assert("version"@[0] == 'v');
        assert("tags"@[0] == 't');
    }
    assert("version"@ != "password"@) by {
        reveal_strlit("version");
        reveal_strlit("password");
        assert("version"@[0] == 'v');
        assert("password"@[0] == 'p');
    }
    assert("version"@ != "permissions"@) by {
        reveal_strlit("version");
        reveal_strlit("permissions");
        assert("version"@[0] == 'v');
        assert("permissions"@[0] == 'p');
    }
    assert("version"@ != "hint_cost"@) by {
        reveal_strlit("version");
        reveal_strlit("hint_cost");
        assert("version"@[0] == 'v');
        assert("hint_cost"@[0] == 'h');
    }
    assert("version"@ != "location_check_points"@) by {
        reveal_strlit("version");
        reveal_strlit("location_check_points");
        assert("version"@[0] == 'v');
        assert("location_check_points"@[0] == 'l');
    }
    assert("version"@ != "games"@) by {
        reveal_strlit("version");
        reveal_strlit("games");
        assert("version"@[0] == 'v');
        assert("games"@[0] == 'g');
    }
    assert("version"@ != "datapackage_versions"@) by {
        reveal_strlit("version");
        reveal_strlit("datapackage_versions");
        assert("version"@[0] == 'v');
        assert("datapackage_versions"@[0] == 'd');
    }
    assert("version"@ != "datapackage_checksums"@) by {
        reveal_strlit("version");
        reveal_strlit("datapackage_checksums");
        assert("version"@[0] == 'v');
        assert("datapackage_checksums"@[0] == 'd');
    }
    assert("version"@ != "seed_name"@) by {
        reveal_strlit("version");
        reveal_strlit("seed_name");
        assert("version"@[0] == 'v');
        assert("seed_name"@[0] == 's');
    }
    assert("version"@ != "time"@) by {
        reveal_strlit("version");
        reveal_strlit("time");
        assert("version"@[0] == 'v');
        assert("time"@[0] == 't');
    }
    assert("generator_version"@ != "tags"@) by {
        reveal_strlit("generator_version");
        reveal_strlit("tags");
        assert("generator_version"@[0] == 'g');
        assert("tags"@[0] == 't');
    }
    assert("generator_version"@ != "password"@) by {
        reveal_strlit("generator_version");
        reveal_strlit("password");
        assert("generator_version"@[0] == 'g');
        assert("password"@[0] == 'p');
    }
    assert("generator_version"@ != "permissions"@) by {
        reveal_strlit("generator_version");
        reveal_strlit("permissions");
        assert("generator_version"@[0] == 'g');
        assert("permissions"@[0] == 'p');
    }
    assert("generator_version"@ != "hint_cost"@) by {
        reveal_strlit("generator_version");
        reveal_strlit("hint_cost");
        assert("generator_version"@[0] == 'g');
        assert("hint_cost"@[0] == 'h');
    }
    assert("generator_version"@ != "location_check_points"@) by {
        reveal_strlit("generator_version");
        reveal_strlit("location_check_points");
        assert("generator_version"@[0] == 'g');
        assert("location_check_points"@[0] == 'l');
    }
    assert("generator_version"@ != "games"@) by {
        reveal_strlit("generator_version");
        reveal_strlit("games");
        assert("generator_version"@[1] == 'e');
        assert("games"@[1] == 'a');
    }
    assert("generator_version"@ != "datapackage_versions"@) by {
        reveal_strlit("generator_version");
        reveal_strlit("datapackage_versions");
        assert("generator_version"@[0] == 'g');
        assert("datapackage_versions"@[0] == 'd');
    }
    assert("generator_version"@ != "datapackage_checksums"@) by {
        reveal_strlit("generator_version");
        reveal_strlit("datapackage_checksums");
        assert("generator_version"@[0] == 'g');
        assert("datapackage_checksums"@[0] == 'd');
    }
    assert("generator_version"@ != "seed_name"@) by {
        reveal_strlit("generator_version");
        reveal_strlit("seed_name");
        assert("generator_version"@[0] == 'g');
        assert("seed_name"@[0] == 's');
    }
    assert("generator_version"@ != "time"@) by {
        reveal_strlit("generator_version");
        reveal_strlit("time");
        assert("generator_version"@[0] == 'g');
        assert("time"@[0] == 't');
    }
    assert("tags"@ != "password"@) by {
        reveal_strlit("tags");
        reveal_strlit("password");
        assert("tags"@[0] == 't');
        assert("password"@[0] == 'p');
    }
    assert("tags"@ != "permissions"@) by {
        reveal_strlit("tags");
        reveal_strlit("permissions");
        assert("tags"@[0] == 't');
        assert("permissions"@[0] == 'p');
    }
    assert("tags"@ != "hint_cost"@) by {
        reveal_strlit("tags");
        reveal_strlit("hint_cost");
        assert("tags"@[0] == 't');
        assert("hint_cost"@[0] == 'h');
    }
    assert("tags"@ != "location_check_points"@) by {
        reveal_strlit("tags");
        reveal_strlit("location_check_points");
        assert("tags"@[0] == 't');
        assert("location_check_points"@[0] == 'l');
    }
    assert("tags"@ != "games"@) by {
        reveal_strlit("tags");
        reveal_strlit("games");
        assert("tags"@[0] == 't');
        assert("games"@[0] == 'g');
    }
    assert("tags"@ != "datapackage_versions"@) by {
        reveal_strlit("tags");
        reveal_strlit("datapackage_versions");
        assert("tags"@[0] == 't');
        assert("datapackage_versions"@[0] == 'd');
    }
    assert("tags"@ != "datapackage_checksums"@) by {
        reveal_strlit("tags");
        reveal_strlit("datapackage_checksums");
        assert("tags"@[0] == 't');
        assert("datapackage_checksums"@[0] == 'd');
    }
    assert("tags"@ != "seed_name"@) by {
        reveal_strlit("tags");
        reveal_strlit("seed_name");
        assert("tags"@[0] == 't');
        assert("seed_name"@[0] == 's');
    }
    assert("tags"@ != "time"@) by {
        reveal_strlit("tags");
        reveal_strlit("time");
        assert("tags"@[1] == 'a');
        assert("time"@[1] == 'i');
    }
    assert("password"@ != "permissions"@) by {
        reveal_strlit("password");
        reveal_strlit("permissions");
        assert("password"@[1] == 'a');
        assert("permissions"@[1] == 'e');
    }
    assert("password"@ != "hint_cost"@) by {
        reveal_strlit("password");
        reveal_strlit("hint_cost");
        assert("password"@[0] == 'p');
        assert("hint_cost"@[0] == 'h');
    }
    assert("password"@ != "location_check_points"@) by {
        reveal_strlit("password");
        reveal_strlit("location_check_points");
        assert("password"@[0] == 'p');
        assert("location_check_points"@[0] == 'l');
    }
    assert("password"@ != "games"@) by {
        reveal_strlit("password");
        reveal_strlit("games");
        assert("password"@[0] == 'p');
        assert("games"@[0] == 'g');
    }
    assert("password"@ != "datapackage_versions"@) by {
        reveal_strlit("password");
        reveal_strlit("datapackage_versions");
        assert("password"@[0] == 'p');
        assert("datapackage_versions"@[0] == 'd');
    }
    assert("password"@ != "datapackage_checksums"@) by {
        reveal_strlit("password");
        reveal_strlit("datapackage_checksums");
        assert("password"@[0] == 'p');
        assert("datapackage_checksums"@[0] == 'd');
    }
    assert("password"@ != "seed_name"@) by {
        reveal_strlit("password");
        reveal_strlit("seed_name");
        assert("password"@[0] == 'p');
        assert("seed_name"@[0] == 's');
    }
    assert("password"@ != "time"@) by {
        reveal_strlit("password");
        reveal_strlit("time");
        assert("password"@[0] == 'p');
        assert("time"@[0] == 't');
    }
    assert("permissions"@ != "hint_cost"@) by {
        reveal_strlit("permissions");
        reveal_strlit("hint_cost");
        assert("permissions"@[0] == 'p');
        assert("hint_cost"@[0] == 'h');
    }
    assert("permissions"@ != "location_check_points"@) by {
        reveal_strlit("permissions");
        reveal_strlit("location_check_points");
        assert("permissions"@[0] == 'p');
        assert("location_check_points"@[0] == 'l');
    }
    assert("permissions"@ != "games"@) by {
        reveal_strlit("permissions");
        reveal_strlit("games");
        assert("permissions"@[0] == 'p');
        assert("games"@[0] == 'g');
    }
    assert("permissions"@ != "datapackage_versions"@) by {
        reveal_strlit("permissions");
        reveal_strlit("datapackage_versions");
        assert("permissions"@[0] == 'p');
        assert("datapackage_versions"@[0] == 'd');
    }
    assert("permissions"@ != "datapackage_checksums"@) by {
        reveal_strlit("permissions");
        reveal_strlit("datapackage_checksums");
        assert("permissions"@[0] == 'p');
        assert("datapackage_checksums"@[0] == 'd');
    }
    assert("permissions"@ != "seed_name"@) by {
        reveal_strlit("permissions");
        reveal_strlit("seed_name");
        assert("permissions"@[0] == 'p');
        assert("seed_name"@[0] == 's');
    }
    assert("permissions"@ != "time"@) by {
        reveal_strlit("permissions");
        reveal_strlit("time");
        assert("permissions"@[0] == 'p');
        assert("time"@[0] == 't');
    }
    assert("hint_cost"@ != "location_check_points"@) by {
        reveal_strlit("hint_cost");
        reveal_strlit("location_check_points");
        assert("hint_cost"@[0] == 'h');
        assert("location_check_points"@[0] == 'l');
    }
    assert("hint_cost"@ != "games"@) by {
        reveal_strlit("hint_cost");
        reveal_strlit("games");
        assert("hint_cost"@[0] == 'h');
        assert("games"@[0] == 'g');
    }
    assert("hint_cost"@ != "datapackage_versions"@) by {
        reveal_strlit("hint_cost");
        reveal_strlit("datapackage_versions");
        assert("hint_cost"@[0] == 'h');
        assert("datapackage_versions"@[0] == 'd');
    }
    assert("hint_cost"@ != "datapackage_checksums"@) by {
        reveal_strlit("hint_cost");
        reveal_strlit("datapackage_checksums");
        assert("hint_cost"@[0] == 'h');
        assert("datapackage_checksums"@[0] == 'd');
    }
    assert("hint_cost"@ != "seed_name"@) by {
        reveal_strlit("hint_cost");
        reveal_strlit("seed_name");
        assert("hint_cost"@[0] == 'h');
        assert("seed_name"@[0] == 's');
    }
    assert("hint_cost"@ != "time"@) by {
        reveal_strlit("hint_cost");
        reveal_strlit("time");
        assert("hint_cost"@[0] == 'h');
        assert("time"@[0] == 't');
    }
    assert("location_check_points"@ != "games"@) by {
        reveal_strlit("location_check_points");
        reveal_strlit("games");
        assert("location_check_points"@[0] == 'l');
        assert("games"@[0] == 'g');
    }
    assert("location_check_points"@ != "datapackage_versions"@) by {
        reveal_strlit("location_check_points");
        reveal_strlit("datapackage_versions");
        assert("location_check_points"@[0] == 'l');
        assert("datapackage_versions"@[0] == 'd');
    }
    assert("location_check_points"@ != "datapackage_checksums"@) by {
        reveal_strlit("location_check_points");
        reveal_strlit("datapackage_checksums");
        assert("location_check_points"@[0] == 'l');
        assert("datapackage_checksums"@[0] == 'd');
    }
    assert("location_check_points"@ != "seed_name"@) by {
        reveal_strlit("location_check_points");
        reveal_strlit("seed_name");
        assert("location_check_points"@[0] == 'l');
        assert("seed_name"@[0] == 's');
    }
    assert("location_check_points"@ != "time"@) by {
        reveal_strlit("location_check_points");
        reveal_strlit("time");
        assert("location_check_points"@[0] == 'l');
        assert("time"@[0] == 't');
    }
    assert("games"@ != "datapackage_versions"@) by {
        reveal_strlit("games");
        reveal_strlit("datapackage_versions");
        assert("games"@[0] == 'g');
        assert("datapackage_versions"@[0] == 'd');
    }
    assert("games"@ != "datapackage_checksums"@) by {
        reveal_strlit("games");
        reveal_strlit("datapackage_checksums");
        assert("games"@[0] == 'g');
        assert("datapackage_checksums"@[0] == 'd');
    }
    assert("games"@ != "seed_name"@) by {
        reveal_strlit("games");
        reveal_strlit("seed_name");
        assert("games"@[0] == 'g');
        assert("seed_name"@[0] == 's');
    }
    assert("games"@ != "time"@) by {
        reveal_strlit("games");
        reveal_strlit("time");
        assert("games"@[0] == 'g');
        assert("time"@[0] == 't');
    }
    assert("datapackage_versions"@ != "datapackage_checksums"@) by {
        reveal_strlit("datapackage_versions");
        reveal_strlit("datapackage_checksums");
        assert("datapackage_versions"@[12] == 'v');
        assert("datapackage_checksums"@[12] == 'c');
    }
    assert("datapackage_versions"@ != "seed_name"@) by {
        reveal_strlit("datapackage_versions");
        reveal_strlit("seed_name");
        assert("datapackage_versions"@[0] == 'd');
        assert("seed_name"@[0] == 's');
    }
    assert("datapackage_versions"@ != "time"@) by {
        reveal_strlit("datapackage_versions");
        reveal_strlit("time");
        assert("datapackage_versions"@[0] == 'd');
        assert("time"@[0] == 't');
    }
    assert("datapackage_checksums"@ != "seed_name"@) by {
        reveal_strlit("datapackage_checksums");
        reveal_strlit("seed_name");
        assert("datapackage_checksums"@[0] == 'd');
        assert("seed_name"@[0] == 's');
    }
    assert("datapackage_checksums"@ != "time"@) by {
        reveal_strlit("datapackage_checksums");
        reveal_strlit("time");
        assert("datapackage_checksums"@[0] == 'd');
        assert("time"@[0] == 't');
    }
    assert("seed_name"@ != "time"@) by {
        reveal_strlit("seed_name");
        reveal_strlit("time");
        assert("seed_name"@[0] == 's');
        assert("time"@[0] == 't');
    }
    let fields = enc_room_info_fields(r);
    let m = pre + fields;
    let n = pre.len() as int;
    assert(forall|j: int| n <= j < m.len() ==> #[trigger] m[j] == fields[j - n]);
    assert(forall|j: int| 0 <= j < n ==> #[trigger] m[j] == pre[j]);
    lemma_obj_get_at(m, "version"@, n);
    lemma_obj_get_at(m, "generator_version"@, n + 1);
    lemma_obj_get_at(m, "tags"@, n + 2);
    lemma_obj_get_at(m, "password"@, n + 3);
    lemma_obj_get_at(m, "permissions"@, n + 4);
    lemma_obj_get_at(m, "hint_cost"@, n + 5);
    lemma_obj_get_at(m, "location_check_points"@, n + 6);
    lemma_obj_get_at(m, "games"@, n + 7);
    lemma_obj_get_at(m, "datapackage_versions"@, n + 8);
    lemma_obj_get_at(m, "datapackage_checksums"@, n + 9);
    lemma_obj_get_at(m, "seed_name"@, n + 10);
    lemma_obj_get_at(m, "time"@, n + 11);
    lemma_version_roundtrip(r.version);
    lemma_version_roundtrip(r.generator_version);
    lemma_str_seq_roundtrip(r.tags);
    lemma_permission_entries_roundtrip(r.permissions);
    lemma_str_seq_roundtrip(r.games);
    lemma_id_table_roundtrip(r.datapackage_versions);
    lemma_str_table_roundtrip(r.datapackage_checksums);
}

// ---------------------------------------------------------------------------
// ConnectionRefused
// ---------------------------------------------------------------------------
pub open spec fn enc_connection_refused_fields(c: SpecConnectionRefused) -> Seq<
    (Seq<char>, SpecJson),
> {
    seq![("errors"@, SpecJson::Arr(enc_refusal_seq(c.errors)))]
}

pub open spec fn enc_connection_refused(c: SpecConnectionRefused) -> SpecJson {
    SpecJson::Obj(enc_connection_refused_fields(c))
}

pub open spec fn dec_connection_refused(v: SpecJson) -> Option<SpecConnectionRefused> {
    match v {
        SpecJson::Obj(fs) => match dec_field(fs, "errors"@) {
            Some(SpecJson::Arr(items)) => match crate::codec_arrays::dec_refusal_seq(items) {
                Some(errors) => Some(SpecConnectionRefused { errors }),
                None => None,
            },
            _ => None,
        },
        _ => None,
    }
}

pub fn decode_connection_refused(v: &JsonValue) -> (r: Option<ConnectionRefused>)
    ensures
        opt_view(r) == dec_connection_refused(v@),
{
    let fields = match v {
        JsonValue::Obj(fields) => fields,
        _ => { return None },
    };
    let errors = match obj_get(fields, "errors") {
        Some(JsonValue::Arr(items)) => match crate::codec_arrays::decode_refusal_vec(items) {
            Some(x) => x,
            None => { return None },
        },
        _ => { return None },
    };
    Some(ConnectionRefused { errors })
}

pub proof fn lemma_connection_refused_roundtrip(
    c: SpecConnectionRefused,
    pre: Seq<(Seq<char>, SpecJson)>,
)
    requires
        forall|j: int| 0 <= j < pre.len() ==> (#[trigger] pre[j]).0 == "cmd"@,
    ensures
        dec_connection_refused(SpecJson::Obj(pre + enc_connection_refused_fields(c))) == Some(c),
{
    assert("cmd"@ != "errors"@) by {
        reveal_strlit("cmd");
        reveal_strlit("errors");
        assert("cmd"@[0] == 'c');
        assert("errors"@[0] == 'e');
    }
    let fields = enc_connection_refused_fields(c);
    let m = pre + fields;
    let n = pre.len() as int;
    assert(forall|j: int| n <= j < m.len() ==> #[trigger] m[j] == fields[j - n]);
    assert(forall|j: int| 0 <= j < n ==> #[trigger] m[j] == pre[j]);
    lemma_obj_get_at(m, "errors"@, n);
    lemma_refusal_seq_roundtrip(c.errors);
}

// ---------------------------------------------------------------------------
// Connected
// ---------------------------------------------------------------------------
pub open spec fn enc_connected_fields(c: SpecConnected) -> Seq<(Seq<char>, SpecJson)> {
    seq![
        ("team"@, SpecJson::Int(c.team as int)),
        ("slot"@, SpecJson::Int(c.slot as int)),
        ("players"@, SpecJson::Arr(enc_player_seq(c.players))),
        ("missing_locations"@, SpecJson::Arr(crate::codec_values::enc_i64_seq(c.missing_locations))),
        ("checked_locations"@, SpecJson::Arr(crate::codec_values::enc_i64_seq(c.checked_locations))),
        ("slot_data"@, SpecJson::Obj(c.slot_data)),
        ("slot_info"@, enc_slot_table(c.slot_info)),
        ("hint_points"@, SpecJson::Int(c.hint_points as int)),
    ]
}

pub open spec fn enc_connected(c: SpecConnected) -> SpecJson {
    SpecJson::Obj(enc_connected_fields(c))
}

pub open spec fn dec_connected(v: SpecJson) -> Option<SpecConnected> {
    match v {
        SpecJson::Obj(fs) => match (
            dec_field_i64(fs, "team"@),
            dec_field_i64(fs, "slot"@),
            dec_field(fs, "players"@),
            dec_field(fs, "missing_locations"@),
            dec_field(fs, "checked_locations"@),
            dec_field(fs, "slot_data"@),
            dec_field(fs, "slot_info"@),
            dec_field_i64(fs, "hint_points"@),
        ) {
            (
                Some(team),
                Some(slot),
                Some(SpecJson::Arr(pl)),
                Some(SpecJson::Arr(ml)),
                Some(SpecJson::Arr(cl)),
                Some(SpecJson::Obj(sd)),
                Some(SpecJson::Obj(si)),
                Some(hint_points),
            ) => match (
                crate::codec_arrays::dec_player_seq(pl),
                crate::codec_values::dec_i64_seq(ml),
                crate::codec_values::dec_i64_seq(cl),
                dec_slot_entries(si),
            ) {
                (Some(players), Some(missing_locations), Some(checked_locations), Some(slot_info)) => Some(
                    SpecConnected {
                        team,
                        slot,
                        players,
                        missing_locations,
                        checked_locations,
                        slot_data: sd,
                        slot_info,
                        hint_points,
                    },
                ),
                _ => None,
            },
            _ => None,
        },
        _ => None,
    }
}

pub fn decode_connected(v: &JsonValue) -> (r: Option<Connected>)
    ensures
        opt_view(r) == dec_connected(v@),
{
    let fields = match v {
        JsonValue::Obj(fields) => fields,
        _ => { return None },
    };
    let team = match obj_get(fields, "team") {
        Some(JsonValue::Int(i)) => *i,
        _ => { return None },
    };
    let slot = match obj_get(fields, "slot") {
        Some(JsonValue::Int(i)) => *i,
        _ => { return None },
    };
    let players = match obj_get(fields, "players") {
        Some(JsonValue::Arr(items)) => match crate::codec_arrays::decode_player_vec(items) {
            Some(x) => x,
            None => { return None },
        },
        _ => { return None },
    };
    let missing_locations = match obj_get(fields, "missing_locations") {
        Some(JsonValue::Arr(items)) => match crate::codec_values::decode_i64_vec(items) {
            Some(x) => x,
            None => { return None },
        },
        _ => { return None },
    };
    let checked_locations = match obj_get(fields, "checked_locations") {
        Some(JsonValue::Arr(items)) => match crate::codec_values::decode_i64_vec(items) {
            Some(x) => x,
            None => { return None },
        },
        _ => { return None },
    };
    let slot_data = match obj_get(fields, "slot_data") {
        Some(JsonValue::Obj(sd)) => clone_fields(sd),
        _ => { return None },
    };
    let slot_info = match obj_get(fields, "slot_info") {
        Some(JsonValue::Obj(si)) => match decode_slot_entries(si) {
            Some(x) => x,
            None => { return None },
        },
        _ => { return None },
    };
    let hint_points = match obj_get(fields, "hint_points") {
        Some(JsonValue::Int(i)) => *i,
        _ => { return None },
    };
    let r = Some(
        Connected {
            team,
            slot,
            players,
            missing_locations,
            checked_locations,
            slot_data,
            slot_info,
            hint_points,
        },
    );
    proof {
        lemma_deep_fields(r->Some_0.slot_data@);
        assert(opt_view(r)->Some_0 =~= dec_connected(v@)->Some_0);
    }
    r
}

pub proof fn lemma_connected_roundtrip(c: SpecConnected, pre: Seq<(Seq<char>, SpecJson)>)
    requires
        forall|j: int| 0 <= j < pre.len() ==> (#[trigger] pre[j]).0 == "cmd"@,
    ensures
        dec_connected(SpecJson::Obj(pre + enc_connected_fields(c))) == Some(c),
{
    assert("cmd"@ != "team"@) by {
        reveal_strlit("cmd");
        reveal_strlit("team");
        assert("cmd"@[0] == 'c');
        assert("team"@[0] == 't');
    }
    assert("cmd"@ != "slot"@) by {
        reveal_strlit("cmd");
        reveal_strlit("slot");
        assert("cmd"@[0] == 'c');
        assert("slot"@[0] == 's');
    }
    assert("cmd"@ != "players"@) by {
        reveal_strlit("cmd");
        reveal_strlit("players");
        assert("cmd"@[0] == 'c');
        assert("players"@[0] == 'p');
    }
    assert("cmd"@ != "missing_locations"@) by {
        reveal_strlit("cmd");
        reveal_strlit("missing_locations");
        assert("cmd"@[0] == 'c');
        assert("missing_locations"@[0] == 'm');
    }
    assert("cmd"@ != "checked_locations"@) by {
        reveal_strlit("cmd");
        reveal_strlit("checked_locations");
        assert("cmd"@[1] == 'm');
        assert("checked_locations"@[1] == 'h');
    }
    assert("cmd"@ != "slot_data"@) by {
        reveal_strlit("cmd");
        reveal_strlit("slot_data");
        assert("cmd"@[0] == 'c');
        assert("slot_data"@[0] == 's');
    }
    assert("cmd"@ != "slot_info"@) by {
        reveal_strlit("cmd");
        reveal_strlit("slot_info");
        assert("cmd"@[0] == 'c');
        assert("slot_info"@[0] == 's');
    }
    assert("cmd"@ != "hint_points"@) by {
        reveal_strlit("cmd");
        reveal_strlit("hint_points");
        assert("cmd"@[0] == 'c');
        assert("hint_points"@[0] == 'h');
    }
    assert("team"@ != "slot"@) by {
        reveal_strlit("team");
        reveal_strlit("slot");
        assert("team"@[0] == 't');
        assert("slot"@[0] == 's');
    }
    assert("team"@ != "players"@) by {
        reveal_strlit("team");
        reveal_strlit("players");
        assert("team"@[0] == 't');
        assert("players"@[0] == 'p');
    }
    assert("team"@ != "missing_locations"@) by {
        reveal_strlit("team");
        reveal_strlit("missing_locations");
        assert("team"@[0] == 't');
        assert("missing_locations"@[0] == 'm');
    }
    assert("team"@ != "checked_locations"@) by {
        reveal_strlit("team");
        reveal_strlit("checked_locations");
        assert("team"@[0] == 't');
        assert("checked_locations"@[0] == 'c');
    }
    assert("team"@ != "slot_data"@) by {
        reveal_strlit("team");
        reveal_strlit("slot_data");
        assert("team"@[0] == 't');
        assert("slot_data"@[0] == 's');
    }
    assert("team"@ != "slot_info"@) by {
        reveal_strlit("team");
        reveal_strlit("slot_info");
        assert("team"@[0] == 't');
        assert("slot_info"@[0] == 's');
    }
    assert("team"@ != "hint_points"@) by {
        reveal_strlit("team");
        reveal_strlit("hint_points");
        assert("team"@[0] == 't');
        assert("hint_points"@[0] == 'h');
    }
    assert("slot"@ != "players"@) by {
        reveal_strlit("slot");
        reveal_strlit("players");
        assert("slot"@[0] == 's');
        assert("players"@[0] == 'p');
    }
    assert("slot"@ != "missing_locations"@) by {
        reveal_strlit("slot");
        reveal_strlit("missing_locations");
        assert("slot"@[0] == 's');
        assert("missing_locations"@[0] == 'm');
    }
    assert("slot"@ != "checked_locations"@) by {
        reveal_strlit("slot");
        reveal_strlit("checked_locations");
        assert("slot"@[0] == 's');
        assert("checked_locations"@[0] == 'c');
    }
    assert("slot"@ != "slot_data"@) by {
        reveal_strlit("slot");
        reveal_strlit("slot_data");
        assert("slot"@.len() == 4);
        assert("slot_data"@.len() == 9);
    }
    assert("slot"@ != "slot_info"@) by {
        reveal_strlit("slot");
        reveal_strlit("slot_info");
        assert("slot"@.len() == 4);
        assert("slot_info"@.len() == 9);
    }
    assert("slot"@ != "hint_points"@) by {
        reveal_strlit("slot");
        reveal_strlit("hint_points");
        assert("slot"@[0] == 's');
        assert("hint_points"@[0] == 'h');
    }
    assert("players"@ != "missing_locations"@) by {
        reveal_strlit("players");
        reveal_strlit("missing_locations");
        assert("players"@[0] == 'p');
        assert("missing_locations"@[0] == 'm');
    }
    assert("players"@ != "checked_locations"@) by {
        reveal_strlit("players");
        reveal_strlit("checked_locations");
        assert("players"@[0] == 'p');
        assert("checked_locations"@[0] == 'c');
    }
    assert("players"@ != "slot_data"@) by {
        reveal_strlit("players");
        reveal_strlit("slot_data");
        assert("players"@[0] == 'p');
        assert("slot_data"@[0] == 's');
    }
    assert("players"@ != "slot_info"@) by {
        reveal_strlit("players");
        reveal_strlit("slot_info");
        assert("players"@[0] == 'p');
        assert("slot_info"@[0] == 's');
    }
    assert("players"@ != "hint_points"@) by {
        reveal_strlit("players");
        reveal_strlit("hint_points");
        assert("players"@[0] == 'p');
        assert("hint_points"@[0] == 'h');
    }
    assert("missing_locations"@ != "checked_locations"@) by {
        reveal_strlit("missing_locations");
        reveal_strlit("checked_locations");
        assert("missing_locations"@[0] == 'm');
        assert("checked_locations"@[0] == 'c');
    }
    assert("missing_locations"@ != "slot_data"@) by {
        reveal_strlit("missing_locations");
        reveal_strlit("slot_data");
        assert("missing_locations"@[0] == 'm');
        assert("slot_data"@[0] == 's');
    }
    assert("missing_locations"@ != "slot_info"@) by {
        reveal_strlit("missing_locations");
        reveal_strlit("slot_info");
        assert("missing_locations"@[0] == 'm');
        assert("slot_info"@[0] == 's');
    }
    assert("missing_locations"@ != "hint_points"@) by {
        reveal_strlit("missing_locations");
        reveal_strlit("hint_points");
        assert("missing_locations"@[0] == 'm');
        assert("hint_points"@[0] == 'h');
    }
    assert("checked_locations"@ != "slot_data"@) by {
        reveal_strlit("checked_locations");
        reveal_strlit("slot_data");
        assert("checked_locations"@[0] == 'c');
        assert("slot_data"@[0] == 's');
    }
    assert("checked_locations"@ != "slot_info"@) by {
        reveal_strlit("checked_locations");
        reveal_strlit("slot_info");
        assert("checked_locations"@[0] == 'c');
        assert("slot_info"@[0] == 's');
    }
    assert("checked_locations"@ != "hint_points"@) by {
        reveal_strlit("checked_locations");
        reveal_strlit("hint_points");
        assert("checked_locations"@[0] == 'c');
        assert("hint_points"@[0] == 'h');
    }
    assert("slot_data"@ != "slot_info"@) by {
        reveal_strlit("slot_data");
        reveal_strlit("slot_info");
        assert("slot_data"@[5] == 'd');
        assert("slot_info"@[5] == 'i');
    }
    assert("slot_data"@ != "hint_points"@) by {
        reveal_strlit("slot_data");
        reveal_strlit("hint_points");
        assert("slot_data"@[0] == 's');
        assert("hint_points"@[0] == 'h');
    }
    assert("slot_info"@ != "hint_points"@) by {
        reveal_strlit("slot_info");
        reveal_strlit("hint_points");
        assert("slot_info"@[0] == 's');
        assert("hint_points"@[0] == 'h');
    }
    let fields = enc_connected_fields(c);
    let m = pre + fields;
    let n = pre.len() as int;
    assert(forall|j: int| n <= j < m.len() ==> #[trigger] m[j] == fields[j - n]);
    assert(forall|j: int| 0 <= j < n ==> #[trigger] m[j] == pre[j]);
    lemma_obj_get_at(m, "team"@, n);
    lemma_obj_get_at(m, "slot"@, n + 1);
    lemma_obj_get_at(m, "players"@, n + 2);
    lemma_obj_get_at(m, "missing_locations"@, n + 3);
    lemma_obj_get_at(m, "checked_locations"@, n + 4);
    lemma_obj_get_at(m, "slot_data"@, n + 5);
    lemma_obj_get_at(m, "slot_info"@, n + 6);
    lemma_obj_get_at(m, "hint_points"@, n + 7);
    lemma_player_seq_roundtrip(c.players);
    crate::codec_values::lemma_i64_seq_roundtrip(c.missing_locations);
    crate::codec_values::lemma_i64_seq_roundtrip(c.checked_locations);
    lemma_slot_table_roundtrip(c.slot_info);
}

// ---------------------------------------------------------------------------
// DataPackage
// ---------------------------------------------------------------------------
pub open spec fn enc_data_package_fields(d: SpecDataPackage) -> Seq<(Seq<char>, SpecJson)> {
    seq![
        (
            "data"@,
            SpecJson::Obj(seq![("games"@, enc_game_data_table(d.data.games))]),
        ),
    ]
}

pub open spec fn enc_data_package(d: SpecDataPackage) -> SpecJson {
    SpecJson::Obj(enc_data_package_fields(d))
}

pub open spec fn dec_data_package(v: SpecJson) -> Option<SpecDataPackage> {
    match v {
        SpecJson::Obj(fs) => match dec_field(fs, "data"@) {
            Some(SpecJson::Obj(dfs)) => match spec_obj_get(dfs, "games"@) {
                Some(SpecJson::Obj(g)) => match crate::codec_arrays::dec_game_data_entries(g) {
                    Some(games) => Some(
                        SpecDataPackage { data: SpecDataPackageObject { games } },
                    ),
                    None => None,
                },
                _ => None,
            },
            _ => None,
        },
        _ => None,
    }
}

pub fn decode_data_package(v: &JsonValue) -> (r: Option<DataPackage>)
    ensures
        opt_view(r) == dec_data_package(v@),
{
    let fields = match v {
        JsonValue::Obj(fields) => fields,
        _ => { return None },
    };
    let inner = match obj_get(fields, "data") {
        Some(JsonValue::Obj(dfs)) => dfs,
        _ => { return None },
    };
    let games = match obj_get(inner, "games") {
        Some(JsonValue::Obj(g)) => match crate::codec_arrays::decode_game_data_entries(g) {
            Some(x) => x,
            None => { return None },
        },
        _ => { return None },
    };
    Some(DataPackage { data: DataPackageObject { games } })
}

pub proof fn lemma_data_package_roundtrip(d: SpecDataPackage, pre: Seq<(Seq<char>, SpecJson)>)
    requires
        forall|j: int| 0 <= j < pre.len() ==> (#[trigger] pre[j]).0 == "cmd"@,
    ensures
        dec_data_package(SpecJson::Obj(pre + enc_data_package_fields(d))) == Some(d),
{
    assert("cmd"@ != "data"@) by {
        reveal_strlit("cmd");
        reveal_strlit("data");
        assert("cmd"@[0] == 'c');
        assert("data"@[0] == 'd');
    }
    assert("cmd"@ != "games"@) by {
        reveal_strlit("cmd");
        reveal_strlit("games");
        assert("cmd"@[0] == 'c');
        assert("games"@[0] == 'g');
    }
    assert("data"@ != "games"@) by {
        reveal_strlit("data");
        reveal_strlit("games");
        assert("data"@[0] == 'd');
        assert("games"@[0] == 'g');
    }
    let fields = enc_data_package_fields(d);
    let m = pre + fields;
    let n = pre.len() as int;
    assert(forall|j: int| n <= j < m.len() ==> #[trigger] m[j] == fields[j - n]);
    assert(forall|j: int| 0 <= j < n ==> #[trigger] m[j] == pre[j]);
    lemma_obj_get_at(m, "data"@, n);
    let dfs = seq![("games"@, enc_game_data_table(d.data.games))];
    lemma_obj_get_at(dfs, "games"@, 0);
    lemma_game_data_table_roundtrip(d.data.games);
}

// ---------------------------------------------------------------------------
// InvalidPacket
// ---------------------------------------------------------------------------
pub open spec fn enc_invalid_packet_fields(p: SpecInvalidPacket) -> Seq<(Seq<char>, SpecJson)> {
    seq![
        ("type"@, enc_problem_type(p.problem_type)),
        (
            "original_cmd"@,
            match p.original_cmd {
                Some(s) => SpecJson::Str(s),
                None => SpecJson::Null,
            },
        ),
        ("text"@, SpecJson::Str(p.text)),
    ]
}

pub open spec fn enc_invalid_packet(p: SpecInvalidPacket) -> SpecJson {
    SpecJson::Obj(enc_invalid_packet_fields(p))
}

pub open spec fn dec_invalid_packet(v: SpecJson) -> Option<SpecInvalidPacket> {
    match v {
        SpecJson::Obj(fs) => match (
            dec_field(fs, "type"@),
            dec_field_opt_str(fs, "original_cmd"@),
            dec_field_str(fs, "text"@),
        ) {
            (Some(t), Some(original_cmd), Some(text)) => match dec_problem_type(t) {
                Some(problem_type) => Some(
                    SpecInvalidPacket { problem_type, original_cmd, text },
                ),
                None => None,
            },
            _ => None,
        },
        _ => None,
    }
}

pub fn decode_invalid_packet(v: &JsonValue) -> (r: Option<InvalidPacket>)
    ensures
        opt_view(r) == dec_invalid_packet(v@),
{
    let fields = match v {
        JsonValue::Obj(fields) => fields,
        _ => { return None },
    };
    let problem_type = match obj_get(fields, "type") {
        Some(t) => match decode_problem_type(t) {
            Some(x) => x,
            None => { return None },
        },
        None => { return None },
    };
    let original_cmd = match obj_get(fields, "original_cmd") {
        None => None,
        Some(JsonValue::Null) => None,
        Some(JsonValue::Str(s)) => Some(s.clone()),
        Some(_) => { return None },
    };
    let text = match obj_get(fields, "text") {
        Some(JsonValue::Str(s)) => s.clone(),
        _ => { return None },
    };
    Some(InvalidPacket { problem_type, original_cmd, text })
}

pub proof fn lemma_invalid_packet_roundtrip(p: SpecInvalidPacket, pre: Seq<(Seq<char>, SpecJson)>)
    requires
        forall|j: int| 0 <= j < pre.len() ==> (#[trigger] pre[j]).0 == "cmd"@,
    ensures
        dec_invalid_packet(SpecJson::Obj(pre + enc_invalid_packet_fields(p))) == Some(p),
{
    assert("cmd"@ != "type"@) by {
        reveal_strlit("cmd");
        reveal_strlit("type");
        assert("cmd"@[0] == 'c');
        assert("type"@[0] == 't');
    }
    assert("cmd"@ != "original_cmd"@) by {
        reveal_strlit("cmd");
        reveal_strlit("original_cmd");
        assert("cmd"@[0] == 'c');
        assert("original_cmd"@[0] == 'o');
    }
    assert("cmd"@ != "text"@) by {
        reveal_strlit("cmd");
        reveal_strlit("text");
        assert("cmd"@[0] == 'c');
        assert("text"@[0] == 't');
    }
    assert("type"@ != "original_cmd"@) by {
        reveal_strlit("type");
        reveal_strlit("original_cmd");
        assert("type"@[0] == 't');
        assert("original_cmd"@[0] == 'o');
    }
    assert("type"@ != "text"@) by {
        reveal_strlit("type");
        reveal_strlit("text");
        assert("type"@[1] == 'y');
        assert("text"@[1] == 'e');
    }
    assert("original_cmd"@ != "text"@) by {
        reveal_strlit("original_cmd");
        reveal_strlit("text");
        assert("original_cmd"@[0] == 'o');
        assert("text"@[0] == 't');
    }
    let fields = enc_invalid_packet_fields(p);
    let m = pre + fields;
    let n = pre.len() as int;
    assert(forall|j: int| n <= j < m.len() ==> #[trigger] m[j] == fields[j - n]);
    assert(forall|j: int| 0 <= j < n ==> #[trigger] m[j] == pre[j]);
    lemma_obj_get_at(m, "type"@, n);
    lemma_obj_get_at(m, "original_cmd"@, n + 1);
    lemma_obj_get_at(m, "text"@, n + 2);
    lemma_problem_type_roundtrip(p.problem_type);
}

// ---------------------------------------------------------------------------
// ReceivedItems, LocationInfo, RoomUpdate
// ---------------------------------------------------------------------------
pub open spec fn enc_received_items_fields(p: SpecReceivedItems) -> Seq<(Seq<char>, SpecJson)> {
    seq![
        ("index"@, SpecJson::Int(p.index as int)),
        ("items"@, SpecJson::Arr(enc_item_seq(p.items))),
    ]
}

pub open spec fn dec_received_items(v: SpecJson) -> Option<SpecReceivedItems> {
    match v {
        SpecJson::Obj(fs) => match (dec_field_i64(fs, "index"@), dec_field(fs, "items"@)) {
            (Some(index), Some(SpecJson::Arr(it))) => match crate::codec_arrays::dec_item_seq(it) {
                Some(items) => Some(SpecReceivedItems { index, items }),
                None => None,
            },
            _ => None,
        },
        _ => None,
    }
}

pub fn decode_received_items(v: &JsonValue) -> (r: Option<ReceivedItems>)
    ensures
        opt_view(r) == dec_received_items(v@),
{
    let fields = match v {
        JsonValue::Obj(fields) => fields,
        _ => { return None },
    };
    let index = match obj_get(fields, "index") {
        Some(JsonValue::Int(i)) => *i,
        _ => { return None },
    };
    let items = match obj_get(fields, "items") {
        Some(JsonValue::Arr(items)) => match crate::codec_arrays::decode_item_vec(items) {
            Some(x) => x,
            None => { return None },
        },
        _ => { return None },
    };
    Some(ReceivedItems { index, items })
}

pub proof fn lemma_received_items_roundtrip(p: SpecReceivedItems, pre: Seq<(Seq<char>, SpecJson)>)
    requires
        forall|j: int| 0 <= j < pre.len() ==> (#[trigger] pre[j]).0 == "cmd"@,
    ensures
        dec_received_items(SpecJson::Obj(pre + enc_received_items_fields(p))) == Some(p),
{
    assert("cmd"@ != "index"@) by {
        reveal_strlit("cmd");
        reveal_strlit("index");
        assert("cmd"@[0] == 'c');
        assert("index"@[0] == 'i');
    }
    assert("cmd"@ != "items"@) by {
        reveal_strlit("cmd");
        reveal_strlit("items");
        assert("cmd"@[0] == 'c');
        assert("items"@[0] == 'i');
    }
    assert("index"@ != "items"@) by {
        reveal_strlit("index");
        reveal_strlit("items");
        assert("index"@[1] == 'n');
        assert("items"@[1] == 't');
    }
    let fields = enc_received_items_fields(p);
    let m = pre + fields;
    let n = pre.len() as int;
    assert(forall|j: int| n <= j < m.len() ==> #[trigger] m[j] == fields[j - n]);
    assert(forall|j: int| 0 <= j < n ==> #[trigger] m[j] == pre[j]);
    lemma_obj_get_at(m, "index"@, n);
    lemma_obj_get_at(m, "items"@, n + 1);
    lemma_item_seq_roundtrip(p.items);
}

pub open spec fn enc_location_info_fields(p: SpecLocationInfo) -> Seq<(Seq<char>, SpecJson)> {
    seq![("locations"@, SpecJson::Arr(enc_item_seq(p.locations)))]
}

pub open spec fn dec_location_info(v: SpecJson) -> Option<SpecLocationInfo> {
    match v {
        SpecJson::Obj(fs) => match dec_field(fs, "locations"@) {
            Some(SpecJson::Arr(it)) => match crate::codec_arrays::dec_item_seq(it) {
                Some(locations) => Some(SpecLocationInfo { locations }),
                None => None,
            },
            _ => None,
        },
        _ => None,
    }
}

pub fn decode_location_info(v: &JsonValue) -> (r: Option<LocationInfo>)
    ensures
        opt_view(r) == dec_location_info(v@),
{
    let fields = match v {
        JsonValue::Obj(fields) => fields,
        _ => { return None },
    };
    let locations = match obj_get(fields, "locations") {
        Some(JsonValue::Arr(items)) => match crate::codec_arrays::decode_item_vec(items) {
            Some(x) => x,
            None => { return None },
        },
        _ => { return None },
    };
    Some(LocationInfo { locations })
}

pub proof fn lemma_location_info_roundtrip(p: SpecLocationInfo, pre: Seq<(Seq<char>, SpecJson)>)
    requires
        forall|j: int| 0 <= j < pre.len() ==> (#[trigger] pre[j]).0 == "cmd"@,
    ensures
        dec_location_info(SpecJson::Obj(pre + enc_location_info_fields(p))) == Some(p),
{
    assert("cmd"@ != "locations"@) by {
        reveal_strlit("cmd");
        reveal_strlit("locations");
        assert("cmd"@[0] == 'c');
        assert("locations"@[0] == 'l');
    }
    let fields = enc_location_info_fields(p);
    let m = pre + fields;
    let n = pre.len() as int;
    assert(forall|j: int| n <= j < m.len() ==> #[trigger] m[j] == fields[j - n]);
    assert(forall|j: int| 0 <= j < n ==> #[trigger] m[j] == pre[j]);
    lemma_obj_get_at(m, "locations"@, n);
    lemma_item_seq_roundtrip(p.locations);
}

pub open spec fn enc_room_update_fields(p: RoomUpdate) -> Seq<(Seq<char>, SpecJson)> {
    Seq::empty()
}

pub open spec fn dec_room_update(v: SpecJson) -> Option<RoomUpdate> {
    match v {
        SpecJson::Obj(fs) => Some(RoomUpdate {  }),
        _ => None,
    }
}

pub fn decode_room_update(v: &JsonValue) -> (r: Option<RoomUpdate>)
    ensures
        opt_view(r) == dec_room_update(v@),
{
    match v {
        JsonValue::Obj(_) => Some(RoomUpdate {  }),
        _ => None,
    }
}

// ---------------------------------------------------------------------------
// Bounced, Retrieved, SetReply
// ---------------------------------------------------------------------------
pub open spec fn enc_bounced_fields(p: SpecBounced) -> Seq<(Seq<char>, SpecJson)> {
    seq![
        ("games"@, SpecJson::Arr(enc_str_seq(p.games))),
        ("slots"@, SpecJson::Arr(crate::codec_values::enc_i64_seq(p.slots))),
        ("tags"@, SpecJson::Arr(enc_str_seq(p.tags))),
        ("data"@, p.data),
    ]
}

/// The broadcast's targeting fields may be absent; they read as empty, and a
/// missing payload reads as `null`.
pub open spec fn dec_bounced(v: SpecJson) -> Option<SpecBounced> {
    match v {
        SpecJson::Obj(fs) => {
            let games = match spec_obj_get(fs, "games"@) {
                None => Some(Seq::<Seq<char>>::empty()),
                Some(SpecJson::Arr(a)) => dec_str_seq(a),
                Some(_) => None,
            };
            let slots = match spec_obj_get(fs, "slots"@) {
                None => Some(Seq::<i64>::empty()),
                Some(SpecJson::Arr(a)) => crate::codec_values::dec_i64_seq(a),
                Some(_) => None,
            };
            let tags = match spec_obj_get(fs, "tags"@) {
                None => Some(Seq::<Seq<char>>::empty()),
                Some(SpecJson::Arr(a)) => dec_str_seq(a),
                Some(_) => None,
            };
            let data = match spec_obj_get(fs, "data"@) {
                None => SpecJson::Null,
                Some(d) => d,
            };
            match (games, slots, tags) {
                (Some(games), Some(slots), Some(tags)) => Some(
                    SpecBounced { games, slots, tags, data },
                ),
                _ => None,
            }
        }
        _ => None,
    }
}

pub fn decode_bounced(v: &JsonValue) -> (r: Option<Bounced>)
    ensures
        opt_view(r) == dec_bounced(v@),
{
    let fields = match v {
        JsonValue::Obj(fields) => fields,
        _ => { return None },
    };
    let games = match obj_get(fields, "games") {
        None => Vec::new(),
        Some(JsonValue::Arr(items)) => match decode_strings(items) {
            Some(x) => x,
            None => { return None },
        },
        Some(_) => { return None },
    };
    let slots = match obj_get(fields, "slots") {
        None => Vec::new(),
        Some(JsonValue::Arr(items)) => match crate::codec_values::decode_i64_vec(items) {
            Some(x) => x,
            None => { return None },
        },
        Some(_) => { return None },
    };
    let tags = match obj_get(fields, "tags") {
        None => Vec::new(),
        Some(JsonValue::Arr(items)) => match decode_strings(items) {
            Some(x) => x,
            None => { return None },
        },
        Some(_) => { return None },
    };
    let data = match obj_get(fields, "data") {
        None => JsonValue::Null,
        Some(d) => d.duplicate(),
    };
    Some(Bounced { games, slots, tags, data })
}

pub proof fn lemma_bounced_roundtrip(p: SpecBounced, pre: Seq<(Seq<char>, SpecJson)>)
    requires
        forall|j: int| 0 <= j < pre.len() ==> (#[trigger] pre[j]).0 == "cmd"@,
    ensures
        dec_bounced(SpecJson::Obj(pre + enc_bounced_fields(p))) == Some(p),
{
    assert("cmd"@ != "games"@) by {
        reveal_strlit("cmd");
        reveal_strlit("games");
        assert("cmd"@[0] == 'c');
        assert("games"@[0] == 'g');
    }
    assert("cmd"@ != "slots"@) by {
        reveal_strlit("cmd");
        reveal_strlit("slots");
        assert("cmd"@[0] == 'c');
        assert("slots"@[0] == 's');
    }
    assert("cmd"@ != "tags"@) by {
        reveal_strlit("cmd");
        reveal_strlit("tags");
        assert("cmd"@[0] == 'c');
        assert("tags"@[0] == 't');
    }
    assert("cmd"@ != "data"@) by {
        reveal_strlit("cmd");
        reveal_strlit("data");
        assert("cmd"@[0] == 'c');
        assert("data"@[0] == 'd');
    }
    assert("games"@ != "slots"@) by {
        reveal_strlit("games");
        reveal_strlit("slots");
        assert("games"@[0] == 'g');
        assert("slots"@[0] == 's');
    }
    assert("games"@ != "tags"@) by {
        reveal_strlit("games");
        reveal_strlit("tags");
        assert("games"@[0] == 'g');
        assert("tags"@[0] == 't');
    }
    assert("games"@ != "data"@) by {
        reveal_strlit("games");
        reveal_strlit("data");
        assert("games"@[0] == 'g');
        assert("data"@[0] == 'd');
    }
    assert("slots"@ != "tags"@) by {
        reveal_strlit("slots");
        reveal_strlit("tags");
        assert("slots"@[0] == 's');
        assert("tags"@[0] == 't');
    }
    assert("slots"@ != "data"@) by {
        reveal_strlit("slots");
        reveal_strlit("data");
        assert("slots"@[0] == 's');
        assert("data"@[0] == 'd');
    }
    assert("tags"@ != "data"@) by {
        reveal_strlit("tags");
        reveal_strlit("data");
        assert("tags"@[0] == 't');
        assert("data"@[0] == 'd');
    }
    let fields = enc_bounced_fields(p);
    let m = pre + fields;
    let n = pre.len() as int;
    assert(forall|j: int| n <= j < m.len() ==> #[trigger] m[j] == fields[j - n]);
    assert(forall|j: int| 0 <= j < n ==> #[trigger] m[j] == pre[j]);
    lemma_obj_get_at(m, "games"@, n);
    lemma_obj_get_at(m, "slots"@, n + 1);
    lemma_obj_get_at(m, "tags"@, n + 2);
    lemma_obj_get_at(m, "data"@, n + 3);
    lemma_str_seq_roundtrip(p.games);
    crate::codec_values::lemma_i64_seq_roundtrip(p.slots);
    lemma_str_seq_roundtrip(p.tags);
}

pub open spec fn enc_retrieved_fields(p: SpecRetrieved) -> Seq<(Seq<char>, SpecJson)> {
    seq![("keys"@, SpecJson::Obj(p.keys))]
}

pub open spec fn dec_retrieved(v: SpecJson) -> Option<SpecRetrieved> {
    match v {
        SpecJson::Obj(fs) => match dec_field(fs, "keys"@) {
            Some(SpecJson::Obj(ks)) => Some(SpecRetrieved { keys: ks }),
            _ => None,
        },
        _ => None,
    }
}

pub fn decode_retrieved(v: &JsonValue) -> (r: Option<Retrieved>)
    ensures
        opt_view(r) == dec_retrieved(v@),
{
    let fields = match v {
        JsonValue::Obj(fields) => fields,
        _ => { return None },
    };
    let keys = match obj_get(fields, "keys") {
        Some(JsonValue::Obj(ks)) => clone_fields(ks),
        _ => { return None },
    };
    let r = Some(Retrieved { keys });
    proof {
        lemma_deep_fields(r->Some_0.keys@);
    }
    r
}

pub proof fn lemma_retrieved_roundtrip(p: SpecRetrieved, pre: Seq<(Seq<char>, SpecJson)>)
    requires
        forall|j: int| 0 <= j < pre.len() ==> (#[trigger] pre[j]).0 == "cmd"@,
    ensures
        dec_retrieved(SpecJson::Obj(pre + enc_retrieved_fields(p))) == Some(p),
{
    assert("cmd"@ != "keys"@) by {
        reveal_strlit("cmd");
        reveal_strlit("keys");
        assert("cmd"@[0] == 'c');
        assert("keys"@[0] == 'k');
    }
    let fields = enc_retrieved_fields(p);
    let m = pre + fields;
    let n = pre.len() as int;
    assert(forall|j: int| n <= j < m.len() ==> #[trigger] m[j] == fields[j - n]);
    assert(forall|j: int| 0 <= j < n ==> #[trigger] m[j] == pre[j]);
    lemma_obj_get_at(m, "keys"@, n);
}

pub open spec fn enc_set_reply_fields(p: SpecSetReply) -> Seq<(Seq<char>, SpecJson)> {
    seq![
        ("key"@, SpecJson::Str(p.key)),
        ("value"@, p.value),
        ("original_value"@, p.original_value),
    ]
}

pub open spec fn dec_set_reply(v: SpecJson) -> Option<SpecSetReply> {
    match v {
        SpecJson::Obj(fs) => match (
            dec_field_str(fs, "key"@),
            dec_field(fs, "value"@),
            dec_field(fs, "original_value"@),
        ) {
            (Some(key), Some(value), Some(original_value)) => Some(
                SpecSetReply { key, value, original_value },
            ),
            _ => None,
        },
        _ => None,
    }
}

pub fn decode_set_reply(v: &JsonValue) -> (r: Option<SetReply>)
    ensures
        opt_view(r) == dec_set_reply(v@),
{
    let fields = match v {
        JsonValue::Obj(fields) => fields,
        _ => { return None },
    };
    let key = match obj_get(fields, "key") {
        Some(JsonValue::Str(s)) => s.clone(),
        _ => { return None },
    };
    let value = match obj_get(fields, "value") {
        Some(d) => d.duplicate(),
        None => { return None },
    };
    let original_value = match obj_get(fields, "original_value") {
        Some(d) => d.duplicate(),
        None => { return None },
    };
    Some(SetReply { key, value, original_value })
}

pub proof fn lemma_set_reply_roundtrip(p: SpecSetReply, pre: Seq<(Seq<char>, SpecJson)>)
    requires
        forall|j: int| 0 <= j < pre.len() ==> (#[trigger] pre[j]).0 == "cmd"@,
    ensures
        dec_set_reply(SpecJson::Obj(pre + enc_set_reply_fields(p))) == Some(p),
{
    assert("cmd"@ != "key"@) by {
        reveal_strlit("cmd");
        reveal_strlit("key");
        assert("cmd"@[0] == 'c');
        assert("key"@[0] == 'k');
    }
    assert("cmd"@ != "value"@) by {
        reveal_strlit("cmd");
        reveal_strlit("value");
        assert("cmd"@[0] == 'c');
        assert("value"@[0] == 'v');
    }
    assert("cmd"@ != "original_value"@) by {
        reveal_strlit("cmd");
        reveal_strlit("original_value");
        assert("cmd"@[0] == 'c');
        assert("original_value"@[0] == 'o');
    }
    assert("key"@ != "value"@) by {
        reveal_strlit("key");
        reveal_strlit("value");
        assert("key"@[0] == 'k');
        assert("value"@[0] == 'v');
    }
    assert("key"@ != "original_value"@) by {
        reveal_strlit("key");
        reveal_strlit("original_value");
        assert("key"@[0] == 'k');
        assert("original_value"@[0] == 'o');
    }
    assert("value"@ != "original_value"@) by {
        reveal_strlit("value");
        reveal_strlit("original_value");
        assert("value"@[0] == 'v');
        assert("original_value"@[0] == 'o');
    }
    let fields = enc_set_reply_fields(p);
    let m = pre + fields;
    let n = pre.len() as int;
    assert(forall|j: int| n <= j < m.len() ==> #[trigger] m[j] == fields[j - n]);
    assert(forall|j: int| 0 <= j < n ==> #[trigger] m[j] == pre[j]);
    lemma_obj_get_at(m, "key"@, n);
    lemma_obj_get_at(m, "value"@, n + 1);
    lemma_obj_get_at(m, "original_value"@, n + 2);
}

} // verus!
