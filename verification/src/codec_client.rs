//! Codec for the client-to-server payloads and the outbound message family,
//! with executable encoders: these build the frames the client sends.

use vstd::prelude::*;

use crate::codec::{lemma_obj_get_at, obj_get, opt_view};
use crate::codec_arrays::{
    dec_str_seq, decode_strings, enc_str_seq, encode_i64s, encode_strings, lemma_str_seq_roundtrip,
};
use crate::codec_values::{
    dec_client_status, dec_field, dec_field_bool, dec_field_i64, dec_field_opt_str, dec_field_str,
    dec_field_u8, dec_items_handling, dec_version, enc_client_status, enc_items_handling,
    enc_version, encode_client_status, encode_version, lemma_version_roundtrip, str_is,
};
use crate::json::{
    lemma_model_of_fields, lemma_model_of_seq, model_of_fields, model_of_seq, spec_obj_get,
    JsonValue, SpecJson,
};
use crate::protocol::{
    deep, view_opt_string, Bounce, ClientMessage, Connect, ConnectUpdate, DataStorageOperation,
    Get, GetDataPackage, ItemsHandlingFlags, LocationChecks, LocationScouts, Say, SetNotify,
    SetRequest, SpecBounce, SpecClientMessage, SpecConnect, SpecConnectUpdate,
    SpecDataStorageOperation, SpecGet, SpecGetDataPackage, SpecLocationChecks, SpecLocationScouts,
    SpecSay, SpecSetNotify, SpecSetRequest, StatusUpdate,
};

verus! {

broadcast use {vstd::std_specs::vec::group_vec_axioms, vstd::seq::group_seq_axioms};

// ---------------------------------------------------------------------------
// Connect
// ---------------------------------------------------------------------------
pub open spec fn enc_connect_fields(c: SpecConnect) -> Seq<(Seq<char>, SpecJson)> {
    seq![
        (
            "password"@,
            match c.password {
                Some(s) => SpecJson::Str(s),
                None => SpecJson::Null,
            },
        ),
        ("game"@, SpecJson::Str(c.game)),
        ("name"@, SpecJson::Str(c.name)),
        ("uuid"@, SpecJson::Str(c.uuid)),
        ("version"@, enc_version(c.version)),
        ("items_handling"@, enc_items_handling(c.items_handling)),
        ("tags"@, SpecJson::Arr(enc_str_seq(c.tags))),
        ("slot_data"@, SpecJson::Bool(c.slot_data)),
    ]
}

pub open spec fn dec_connect(v: SpecJson) -> Option<SpecConnect> {
    match v {
        SpecJson::Obj(fs) => match (
            dec_field_opt_str(fs, "password"@),
            dec_field_str(fs, "game"@),
            dec_field_str(fs, "name"@),
            dec_field_str(fs, "uuid"@),
            dec_field(fs, "version"@),
            dec_field_u8(fs, "items_handling"@),
            dec_field(fs, "tags"@),
            dec_field_bool(fs, "slot_data"@),
        ) {
            (
                Some(password),
                Some(game),
                Some(name),
                Some(uuid),
                Some(ver),
                Some(bits),
                Some(SpecJson::Arr(tags)),
                Some(slot_data),
            ) => match (dec_version(ver), dec_str_seq(tags)) {
                (Some(version), Some(tags)) => Some(
                    SpecConnect {
                        password,
                        game,
                        name,
                        uuid,
                        version,
                        items_handling: ItemsHandlingFlags(bits),
                        tags,
                        slot_data,
                    },
                ),
                _ => None,
            },
            _ => None,
        },
        _ => None,
    }
}

pub fn encode_connect_fields(c: &Connect) -> (r: Vec<(String, JsonValue)>)
    ensures
        deep(r@) == enc_connect_fields(c@),
{
    let mut fs: Vec<(String, JsonValue)> = Vec::new();
    let password = match &c.password {
        Some(s) => JsonValue::Str(s.clone()),
        None => JsonValue::Null,
    };
    fs.push(("password".to_owned(), password));
    fs.push(("game".to_owned(), JsonValue::Str(c.game.clone())));
    fs.push(("name".to_owned(), JsonValue::Str(c.name.clone())));
    fs.push(("uuid".to_owned(), JsonValue::Str(c.uuid.clone())));
    fs.push(("version".to_owned(), encode_version(&c.version)));
    fs.push(("items_handling".to_owned(), JsonValue::Int(c.items_handling.0 as i64)));
    fs.push(("tags".to_owned(), encode_strings(&c.tags)));
    fs.push(("slot_data".to_owned(), JsonValue::Bool(c.slot_data)));
    proof {
        assert(deep(fs@) =~= enc_connect_fields(c@));
    }
    fs
}

pub proof fn lemma_connect_roundtrip(c: SpecConnect, pre: Seq<(Seq<char>, SpecJson)>)
    requires
        forall|j: int| 0 <= j < pre.len() ==> (#[trigger] pre[j]).0 == "cmd"@,
    ensures
        dec_connect(SpecJson::Obj(pre + enc_connect_fields(c))) == Some(c),
{
    assert("cmd"@ != "password"@) by {
        reveal_strlit("cmd");
        reveal_strlit("password");
        assert("cmd"@[0] == 'c');
        assert("password"@[0] == 'p');
    }
    assert("cmd"@ != "game"@) by {
        reveal_strlit("cmd");
        reveal_strlit("game");
        assert("cmd"@[0] == 'c');
        assert("game"@[0] == 'g');
    }
    assert("cmd"@ != "name"@) by {
        reveal_strlit("cmd");
        reveal_strlit("name");
        assert("cmd"@[0] == 'c');
        assert("name"@[0] == 'n');
    }
    assert("cmd"@ != "uuid"@) by {
        reveal_strlit("cmd");
        reveal_strlit("uuid");
        assert("cmd"@[0] == 'c');
        assert("uuid"@[0] == 'u');
    }
    assert("cmd"@ != "version"@) by {
        reveal_strlit("cmd");
        reveal_strlit("version");
        assert("cmd"@[0] == 'c');
        assert("version"@[0] == 'v');
    }
    assert("cmd"@ != "items_handling"@) by {
        reveal_strlit("cmd");
        reveal_strlit("items_handling");
        assert("cmd"@[0] == 'c');
        assert("items_handling"@[0] == 'i');
    }
    assert("cmd"@ != "tags"@) by {
        reveal_strlit("cmd");
        reveal_strlit("tags");
        assert("cmd"@[0] == 'c');
        assert("tags"@[0] == 't');
    }
    assert("cmd"@ != "slot_data"@) by {
        reveal_strlit("cmd");
        reveal_strlit("slot_data");
        assert("cmd"@[0] == 'c');
        assert("slot_data"@[0] == 's');
    }
    assert("password"@ != "game"@) by {
        reveal_strlit("password");
        reveal_strlit("game");
        assert("password"@[0] == 'p');
        assert("game"@[0] == 'g');
    }
    assert("password"@ != "name"@) by {
        reveal_strlit("password");
        reveal_strlit("name");
        assert("password"@[0] == 'p');
        assert("name"@[0] == 'n');
    }
    assert("password"@ != "uuid"@) by {
        reveal_strlit("password");
        reveal_strlit("uuid");
        assert("password"@[0] == 'p');
        assert("uuid"@[0] == 'u');
    }
    assert("password"@ != "version"@) by {
        reveal_strlit("password");
        reveal_strlit("version");
        assert("password"@[0] == 'p');
        assert("version"@[0] == 'v');
    }
    assert("password"@ != "items_handling"@) by {
        reveal_strlit("password");
        reveal_strlit("items_handling");
        assert("password"@[0] == 'p');
        assert("items_handling"@[0] == 'i');
    }
    assert("password"@ != "tags"@) by {
        reveal_strlit("password");
        reveal_strlit("tags");
        assert("password"@[0] == 'p');
        assert("tags"@[0] == 't');
    }
    assert("password"@ != "slot_data"@) by {
        reveal_strlit("password");
        reveal_strlit("slot_data");
        assert("password"@[0] == 'p');
        assert("slot_data"@[0] == 's');
    }
    assert("game"@ != "name"@) by {
        reveal_strlit("game");
        reveal_strlit("name");
        assert("game"@[0] == 'g');
        assert("name"@[0] == 'n');
    }
    assert("game"@ != "uuid"@) by {
        reveal_strlit("game");
        reveal_strlit("uuid");
        assert("game"@[0] == 'g');
        assert("uuid"@[0] == 'u');
    }
    assert("game"@ != "version"@) by {
        reveal_strlit("game");
        reveal_strlit("version");
        assert("game"@[0] == 'g');
        assert("version"@[0] == 'v');
    }
    assert("game"@ != "items_handling"@) by {
        reveal_strlit("game");
        reveal_strlit("items_handling");
        assert("game"@[0] == 'g');
        assert("items_handling"@[0] == 'i');
    }
    assert("game"@ != "tags"@) by {
        reveal_strlit("game");
        reveal_strlit("tags");
        assert("game"@[0] == 'g');
        assert("tags"@[0] == 't');
    }
    assert("game"@ != "slot_data"@) by {
        reveal_strlit("game");
        reveal_strlit("slot_data");
        assert("game"@[0] == 'g');
        assert("slot_data"@[0] == 's');
    }
    assert("name"@ != "uuid"@) by {
        reveal_strlit("name");
        reveal_strlit("uuid");
        assert("name"@[0] == 'n');
        assert("uuid"@[0] == 'u');
    }
    assert("name"@ != "version"@) by {
        reveal_strlit("name");
        reveal_strlit("version");
        assert("name"@[0] == 'n');
        assert("version"@[0] == 'v');
    }
    assert("name"@ != "items_handling"@) by {
        reveal_strlit("name");
        reveal_strlit("items_handling");
        assert("name"@[0] == 'n');
        assert("items_handling"@[0] == 'i');
    }
    assert("name"@ != "tags"@) by {
        reveal_strlit("name");
        reveal_strlit("tags");
        assert("name"@[0] == 'n');
        assert("tags"@[0] == 't');
    }
    assert("name"@ != "slot_data"@) by {
        reveal_strlit("name");
        reveal_strlit("slot_data");
        assert("name"@[0] == 'n');
        assert("slot_data"@[0] == 's');
    }
    assert("uuid"@ != "version"@) by {
        reveal_strlit("uuid");
        reveal_strlit("version");
        assert("uuid"@[0] == 'u');
        assert("version"@[0] == 'v');
    }
    assert("uuid"@ != "items_handling"@) by {
        reveal_strlit("uuid");
        reveal_strlit("items_handling");
        assert("uuid"@[0] == 'u');
        assert("items_handling"@[0] == 'i');
    }
    assert("uuid"@ != "tags"@) by {
        reveal_strlit("uuid");
        reveal_strlit("tags");
        assert("uuid"@[0] == 'u');
        assert("tags"@[0] == 't');
    }
    assert("uuid"@ != "slot_data"@) by {
        reveal_strlit("uuid");
        reveal_strlit("slot_data");
        assert("uuid"@[0] == 'u');
        assert("slot_data"@[0] == 's');
    }
    assert("version"@ != "items_handling"@) by {
        reveal_strlit("version");
        reveal_strlit("items_handling");
        assert("version"@[0] == 'v');
        assert("items_handling"@[0] == 'i');
    }
    assert("version"@ != "tags"@) by {
        reveal_strlit("version");
        reveal_strlit("tags");
        assert("version"@[0] == 'v');
        assert("tags"@[0] == 't');
    }
    assert("version"@ != "slot_data"@) by {
        reveal_strlit("version");
        reveal_strlit("slot_data");
        assert("version"@[0] == 'v');
        assert("slot_data"@[0] == 's');
    }
    assert("items_handling"@ != "tags"@) by {
        reveal_strlit("items_handling");
        reveal_strlit("tags");
        assert("items_handling"@[0] == 'i');
        assert("tags"@[0] == 't');
    }
    assert("items_handling"@ != "slot_data"@) by {
        reveal_strlit("items_handling");
        reveal_strlit("slot_data");
        assert("items_handling"@[0] == 'i');
        assert("slot_data"@[0] == 's');
    }
    assert("tags"@ != "slot_data"@) by {
        reveal_strlit("tags");
        reveal_strlit("slot_data");
        assert("tags"@[0] == 't');
        assert("slot_data"@[0] == 's');
    }
    let fields = enc_connect_fields(c);
    let m = pre + fields;
    let n = pre.len() as int;
    assert(forall|j: int| n <= j < m.len() ==> #[trigger] m[j] == fields[j - n]);
    assert(forall|j: int| 0 <= j < n ==> #[trigger] m[j] == pre[j]);
    lemma_obj_get_at(m, "password"@, n);
    lemma_obj_get_at(m, "game"@, n + 1);
    lemma_obj_get_at(m, "name"@, n + 2);
    lemma_obj_get_at(m, "uuid"@, n + 3);
    lemma_obj_get_at(m, "version"@, n + 4);
    lemma_obj_get_at(m, "items_handling"@, n + 5);
    lemma_obj_get_at(m, "tags"@, n + 6);
    lemma_obj_get_at(m, "slot_data"@, n + 7);
    lemma_version_roundtrip(c.version);
    lemma_str_seq_roundtrip(c.tags);
}

// ---------------------------------------------------------------------------
// Simple request payloads
// ---------------------------------------------------------------------------
pub open spec fn enc_location_checks_fields(p: SpecLocationChecks) -> Seq<(Seq<char>, SpecJson)> {
    seq![("locations"@, SpecJson::Arr(crate::codec_values::enc_i64_seq(p.locations)))]
}

pub open spec fn dec_location_checks(v: SpecJson) -> Option<SpecLocationChecks> {
    match v {
        SpecJson::Obj(fs) => match dec_field(fs, "locations"@) {
            Some(SpecJson::Arr(a)) => match crate::codec_values::dec_i64_seq(a) {
                Some(locations) => Some(SpecLocationChecks { locations }),
                None => None,
            },
            _ => None,
        },
        _ => None,
    }
}

pub fn encode_location_checks_fields(p: &LocationChecks) -> (r: Vec<(String, JsonValue)>)
    ensures
        deep(r@) == enc_location_checks_fields(p@),
{
    let mut fs: Vec<(String, JsonValue)> = Vec::new();
    fs.push(("locations".to_owned(), encode_i64s(&p.locations)));
    proof {
        assert(deep(fs@) =~= enc_location_checks_fields(p@));
    }
    fs
}

pub proof fn lemma_location_checks_roundtrip(
    p: SpecLocationChecks,
    pre: Seq<(Seq<char>, SpecJson)>,
)
    requires
        forall|j: int| 0 <= j < pre.len() ==> (#[trigger] pre[j]).0 == "cmd"@,
    ensures
        dec_location_checks(SpecJson::Obj(pre + enc_location_checks_fields(p))) == Some(p),
{
    assert("cmd"@ != "locations"@) by {
        reveal_strlit("cmd");
        reveal_strlit("locations");
        assert("cmd"@[0] == 'c');
        assert("locations"@[0] == 'l');
    }
    let fields = enc_location_checks_fields(p);
    let m = pre + fields;
    let n = pre.len() as int;
    assert(forall|j: int| n <= j < m.len() ==> #[trigger] m[j] == fields[j - n]);
    assert(forall|j: int| 0 <= j < n ==> #[trigger] m[j] == pre[j]);
    lemma_obj_get_at(m, "locations"@, n);
    crate::codec_values::lemma_i64_seq_roundtrip(p.locations);
}

pub open spec fn enc_location_scouts_fields(p: SpecLocationScouts) -> Seq<(Seq<char>, SpecJson)> {
    seq![
        ("locations"@, SpecJson::Arr(crate::codec_values::enc_i64_seq(p.locations))),
        ("create_as_hint"@, SpecJson::Int(p.create_as_hint as int)),
    ]
}

pub open spec fn dec_location_scouts(v: SpecJson) -> Option<SpecLocationScouts> {
    match v {
        SpecJson::Obj(fs) => match (dec_field(fs, "locations"@), dec_field_i64(
            fs,
            "create_as_hint"@,
        )) {
            (Some(SpecJson::Arr(a)), Some(create_as_hint)) => match crate::codec_values::dec_i64_seq(
                a,
            ) {
                Some(locations) => Some(SpecLocationScouts { locations, create_as_hint }),
                None => None,
            },
            _ => None,
        },
        _ => None,
    }
}

pub fn encode_location_scouts_fields(p: &LocationScouts) -> (r: Vec<(String, JsonValue)>)
    ensures
        deep(r@) == enc_location_scouts_fields(p@),
{
    let mut fs: Vec<(String, JsonValue)> = Vec::new();
    fs.push(("locations".to_owned(), encode_i64s(&p.locations)));
    fs.push(("create_as_hint".to_owned(), JsonValue::Int(p.create_as_hint)));
    proof {
        assert(deep(fs@) =~= enc_location_scouts_fields(p@));
    }
    fs
}

pub proof fn lemma_location_scouts_roundtrip(
    p: SpecLocationScouts,
    pre: Seq<(Seq<char>, SpecJson)>,
)
    requires
        forall|j: int| 0 <= j < pre.len() ==> (#[trigger] pre[j]).0 == "cmd"@,
    ensures
        dec_location_scouts(SpecJson::Obj(pre + enc_location_scouts_fields(p))) == Some(p),
{
    assert("cmd"@ != "locations"@) by {
        reveal_strlit("cmd");
        reveal_strlit("locations");
        assert("cmd"@[0] == 'c');
        assert("locations"@[0] == 'l');
    }
    assert("cmd"@ != "create_as_hint"@) by {
        reveal_strlit("cmd");
        reveal_strlit("create_as_hint");
        assert("cmd"@[1] == 'm');
        assert("create_as_hint"@[1] == 'r');
    }
    assert("locations"@ != "create_as_hint"@) by {
        reveal_strlit("locations");
        reveal_strlit("create_as_hint");
        assert("locations"@[0] == 'l');
        assert("create_as_hint"@[0] == 'c');
    }
    let fields = enc_location_scouts_fields(p);
    let m = pre + fields;
    let n = pre.len() as int;
    assert(forall|j: int| n <= j < m.len() ==> #[trigger] m[j] == fields[j - n]);
    assert(forall|j: int| 0 <= j < n ==> #[trigger] m[j] == pre[j]);
    lemma_obj_get_at(m, "locations"@, n);
    lemma_obj_get_at(m, "create_as_hint"@, n + 1);
    crate::codec_values::lemma_i64_seq_roundtrip(p.locations);
}

pub open spec fn enc_status_update_fields(p: StatusUpdate) -> Seq<(Seq<char>, SpecJson)> {
    seq![("status"@, enc_client_status(p.status))]
}

pub open spec fn dec_status_update(v: SpecJson) -> Option<StatusUpdate> {
    match v {
        SpecJson::Obj(fs) => match dec_field(fs, "status"@) {
            Some(s) => match dec_client_status(s) {
                Some(status) => Some(StatusUpdate { status }),
                None => None,
            },
            None => None,
        },
        _ => None,
    }
}

pub fn encode_status_update_fields(p: &StatusUpdate) -> (r: Vec<(String, JsonValue)>)
    ensures
        deep(r@) == enc_status_update_fields(p@),
{
    let mut fs: Vec<(String, JsonValue)> = Vec::new();
    fs.push(("status".to_owned(), encode_client_status(&p.status)));
    proof {
        assert(deep(fs@) =~= enc_status_update_fields(p@));
    }
    fs
}

pub proof fn lemma_status_update_roundtrip(p: StatusUpdate, pre: Seq<(Seq<char>, SpecJson)>)
    requires
        forall|j: int| 0 <= j < pre.len() ==> (#[trigger] pre[j]).0 == "cmd"@,
    ensures
        dec_status_update(SpecJson::Obj(pre + enc_status_update_fields(p))) == Some(p),
{
    assert("cmd"@ != "status"@) by {
        reveal_strlit("cmd");
        reveal_strlit("status");
        assert("cmd"@[0] == 'c');
        assert("status"@[0] == 's');
    }
    let fields = enc_status_update_fields(p);
    let m = pre + fields;
    let n = pre.len() as int;
    assert(forall|j: int| n <= j < m.len() ==> #[trigger] m[j] == fields[j - n]);
    assert(forall|j: int| 0 <= j < n ==> #[trigger] m[j] == pre[j]);
    lemma_obj_get_at(m, "status"@, n);
}

pub open spec fn enc_say_fields(p: SpecSay) -> Seq<(Seq<char>, SpecJson)> {
    seq![("text"@, SpecJson::Str(p.text))]
}

pub open spec fn dec_say(v: SpecJson) -> Option<SpecSay> {
    match v {
        SpecJson::Obj(fs) => match dec_field_str(fs, "text"@) {
            Some(text) => Some(SpecSay { text }),
            None => None,
        },
        _ => None,
    }
}

pub fn encode_say_fields(p: &Say) -> (r: Vec<(String, JsonValue)>)
    ensures
        deep(r@) == enc_say_fields(p@),
{
    let mut fs: Vec<(String, JsonValue)> = Vec::new();
    fs.push(("text".to_owned(), JsonValue::Str(p.text.clone())));
    proof {
        assert(deep(fs@) =~= enc_say_fields(p@));
    }
    fs
}

pub proof fn lemma_say_roundtrip(p: SpecSay, pre: Seq<(Seq<char>, SpecJson)>)
    requires
        forall|j: int| 0 <= j < pre.len() ==> (#[trigger] pre[j]).0 == "cmd"@,
    ensures
        dec_say(SpecJson::Obj(pre + enc_say_fields(p))) == Some(p),
{
    assert("cmd"@ != "text"@) by {
        reveal_strlit("cmd");
        reveal_strlit("text");
        assert("cmd"@[0] == 'c');
        assert("text"@[0] == 't');
    }
    let fields = enc_say_fields(p);
    let m = pre + fields;
    let n = pre.len() as int;
    assert(forall|j: int| n <= j < m.len() ==> #[trigger] m[j] == fields[j - n]);
    assert(forall|j: int| 0 <= j < n ==> #[trigger] m[j] == pre[j]);
    lemma_obj_get_at(m, "text"@, n);
}

pub open spec fn enc_get_data_package_fields(p: SpecGetDataPackage) -> Seq<(Seq<char>, SpecJson)> {
    seq![("games"@, SpecJson::Arr(enc_str_seq(p.games)))]
}

pub open spec fn dec_get_data_package(v: SpecJson) -> Option<SpecGetDataPackage> {
    match v {
        SpecJson::Obj(fs) => match dec_field(fs, "games"@) {
            Some(SpecJson::Arr(a)) => match dec_str_seq(a) {
                Some(games) => Some(SpecGetDataPackage { games }),
                None => None,
            },
            _ => None,
        },
        _ => None,
    }
}

pub fn encode_get_data_package_fields(p: &GetDataPackage) -> (r: Vec<(String, JsonValue)>)
    ensures
        deep(r@) == enc_get_data_package_fields(p@),
{
    let mut fs: Vec<(String, JsonValue)> = Vec::new();
    fs.push(("games".to_owned(), encode_strings(&p.games)));
    proof {
        assert(deep(fs@) =~= enc_get_data_package_fields(p@));
    }
    fs
}

pub proof fn lemma_get_data_package_roundtrip(
    p: SpecGetDataPackage,
    pre: Seq<(Seq<char>, SpecJson)>,
)
    requires
        forall|j: int| 0 <= j < pre.len() ==> (#[trigger] pre[j]).0 == "cmd"@,
    ensures
        dec_get_data_package(SpecJson::Obj(pre + enc_get_data_package_fields(p))) == Some(p),
{
    assert("cmd"@ != "games"@) by {
        reveal_strlit("cmd");
        reveal_strlit("games");
        assert("cmd"@[0] == 'c');
        assert("games"@[0] == 'g');
    }
    let fields = enc_get_data_package_fields(p);
    let m = pre + fields;
    let n = pre.len() as int;
    assert(forall|j: int| n <= j < m.len() ==> #[trigger] m[j] == fields[j - n]);
    assert(forall|j: int| 0 <= j < n ==> #[trigger] m[j] == pre[j]);
    lemma_obj_get_at(m, "games"@, n);
    lemma_str_seq_roundtrip(p.games);
}

pub open spec fn enc_bounce_fields(p: SpecBounce) -> Seq<(Seq<char>, SpecJson)> {
    seq![
        ("games"@, SpecJson::Arr(enc_str_seq(p.games))),
        ("slots"@, SpecJson::Arr(crate::codec_values::enc_i64_seq(p.slots))),
        ("tags"@, SpecJson::Arr(enc_str_seq(p.tags))),
        ("data"@, p.data),
    ]
}

pub open spec fn dec_bounce(v: SpecJson) -> Option<SpecBounce> {
    match v {
        SpecJson::Obj(fs) => match (
            dec_field(fs, "games"@),
            dec_field(fs, "slots"@),
            dec_field(fs, "tags"@),
            dec_field(fs, "data"@),
        ) {
            (
                Some(SpecJson::Arr(g)),
                Some(SpecJson::Arr(s)),
                Some(SpecJson::Arr(t)),
                Some(data),
            ) => match (dec_str_seq(g), crate::codec_values::dec_i64_seq(s), dec_str_seq(t)) {
                (Some(games), Some(slots), Some(tags)) => Some(
                    SpecBounce { games, slots, tags, data },
                ),
                _ => None,
            },
            _ => None,
        },
        _ => None,
    }
}

pub fn encode_bounce_fields(p: &Bounce) -> (r: Vec<(String, JsonValue)>)
    ensures
        deep(r@) == enc_bounce_fields(p@),
{
    let mut fs: Vec<(String, JsonValue)> = Vec::new();
    fs.push(("games".to_owned(), encode_strings(&p.games)));
    fs.push(("slots".to_owned(), encode_i64s(&p.slots)));
    fs.push(("tags".to_owned(), encode_strings(&p.tags)));
    fs.push(("data".to_owned(), p.data.duplicate()));
    proof {
        assert(deep(fs@) =~= enc_bounce_fields(p@));
    }
    fs
}

pub proof fn lemma_bounce_roundtrip(p: SpecBounce, pre: Seq<(Seq<char>, SpecJson)>)
    requires
        forall|j: int| 0 <= j < pre.len() ==> (#[trigger] pre[j]).0 == "cmd"@,
    ensures
        dec_bounce(SpecJson::Obj(pre + enc_bounce_fields(p))) == Some(p),
{
    assert("cmd"@ != "games"@) by {
        reveal_strlit("cmd");
        reveal_strlit("games");
        assert("cmd"@[0] == 'c');
        assert("games"@[0] == 'g');
    }
    assert("cmd"@ != "slots"@) by {
        reveal_strlit("cmd");
        reveal_strlit("slots");
        assert("cmd"@[0] == 'c');
        assert("slots"@[0] == 's');
    }
    assert("cmd"@ != "tags"@) by {
        reveal_strlit("cmd");
        reveal_strlit("tags");
        assert("cmd"@[0] == 'c');
        assert("tags"@[0] == 't');
    }
    assert("cmd"@ != "data"@) by {
        reveal_strlit("cmd");
        reveal_strlit("data");
        assert("cmd"@[0] == 'c');
        assert("data"@[0] == 'd');
    }
    assert("games"@ != "slots"@) by {
        reveal_strlit("games");
        reveal_strlit("slots");
        assert("games"@[0] == 'g');
        assert("slots"@[0] == 's');
    }
    assert("games"@ != "tags"@) by {
        reveal_strlit("games");
        reveal_strlit("tags");
        assert("games"@[0] == 'g');
        assert("tags"@[0] == 't');
    }
    assert("games"@ != "data"@) by {
        reveal_strlit("games");
        reveal_strlit("data");
        assert("games"@[0] == 'g');
        assert("data"@[0] == 'd');
    }
    assert("slots"@ != "tags"@) by {
        reveal_strlit("slots");
        reveal_strlit("tags");
        assert("slots"@[0] == 's');
        assert("tags"@[0] == 't');
    }
    assert("slots"@ != "data"@) by {
        reveal_strlit("slots");
        reveal_strlit("data");
        assert("slots"@[0] == 's');
        assert("data"@[0] == 'd');
    }
    assert("tags"@ != "data"@) by {
        reveal_strlit("tags");
        reveal_strlit("data");
        assert("tags"@[0] == 't');
        assert("data"@[0] == 'd');
    }
    let fields = enc_bounce_fields(p);
    let m = pre + fields;
    let n = pre.len() as int;
    assert(forall|j: int| n <= j < m.len() ==> #[trigger] m[j] == fields[j - n]);
    assert(forall|j: int| 0 <= j < n ==> #[trigger] m[j] == pre[j]);
    lemma_obj_get_at(m, "games"@, n);
    lemma_obj_get_at(m, "slots"@, n + 1);
    lemma_obj_get_at(m, "tags"@, n + 2);
    lemma_obj_get_at(m, "data"@, n + 3);
    lemma_str_seq_roundtrip(p.games);
    crate::codec_values::lemma_i64_seq_roundtrip(p.slots);
    lemma_str_seq_roundtrip(p.tags);
}

pub open spec fn enc_get_fields(p: SpecGet) -> Seq<(Seq<char>, SpecJson)> {
    seq![("keys"@, SpecJson::Arr(enc_str_seq(p.keys)))]
}

pub open spec fn dec_get(v: SpecJson) -> Option<SpecGet> {
    match v {
        SpecJson::Obj(fs) => match dec_field(fs, "keys"@) {
            Some(SpecJson::Arr(a)) => match dec_str_seq(a) {
                Some(keys) => Some(SpecGet { keys }),
                None => None,
            },
            _ => None,
        },
        _ => None,
    }
}

pub fn encode_get_fields(p: &Get) -> (r: Vec<(String, JsonValue)>)
    ensures
        deep(r@) == enc_get_fields(p@),
{
    let mut fs: Vec<(String, JsonValue)> = Vec::new();
    fs.push(("keys".to_owned(), encode_strings(&p.keys)));
    proof {
        assert(deep(fs@) =~= enc_get_fields(p@));
    }
    fs
}

pub proof fn lemma_get_roundtrip(p: SpecGet, pre: Seq<(Seq<char>, SpecJson)>)
    requires
        forall|j: int| 0 <= j < pre.len() ==> (#[trigger] pre[j]).0 == "cmd"@,
    ensures
        dec_get(SpecJson::Obj(pre + enc_get_fields(p))) == Some(p),
{
    assert("cmd"@ != "keys"@) by {
        reveal_strlit("cmd");
        reveal_strlit("keys");
        assert("cmd"@[0] == 'c');
        assert("keys"@[0] == 'k');
    }
    let fields = enc_get_fields(p);
    let m = pre + fields;
    let n = pre.len() as int;
    assert(forall|j: int| n <= j < m.len() ==> #[trigger] m[j] == fields[j - n]);
    assert(forall|j: int| 0 <= j < n ==> #[trigger] m[j] == pre[j]);
    lemma_obj_get_at(m, "keys"@, n);
    lemma_str_seq_roundtrip(p.keys);
}

pub open spec fn enc_set_notify_fields(p: SpecSetNotify) -> Seq<(Seq<char>, SpecJson)> {
    seq![("keys"@, SpecJson::Arr(enc_str_seq(p.keys)))]
}

pub open spec fn dec_set_notify(v: SpecJson) -> Option<SpecSetNotify> {
    match v {
        SpecJson::Obj(fs) => match dec_field(fs, "keys"@) {
            Some(SpecJson::Arr(a)) => match dec_str_seq(a) {
                Some(keys) => Some(SpecSetNotify { keys }),
                None => None,
            },
            _ => None,
        },
        _ => None,
    }
}

pub fn encode_set_notify_fields(p: &SetNotify) -> (r: Vec<(String, JsonValue)>)
    ensures
        deep(r@) == enc_set_notify_fields(p@),
{
    let mut fs: Vec<(String, JsonValue)> = Vec::new();
    fs.push(("keys".to_owned(), encode_strings(&p.keys)));
    proof {
        assert(deep(fs@) =~= enc_set_notify_fields(p@));
    }
    fs
}

pub proof fn lemma_set_notify_roundtrip(p: SpecSetNotify, pre: Seq<(Seq<char>, SpecJson)>)
    requires
        forall|j: int| 0 <= j < pre.len() ==> (#[trigger] pre[j]).0 == "cmd"@,
    ensures
        dec_set_notify(SpecJson::Obj(pre + enc_set_notify_fields(p))) == Some(p),
{
    assert("cmd"@ != "keys"@) by {
        reveal_strlit("cmd");
        reveal_strlit("keys");
        assert("cmd"@[0] == 'c');
        assert("keys"@[0] == 'k');
    }
    let fields = enc_set_notify_fields(p);
    let m = pre + fields;
    let n = pre.len() as int;
    assert(forall|j: int| n <= j < m.len() ==> #[trigger] m[j] == fields[j - n]);
    assert(forall|j: int| 0 <= j < n ==> #[trigger] m[j] == pre[j]);
    lemma_obj_get_at(m, "keys"@, n);
    lemma_str_seq_roundtrip(p.keys);
}

pub open spec fn enc_connect_update_fields(p: SpecConnectUpdate) -> Seq<(Seq<char>, SpecJson)> {
    seq![
        ("items_handling"@, enc_items_handling(p.items_handling)),
        ("tags"@, SpecJson::Arr(enc_str_seq(p.tags))),
    ]
}

pub open spec fn dec_connect_update(v: SpecJson) -> Option<SpecConnectUpdate> {
    match v {
        SpecJson::Obj(fs) => match (dec_field_u8(fs, "items_handling"@), dec_field(fs, "tags"@)) {
            (Some(bits), Some(SpecJson::Arr(t))) => match dec_str_seq(t) {
                Some(tags) => Some(
                    SpecConnectUpdate { items_handling: ItemsHandlingFlags(bits), tags },
                ),
                None => None,
            },
            _ => None,
        },
        _ => None,
    }
}

pub fn encode_connect_update_fields(p: &ConnectUpdate) -> (r: Vec<(String, JsonValue)>)
    ensures
        deep(r@) == enc_connect_update_fields(p@),
{
    let mut fs: Vec<(String, JsonValue)> = Vec::new();
    fs.push(("items_handling".to_owned(), JsonValue::Int(p.items_handling.0 as i64)));
    fs.push(("tags".to_owned(), encode_strings(&p.tags)));
    proof {
        assert(deep(fs@) =~= enc_connect_update_fields(p@));
    }
    fs
}

pub proof fn lemma_connect_update_roundtrip(p: SpecConnectUpdate)
    ensures
        dec_connect_update(SpecJson::Obj(enc_connect_update_fields(p))) == Some(p),
{
    assert("items_handling"@ != "tags"@) by {
        reveal_strlit("items_handling");
        reveal_strlit("tags");
        assert("items_handling"@[0] == 'i');
        assert("tags"@[0] == 't');
    }
    let m = enc_connect_update_fields(p);
    lemma_obj_get_at(m, "items_handling"@, 0);
    lemma_obj_get_at(m, "tags"@, 1);
    lemma_str_seq_roundtrip(p.tags);
}

// ---------------------------------------------------------------------------
// Data storage operations
// ---------------------------------------------------------------------------
pub open spec fn op_tag(op: SpecDataStorageOperation) -> Seq<char> {
    match op {
        SpecDataStorageOperation::Replace(_) => "replace"@,
        SpecDataStorageOperation::Default => "default"@,
        SpecDataStorageOperation::Add(_) => "add"@,
        SpecDataStorageOperation::Mul(_) => "mul"@,
        SpecDataStorageOperation::Pow(_) => "pow"@,
        SpecDataStorageOperation::Mod(_) => "mod"@,
        SpecDataStorageOperation::Floor => "floor"@,
        SpecDataStorageOperation::Ceil => "ceil"@,
        SpecDataStorageOperation::Max(_) => "max"@,
        SpecDataStorageOperation::Min(_) => "min"@,
        SpecDataStorageOperation::And(_) => "and"@,
        SpecDataStorageOperation::Or(_) => "or"@,
        SpecDataStorageOperation::Xor(_) => "xor"@,
        SpecDataStorageOperation::LeftShift(_) => "left_shift"@,
        SpecDataStorageOperation::RightShift(_) => "right_shift"@,
        SpecDataStorageOperation::Remove(_) => "remove"@,
        SpecDataStorageOperation::Pop(_) => "pop"@,
        SpecDataStorageOperation::Update(_) => "update"@,
    }
}

/// An operation's wire form: `{"operation": tag}`, with a `value` field where
/// the operation takes one.
pub open spec fn enc_operation(op: SpecDataStorageOperation) -> SpecJson {
    match op {
        SpecDataStorageOperation::Replace(x) => SpecJson::Obj(
            seq![("operation"@, SpecJson::Str("replace"@)), ("value"@, x)],
        ),
        SpecDataStorageOperation::Default => SpecJson::Obj(
            seq![("operation"@, SpecJson::Str("default"@))],
        ),
        SpecDataStorageOperation::Add(x) => SpecJson::Obj(
            seq![("operation"@, SpecJson::Str("add"@)), ("value"@, x)],
        ),
        SpecDataStorageOperation::Mul(x) => SpecJson::Obj(
            seq![("operation"@, SpecJson::Str("mul"@)), ("value"@, x)],
        ),
        SpecDataStorageOperation::Pow(x) => SpecJson::Obj(
            seq![("operation"@, SpecJson::Str("pow"@)), ("value"@, x)],
        ),
        SpecDataStorageOperation::Mod(x) => SpecJson::Obj(
            seq![("operation"@, SpecJson::Str("mod"@)), ("value"@, x)],
        ),
        SpecDataStorageOperation::Floor => SpecJson::Obj(
            seq![("operation"@, SpecJson::Str("floor"@))],
        ),
        SpecDataStorageOperation::Ceil => SpecJson::Obj(
            seq![("operation"@, SpecJson::Str("ceil"@))],
        ),
        SpecDataStorageOperation::Max(x) => SpecJson::Obj(
            seq![("operation"@, SpecJson::Str("max"@)), ("value"@, x)],
        ),
        SpecDataStorageOperation::Min(x) => SpecJson::Obj(
            seq![("operation"@, SpecJson::Str("min"@)), ("value"@, x)],
        ),
        SpecDataStorageOperation::And(x) => SpecJson::Obj(
            seq![("operation"@, SpecJson::Str("and"@)), ("value"@, x)],
        ),
        SpecDataStorageOperation::Or(x) => SpecJson::Obj(
            seq![("operation"@, SpecJson::Str("or"@)), ("value"@, x)],
        ),
        SpecDataStorageOperation::Xor(x) => SpecJson::Obj(
            seq![("operation"@, SpecJson::Str("xor"@)), ("value"@, x)],
        ),
        SpecDataStorageOperation::LeftShift(x) => SpecJson::Obj(
            seq![("operation"@, SpecJson::Str("left_shift"@)), ("value"@, x)],
        ),
        SpecDataStorageOperation::RightShift(x) => SpecJson::Obj(
            seq![("operation"@, SpecJson::Str("right_shift"@)), ("value"@, x)],
        ),
        SpecDataStorageOperation::Remove(x) => SpecJson::Obj(
            seq![("operation"@, SpecJson::Str("remove"@)), ("value"@, x)],
        ),
        SpecDataStorageOperation::Pop(x) => SpecJson::Obj(
            seq![("operation"@, SpecJson::Str("pop"@)), ("value"@, x)],
        ),
        SpecDataStorageOperation::Update(x) => SpecJson::Obj(
            seq![("operation"@, SpecJson::Str("update"@)), ("value"@, x)],
        ),
    }
}

pub open spec fn dec_operation(v: SpecJson) -> Option<SpecDataStorageOperation> {
    match v {
        SpecJson::Obj(fs) => match dec_field_str(fs, "operation"@) {
            Some(tag) => dec_tagged_operation(fs, tag),
            None => None,
        },
        _ => None,
    }
}

pub open spec fn dec_tagged_operation(fs: Seq<(Seq<char>, SpecJson)>, tag: Seq<char>) -> Option<
    SpecDataStorageOperation,
> {
    if tag == "replace"@ {
        match spec_obj_get(fs, "value"@) {
            Some(x) => Some(SpecDataStorageOperation::Replace(x)),
            None => None,
        }
    } else if tag == "default"@ {
        Some(SpecDataStorageOperation::Default)
    } else if tag == "add"@ {
        match spec_obj_get(fs, "value"@) {
            Some(x) => Some(SpecDataStorageOperation::Add(x)),
            None => None,
        }
    } else if tag == "mul"@ {
        match spec_obj_get(fs, "value"@) {
            Some(x) => Some(SpecDataStorageOperation::Mul(x)),
            None => None,
        }
    } else if tag == "pow"@ {
        match spec_obj_get(fs, "value"@) {
            Some(x) => Some(SpecDataStorageOperation::Pow(x)),
            None => None,
        }
    } else if tag == "mod"@ {
        match spec_obj_get(fs, "value"@) {
            Some(x) => Some(SpecDataStorageOperation::Mod(x)),
            None => None,
        }
    } else if tag == "floor"@ {
        Some(SpecDataStorageOperation::Floor)
    } else if tag == "ceil"@ {
        Some(SpecDataStorageOperation::Ceil)
    } else if tag == "max"@ {
        match spec_obj_get(fs, "value"@) {
            Some(x) => Some(SpecDataStorageOperation::Max(x)),
            None => None,
        }
    } else if tag == "min"@ {
        match spec_obj_get(fs, "value"@) {
            Some(x) => Some(SpecDataStorageOperation::Min(x)),
            None => None,
        }
    } else if tag == "and"@ {
        match spec_obj_get(fs, "value"@) {
            Some(x) => Some(SpecDataStorageOperation::And(x)),
            None => None,
        }
    } else if tag == "or"@ {
        match spec_obj_get(fs, "value"@) {
            Some(x) => Some(SpecDataStorageOperation::Or(x)),
            None => None,
        }
    } else if tag == "xor"@ {
        match spec_obj_get(fs, "value"@) {
            Some(x) => Some(SpecDataStorageOperation::Xor(x)),
            None => None,
        }
    } else if tag == "left_shift"@ {
        match spec_obj_get(fs, "value"@) {
            Some(x) => Some(SpecDataStorageOperation::LeftShift(x)),
            None => None,
        }
    } else if tag == "right_shift"@ {
        match spec_obj_get(fs, "value"@) {
            Some(x) => Some(SpecDataStorageOperation::RightShift(x)),
            None => None,
        }
    } else if tag == "remove"@ {
        match spec_obj_get(fs, "value"@) {
            Some(x) => Some(SpecDataStorageOperation::Remove(x)),
            None => None,
        }
    } else if tag == "pop"@ {
        match spec_obj_get(fs, "value"@) {
            Some(x) => Some(SpecDataStorageOperation::Pop(x)),
            None => None,
        }
    } else if tag == "update"@ {
        match spec_obj_get(fs, "value"@) {
            Some(x) => Some(SpecDataStorageOperation::Update(x)),
            None => None,
        }
    } else {
        None
    }
}

pub fn encode_operation(op: &DataStorageOperation) -> (r: JsonValue)
    ensures
        r@ == enc_operation(op@),
{
    let mut fs: Vec<(String, JsonValue)> = Vec::new();
    match op {
        DataStorageOperation::Replace(x) => {
            fs.push(("operation".to_owned(), JsonValue::Str("replace".to_owned())));
            fs.push(("value".to_owned(), x.duplicate()));
        }
        DataStorageOperation::Default => {
            fs.push(("operation".to_owned(), JsonValue::Str("default".to_owned())));
        }
        DataStorageOperation::Add(x) => {
            fs.push(("operation".to_owned(), JsonValue::Str("add".to_owned())));
            fs.push(("value".to_owned(), x.duplicate()));
        }
        DataStorageOperation::Mul(x) => {
            fs.push(("operation".to_owned(), JsonValue::Str("mul".to_owned())));
            fs.push(("value".to_owned(), x.duplicate()));
        }
        DataStorageOperation::Pow(x) => {
            fs.push(("operation".to_owned(), JsonValue::Str("pow".to_owned())));
            fs.push(("value".to_owned(), x.duplicate()));
        }
        DataStorageOperation::Mod(x) => {
            fs.push(("operation".to_owned(), JsonValue::Str("mod".to_owned())));
            fs.push(("value".to_owned(), x.duplicate()));
        }
        DataStorageOperation::Floor => {
            fs.push(("operation".to_owned(), JsonValue::Str("floor".to_owned())));
        }
        DataStorageOperation::Ceil => {
            fs.push(("operation".to_owned(), JsonValue::Str("ceil".to_owned())));
        }
        DataStorageOperation::Max(x) => {
            fs.push(("operation".to_owned(), JsonValue::Str("max".to_owned())));
            fs.push(("value".to_owned(), x.duplicate()));
        }
        DataStorageOperation::Min(x) => {
            fs.push(("operation".to_owned(), JsonValue::Str("min".to_owned())));
            fs.push(("value".to_owned(), x.duplicate()));
        }
        DataStorageOperation::And(x) => {
            fs.push(("operation".to_owned(), JsonValue::Str("and".to_owned())));
            fs.push(("value".to_owned(), x.duplicate()));
        }
        DataStorageOperation::Or(x) => {
            fs.push(("operation".to_owned(), JsonValue::Str("or".to_owned())));
            fs.push(("value".to_owned(), x.duplicate()));
        }
        DataStorageOperation::Xor(x) => {
            fs.push(("operation".to_owned(), JsonValue::Str("xor".to_owned())));
            fs.push(("value".to_owned(), x.duplicate()));
        }
        DataStorageOperation::LeftShift(x) => {
            fs.push(("operation".to_owned(), JsonValue::Str("left_shift".to_owned())));
            fs.push(("value".to_owned(), x.duplicate()));
        }
        DataStorageOperation::RightShift(x) => {
            fs.push(("operation".to_owned(), JsonValue::Str("right_shift".to_owned())));
            fs.push(("value".to_owned(), x.duplicate()));
        }
        DataStorageOperation::Remove(x) => {
            fs.push(("operation".to_owned(), JsonValue::Str("remove".to_owned())));
            fs.push(("value".to_owned(), x.duplicate()));
        }
        DataStorageOperation::Pop(x) => {
            fs.push(("operation".to_owned(), JsonValue::Str("pop".to_owned())));
            fs.push(("value".to_owned(), x.duplicate()));
        }
        DataStorageOperation::Update(x) => {
            fs.push(("operation".to_owned(), JsonValue::Str("update".to_owned())));
            fs.push(("value".to_owned(), x.duplicate()));
        }
    }
    let r = JsonValue::Obj(fs);
    proof {
        lemma_model_of_fields(fs@);
        assert(model_of_fields(fs@) =~= enc_operation(op@)->Obj_0);
    }
    r
}

pub proof fn lemma_operation_roundtrip(op: SpecDataStorageOperation)
    ensures
        dec_operation(enc_operation(op)) == Some(op),
{
    assert("operation"@ != "value"@) by {
        reveal_strlit("operation");
        reveal_strlit("value");
        assert("operation"@[0] == 'o');
        assert("value"@[0] == 'v');
    }
    assert("replace"@ != "default"@) by {
        reveal_strlit("replace");
        reveal_strlit("default");
        assert("replace"@[0] == 'r');
        assert("default"@[0] == 'd');
    }
    assert("replace"@ != "add"@) by {
        reveal_strlit("replace");
        reveal_strlit("add");
        assert("replace"@[0] == 'r');
        assert("add"@[0] == 'a');
    }
    assert("replace"@ != "mul"@) by {
        reveal_strlit("replace");
        reveal_strlit("mul");
        assert("replace"@[0] == 'r');
        assert("mul"@[0] == 'm');
    }
    assert("replace"@ != "pow"@) by {
        reveal_strlit("replace");
        reveal_strlit("pow");
        assert("replace"@[0] == 'r');
        assert("pow"@[0] == 'p');
    }
    assert("replace"@ != "mod"@) by {
        reveal_strlit("replace");
        reveal_strlit("mod");
        assert("replace"@[0] == 'r');
        assert("mod"@[0] == 'm');
    }
    assert("replace"@ != "floor"@) by {
        reveal_strlit("replace");
        reveal_strlit("floor");
        assert("replace"@[0] == 'r');
        assert("floor"@[0] == 'f');
    }
    assert("replace"@ != "ceil"@) by {
        reveal_strlit("replace");
        reveal_strlit("ceil");
        assert("replace"@[0] == 'r');
        assert("ceil"@[0] == 'c');
    }
    assert("replace"@ != "max"@) by {
        reveal_strlit("replace");
        reveal_strlit("max");
        assert("replace"@[0] == 'r');
        assert("max"@[0] == 'm');
    }
    assert("replace"@ != "min"@) by {
        reveal_strlit("replace");
        reveal_strlit("min");
        assert("replace"@[0] == 'r');
        assert("min"@[0] == 'm');
    }
    assert("replace"@ != "and"@) by {
        reveal_strlit("replace");
        reveal_strlit("and");
        assert("replace"@[0] == 'r');
        assert("and"@[0] == 'a');
    }
    assert("replace"@ != "or"@) by {
        reveal_strlit("replace");
        reveal_strlit("or");
        assert("replace"@[0] == 'r');
        assert("or"@[0] == 'o');
    }
    assert("replace"@ != "xor"@) by {
        reveal_strlit("replace");
        reveal_strlit("xor");
        assert("replace"@[0] == 'r');
        assert("xor"@[0] == 'x');
    }
    assert("replace"@ != "left_shift"@) by {
        reveal_strlit("replace");
        reveal_strlit("left_shift");
        assert("replace"@[0] == 'r');
        assert("left_shift"@[0] == 'l');
    }
    assert("replace"@ != "right_shift"@) by {
        reveal_strlit("replace");
        reveal_strlit("right_shift");
        assert("replace"@[1] == 'e');
        assert("right_shift"@[1] == 'i');
    }
    assert("replace"@ != "remove"@) by {
        reveal_strlit("replace");
        reveal_strlit("remove");
        assert("replace"@[2] == 'p');
        assert("remove"@[2] == 'm');
    }
    assert("replace"@ != "pop"@) by {
        reveal_strlit("replace");
        reveal_strlit("pop");
        assert("replace"@[0] == 'r');
        assert("pop"@[0] == 'p');
    }
    assert("replace"@ != "update"@) by {
        reveal_strlit("replace");
        reveal_strlit("update");
        assert("replace"@[0] == 'r');
        assert("update"@[0] == 'u');
    }
    assert("default"@ != "add"@) by {
        reveal_strlit("default");
        reveal_strlit("add");
        assert("default"@[0] == 'd');
        assert("add"@[0] == 'a');
    }
    assert("default"@ != "mul"@) by {
        reveal_strlit("default");
        reveal_strlit("mul");
        assert("default"@[0] == 'd');
        assert("mul"@[0] == 'm');
    }
    assert("default"@ != "pow"@) by {
        reveal_strlit("default");
        reveal_strlit("pow");
        assert("default"@[0] == 'd');
        assert("pow"@[0] == 'p');
    }
    assert("default"@ != "mod"@) by {
        reveal_strlit("default");
        reveal_strlit("mod");
        assert("default"@[0] == 'd');
        assert("mod"@[0] == 'm');
    }
    assert("default"@ != "floor"@) by {
        reveal_strlit("default");
        reveal_strlit("floor");
        assert("default"@[0] == 'd');
        assert("floor"@[0] == 'f');
    }
    assert("default"@ != "ceil"@) by {
        reveal_strlit("default");
        reveal_strlit("ceil");
        assert("default"@[0] == 'd');
        assert("ceil"@[0] == 'c');
    }
    assert("default"@ != "max"@) by {
        reveal_strlit("default");
        reveal_strlit("max");
        assert("default"@[0] == 'd');
        assert("max"@[0] == 'm');
    }
    assert("default"@ != "min"@) by {
        reveal_strlit("default");
        reveal_strlit("min");
        assert("default"@[0] == 'd');
        assert("min"@[0] == 'm');
    }
    assert("default"@ != "and"@) by {
        reveal_strlit("default");
        reveal_strlit("and");
        assert("default"@[0] == 'd');
        assert("and"@[0] == 'a');
    }
    assert("default"@ != "or"@) by {
        reveal_strlit("default");
        reveal_strlit("or");
        assert("default"@[0] == 'd');
        assert("or"@[0] == 'o');
    }
    assert("default"@ != "xor"@) by {
        reveal_strlit("default");
        reveal_strlit("xor");
        assert("default"@[0] == 'd');
        assert("xor"@[0] == 'x');
    }
    assert("default"@ != "left_shift"@) by {
        reveal_strlit("default");
        reveal_strlit("left_shift");
        assert("default"@[0] == 'd');
        assert("left_shift"@[0] == 'l');
    }
    assert("default"@ != "right_shift"@) by {
        reveal_strlit("default");
        reveal_strlit("right_shift");
        assert("default"@[0] == 'd');
        assert("right_shift"@[0] == 'r');
    }
    assert("default"@ != "remove"@) by {
        reveal_strlit("default");
        reveal_strlit("remove");
        assert("default"@[0] == 'd');
        assert("remove"@[0] == 'r');
    }
    assert("default"@ != "pop"@) by {
        reveal_strlit("default");
        reveal_strlit("pop");
        assert("default"@[0] == 'd');
        assert("pop"@[0] == 'p');
    }
    assert("default"@ != "update"@) by {
        reveal_strlit("default");
        reveal_strlit("update");
        assert("default"@[0] == 'd');
        assert("update"@[0] == 'u');
    }
    assert("add"@ != "mul"@) by {
        reveal_strlit("add");
        reveal_strlit("mul");
        assert("add"@[0] == 'a');
        assert("mul"@[0] == 'm');
    }
    assert("add"@ != "pow"@) by {
        reveal_strlit("add");
        reveal_strlit("pow");
        assert("add"@[0] == 'a');
        assert("pow"@[0] == 'p');
    }
    assert("add"@ != "mod"@) by {
        reveal_strlit("add");
        reveal_strlit("mod");
        assert("add"@[0] == 'a');
        assert("mod"@[0] == 'm');
    }
    assert("add"@ != "floor"@) by {
        reveal_strlit("add");
        reveal_strlit("floor");
        assert("add"@[0] == 'a');
        assert("floor"@[0] == 'f');
    }
    assert("add"@ != "ceil"@) by {
        reveal_strlit("add");
        reveal_strlit("ceil");
        assert("add"@[0] == 'a');
        assert("ceil"@[0] == 'c');
    }
    assert("add"@ != "max"@) by {
        reveal_strlit("add");
        reveal_strlit("max");
        assert("add"@[0] == 'a');
        assert("max"@[0] == 'm');
    }
    assert("add"@ != "min"@) by {
        reveal_strlit("add");
        reveal_strlit("min");
        assert("add"@[0] == 'a');
        assert("min"@[0] == 'm');
    }
    assert("add"@ != "and"@) by {
        reveal_strlit("add");
        reveal_strlit("and");
        assert("add"@[1] == 'd');
        assert("and"@[1] == 'n');
    }
    assert("add"@ != "or"@) by {
        reveal_strlit("add");
        reveal_strlit("or");
        assert("add"@[0] == 'a');
        assert("or"@[0] == 'o');
    }
    assert("add"@ != "xor"@) by {
        reveal_strlit("add");
        reveal_strlit("xor");
        assert("add"@[0] == 'a');
        assert("xor"@[0] == 'x');
    }
    assert("add"@ != "left_shift"@) by {
        reveal_strlit("add");
        reveal_strlit("left_shift");
        assert("add"@[0] == 'a');
        assert("left_shift"@[0] == 'l');
    }
    assert("add"@ != "right_shift"@) by {
        reveal_strlit("add");
        reveal_strlit("right_shift");
        assert("add"@[0] == 'a');
        assert("right_shift"@[0] == 'r');
    }
    assert("add"@ != "remove"@) by {
        reveal_strlit("add");
        reveal_strlit("remove");
        assert("add"@[0] == 'a');
        assert("remove"@[0] == 'r');
    }
    assert("add"@ != "pop"@) by {
        reveal_strlit("add");
        reveal_strlit("pop");
        assert("add"@[0] == 'a');
        assert("pop"@[0] == 'p');
    }
    assert("add"@ != "update"@) by {
        reveal_strlit("add");
        reveal_strlit("update");
        assert("add"@[0] == 'a');
        assert("update"@[0] == 'u');
    }
    assert("mul"@ != "pow"@) by {
        reveal_strlit("mul");
        reveal_strlit("pow");
        assert("mul"@[0] == 'm');
        assert("pow"@[0] == 'p');
    }
    assert("mul"@ != "mod"@) by {
        reveal_strlit("mul");
        reveal_strlit("mod");
        assert("mul"@[1] == 'u');
        assert("mod"@[1] == 'o');
    }
    assert("mul"@ != "floor"@) by {
        reveal_strlit("mul");
        reveal_strlit("floor");
        assert("mul"@[0] == 'm');
        assert("floor"@[0] == 'f');
    }
    assert("mul"@ != "ceil"@) by {
        reveal_strlit("mul");
        reveal_strlit("ceil");
        assert("mul"@[0] == 'm');
        assert("ceil"@[0] == 'c');
    }
    assert("mul"@ != "max"@) by {
        reveal_strlit("mul");
        reveal_strlit("max");
        assert("mul"@[1] == 'u');
        assert("max"@[1] == 'a');
    }
    assert("mul"@ != "min"@) by {
        reveal_strlit("mul");
        reveal_strlit("min");
        assert("mul"@[1] == 'u');
        assert("min"@[1] == 'i');
    }
    assert("mul"@ != "and"@) by {
        reveal_strlit("mul");
        reveal_strlit("and");
        assert("mul"@[0] == 'm');
        assert("and"@[0] == 'a');
    }
    assert("mul"@ != "or"@) by {
        reveal_strlit("mul");
        reveal_strlit("or");
        assert("mul"@[0] == 'm');
        assert("or"@[0] == 'o');
    }
    assert("mul"@ != "xor"@) by {
        reveal_strlit("mul");
        reveal_strlit("xor");
        assert("mul"@[0] == 'm');
        assert("xor"@[0] == 'x');
    }
    assert("mul"@ != "left_shift"@) by {
        reveal_strlit("mul");
        reveal_strlit("left_shift");
        assert("mul"@[0] == 'm');
        assert("left_shift"@[0] == 'l');
    }
    assert("mul"@ != "right_shift"@) by {
        reveal_strlit("mul");
        reveal_strlit("right_shift");
        assert("mul"@[0] == 'm');
        assert("right_shift"@[0] == 'r');
    }
    assert("mul"@ != "remove"@) by {
        reveal_strlit("mul");
        reveal_strlit("remove");
        assert("mul"@[0] == 'm');
        assert("remove"@[0] == 'r');
    }
    assert("mul"@ != "pop"@) by {
        reveal_strlit("mul");
        reveal_strlit("pop");
        assert("mul"@[0] == 'm');
        assert("pop"@[0] == 'p');
    }
    assert("mul"@ != "update"@) by {
        reveal_strlit("mul");
        reveal_strlit("update");
        assert("mul"@[0] == 'm');
        assert("update"@[0] == 'u');
    }
    assert("pow"@ != "mod"@) by {
        reveal_strlit("pow");
        reveal_strlit("mod");
        assert("pow"@[0] == 'p');
        assert("mod"@[0] == 'm');
    }
    assert("pow"@ != "floor"@) by {
        reveal_strlit("pow");
        reveal_strlit("floor");
        assert("pow"@[0] == 'p');
        assert("floor"@[0] == 'f');
    }
    assert("pow"@ != "ceil"@) by {
        reveal_strlit("pow");
        reveal_strlit("ceil");
        assert("pow"@[0] == 'p');
        assert("ceil"@[0] == 'c');
    }
    assert("pow"@ != "max"@) by {
        reveal_strlit("pow");
        reveal_strlit("max");
        assert("pow"@[0] == 'p');
        assert("max"@[0] == 'm');
    }
    assert("pow"@ != "min"@) by {
        reveal_strlit("pow");
        reveal_strlit("min");
        assert("pow"@[0] == 'p');
        assert("min"@[0] == 'm');
    }
    assert("pow"@ != "and"@) by {
        reveal_strlit("pow");
        reveal_strlit("and");
        assert("pow"@[0] == 'p');
        assert("and"@[0] == 'a');
    }
    assert("pow"@ != "or"@) by {
        reveal_strlit("pow");
        reveal_strlit("or");
        assert("pow"@[0] == 'p');
        assert("or"@[0] == 'o');
    }
    assert("pow"@ != "xor"@) by {
        reveal_strlit("pow");
        reveal_strlit("xor");
        assert("pow"@[0] == 'p');
        assert("xor"@[0] == 'x');
    }
    assert("pow"@ != "left_shift"@) by {
        reveal_strlit("pow");
        reveal_strlit("left_shift");
        assert("pow"@[0] == 'p');
        assert("left_shift"@[0] == 'l');
    }
    assert("pow"@ != "right_shift"@) by {
        reveal_strlit("pow");
        reveal_strlit("right_shift");
        assert("pow"@[0] == 'p');
        assert("right_shift"@[0] == 'r');
    }
    assert("pow"@ != "remove"@) by {
        reveal_strlit("pow");
        reveal_strlit("remove");
        assert("pow"@[0] == 'p');
        assert("remove"@[0] == 'r');
    }
    assert("pow"@ != "pop"@) by {
        reveal_strlit("pow");
        reveal_strlit("pop");
        assert("pow"@[2] == 'w');
        assert("pop"@[2] == 'p');
    }
    assert("pow"@ != "update"@) by {
        reveal_strlit("pow");
        reveal_strlit("update");
        assert("pow"@[0] == 'p');
        assert("update"@[0] == 'u');
    }
    assert("mod"@ != "floor"@) by {
        reveal_strlit("mod");
        reveal_strlit("floor");
        assert("mod"@[0] == 'm');
        assert("floor"@[0] == 'f');
    }
    assert("mod"@ != "ceil"@) by {
        reveal_strlit("mod");
        reveal_strlit("ceil");
        assert("mod"@[0] == 'm');
        assert("ceil"@[0] == 'c');
    }
    assert("mod"@ != "max"@) by {
        reveal_strlit("mod");
        reveal_strlit("max");
        assert("mod"@[1] == 'o');
        assert("max"@[1] == 'a');
    }
    assert("mod"@ != "min"@) by {
        reveal_strlit("mod");
        reveal_strlit("min");
        assert("mod"@[1] == 'o');
        assert("min"@[1] == 'i');
    }
    assert("mod"@ != "and"@) by {
        reveal_strlit("mod");
        reveal_strlit("and");
        assert("mod"@[0] == 'm');
        assert("and"@[0] == 'a');
    }
    assert("mod"@ != "or"@) by {
        reveal_strlit("mod");
        reveal_strlit("or");
        assert("mod"@[0] == 'm');
        assert("or"@[0] == 'o');
    }
    assert("mod"@ != "xor"@) by {
        reveal_strlit("mod");
        reveal_strlit("xor");
        assert("mod"@[0] == 'm');
        assert("xor"@[0] == 'x');
    }
    assert("mod"@ != "left_shift"@) by {
        reveal_strlit("mod");
        reveal_strlit("left_shift");
        assert("mod"@[0] == 'm');
        assert("left_shift"@[0] == 'l');
    }
    assert("mod"@ != "right_shift"@) by {
        reveal_strlit("mod");
        reveal_strlit("right_shift");
        assert("mod"@[0] == 'm');
        assert("right_shift"@[0] == 'r');
    }
    assert("mod"@ != "remove"@) by {
        reveal_strlit("mod");
        reveal_strlit("remove");
        assert("mod"@[0] == 'm');
        assert("remove"@[0] == 'r');
    }
    assert("mod"@ != "pop"@) by {
        reveal_strlit("mod");
        reveal_strlit("pop");
        assert("mod"@[0] == 'm');
        assert("pop"@[0] == 'p');
    }
    assert("mod"@ != "update"@) by {
        reveal_strlit("mod");
        reveal_strlit("update");
        assert("mod"@[0] == 'm');
        assert("update"@[0] == 'u');
    }
    assert("floor"@ != "ceil"@) by {
        reveal_strlit("floor");
        reveal_strlit("ceil");
        assert("floor"@[0] == 'f');
        assert("ceil"@[0] == 'c');
    }
    assert("floor"@ != "max"@) by {
        reveal_strlit("floor");
        reveal_strlit("max");
        assert("floor"@[0] == 'f');
        assert("max"@[0] == 'm');
    }
    assert("floor"@ != "min"@) by {
        reveal_strlit("floor");
        reveal_strlit("min");
        assert("floor"@[0] == 'f');
        assert("min"@[0] == 'm');
    }
    assert("floor"@ != "and"@) by {
        reveal_strlit("floor");
        reveal_strlit("and");
        assert("floor"@[0] == 'f');
        assert("and"@[0] == 'a');
    }
    assert("floor"@ != "or"@) by {
        reveal_strlit("floor");
        reveal_strlit("or");
        assert("floor"@[0] == 'f');
        assert("or"@[0] == 'o');
    }
    assert("floor"@ != "xor"@) by {
        reveal_strlit("floor");
        reveal_strlit("xor");
        assert("floor"@[0] == 'f');
        assert("xor"@[0] == 'x');
    }
    assert("floor"@ != "left_shift"@) by {
        reveal_strlit("floor");
        reveal_strlit("left_shift");
        assert("floor"@[0] == 'f');
        assert("left_shift"@[0] == 'l');
    }
    assert("floor"@ != "right_shift"@) by {
        reveal_strlit("floor");
        reveal_strlit("right_shift");
        assert("floor"@[0] == 'f');
        assert("right_shift"@[0] == 'r');
    }
    assert("floor"@ != "remove"@) by {
        reveal_strlit("floor");
        reveal_strlit("remove");
        assert("floor"@[0] == 'f');
        assert("remove"@[0] == 'r');
    }
    assert("floor"@ != "pop"@) by {
        reveal_strlit("floor");
        reveal_strlit("pop");
        assert("floor"@[0] == 'f');
        assert("pop"@[0] == 'p');
    }
    assert("floor"@ != "update"@) by {
        reveal_strlit("floor");
        reveal_strlit("update");
        assert("floor"@[0] == 'f');
        assert("update"@[0] == 'u');
    }
    assert("ceil"@ != "max"@) by {
        reveal_strlit("ceil");
        reveal_strlit("max");
        assert("ceil"@[0] == 'c');
        assert("max"@[0] == 'm');
    }
    assert("ceil"@ != "min"@) by {
        reveal_strlit("ceil");
        reveal_strlit("min");
        assert("ceil"@[0] == 'c');
        assert("min"@[0] == 'm');
    }
    assert("ceil"@ != "and"@) by {
        reveal_strlit("ceil");
        reveal_strlit("and");
        assert("ceil"@[0] == 'c');
        assert("and"@[0] == 'a');
    }
    assert("ceil"@ != "or"@) by {
        reveal_strlit("ceil");
        reveal_strlit("or");
        assert("ceil"@[0] == 'c');
        assert("or"@[0] == 'o');
    }
    assert("ceil"@ != "xor"@) by {
        reveal_strlit("ceil");
        reveal_strlit("xor");
        assert("ceil"@[0] == 'c');
        assert("xor"@[0] == 'x');
    }
    assert("ceil"@ != "left_shift"@) by {
        reveal_strlit("ceil");
        reveal_strlit("left_shift");
        assert("ceil"@[0] == 'c');
        assert("left_shift"@[0] == 'l');
    }
    assert("ceil"@ != "right_shift"@) by {
        reveal_strlit("ceil");
        reveal_strlit("right_shift");
        assert("ceil"@[0] == 'c');
        assert("right_shift"@[0] == 'r');
    }
    assert("ceil"@ != "remove"@) by {
        reveal_strlit("ceil");
        reveal_strlit("remove");
        assert("ceil"@[0] == 'c');
        assert("remove"@[0] == 'r');
    }
    assert("ceil"@ != "pop"@) by {
        reveal_strlit("ceil");
        reveal_strlit("pop");
        assert("ceil"@[0] == 'c');
        assert("pop"@[0] == 'p');
    }
    assert("ceil"@ != "update"@) by {
        reveal_strlit("ceil");
        reveal_strlit("update");
        assert("ceil"@[0] == 'c');
        assert("update"@[0] == 'u');
    }
    assert("max"@ != "min"@) by {
        reveal_strlit("max");
        reveal_strlit("min");
        assert("max"@[1] == 'a');
        assert("min"@[1] == 'i');
    }
    assert("max"@ != "and"@) by {
        reveal_strlit("max");
        reveal_strlit("and");
        assert("max"@[0] == 'm');
        assert("and"@[0] == 'a');
    }
    assert("max"@ != "or"@) by {
        reveal_strlit("max");
        reveal_strlit("or");
        assert("max"@[0] == 'm');
        assert("or"@[0] == 'o');
    }
    assert("max"@ != "xor"@) by {
        reveal_strlit("max");
        reveal_strlit("xor");
        assert("max"@[0] == 'm');
        assert("xor"@[0] == 'x');
    }
    assert("max"@ != "left_shift"@) by {
        reveal_strlit("max");
        reveal_strlit("left_shift");
        assert("max"@[0] == 'm');
        assert("left_shift"@[0] == 'l');
    }
    assert("max"@ != "right_shift"@) by {
        reveal_strlit("max");
        reveal_strlit("right_shift");
        assert("max"@[0] == 'm');
        assert("right_shift"@[0] == 'r');
    }
    assert("max"@ != "remove"@) by {
        reveal_strlit("max");
        reveal_strlit("remove");
        assert("max"@[0] == 'm');
        assert("remove"@[0] == 'r');
    }
    assert("max"@ != "pop"@) by {
        reveal_strlit("max");
        reveal_strlit("pop");
        assert("max"@[0] == 'm');
        assert("pop"@[0] == 'p');
    }
    assert("max"@ != "update"@) by {
        reveal_strlit("max");
        reveal_strlit("update");
        assert("max"@[0] == 'm');
        assert("update"@[0] == 'u');
    }
    assert("min"@ != "and"@) by {
        reveal_strlit("min");
        reveal_strlit("and");
        assert("min"@[0] == 'm');
        assert("and"@[0] == 'a');
    }
    assert("min"@ != "or"@) by {
        reveal_strlit("min");
        reveal_strlit("or");
        assert("min"@[0] == 'm');
        assert("or"@[0] == 'o');
    }
    assert("min"@ != "xor"@) by {
        reveal_strlit("min");
        reveal_strlit("xor");
        assert("min"@[0] == 'm');
        assert("xor"@[0] == 'x');
    }
    assert("min"@ != "left_shift"@) by {
        reveal_strlit("min");
        reveal_strlit("left_shift");
        assert("min"@[0] == 'm');
        assert("left_shift"@[0] == 'l');
    }
    assert("min"@ != "right_shift"@) by {
        reveal_strlit("min");
        reveal_strlit("right_shift");
        assert("min"@[0] == 'm');
        assert("right_shift"@[0] == 'r');
    }
    assert("min"@ != "remove"@) by {
        reveal_strlit("min");
        reveal_strlit("remove");
        assert("min"@[0] == 'm');
        assert("remove"@[0] == 'r');
    }
    assert("min"@ != "pop"@) by {
        reveal_strlit("min");
        reveal_strlit("pop");
        assert("min"@[0] == 'm');
        assert("pop"@[0] == 'p');
    }
    assert("min"@ != "update"@) by {
        reveal_strlit("min");
        reveal_strlit("update");
        assert("min"@[0] == 'm');
        assert("update"@[0] == 'u');
    }
    assert("and"@ != "or"@) by {
        reveal_strlit("and");
        reveal_strlit("or");
        assert("and"@[0] == 'a');
        assert("or"@[0] == 'o');
    }
    assert("and"@ != "xor"@) by {
        reveal_strlit("and");
        reveal_strlit("xor");
        assert("and"@[0] == 'a');
        assert("xor"@[0] == 'x');
    }
    assert("and"@ != "left_shift"@) by {
        reveal_strlit("and");
        reveal_strlit("left_shift");
        assert("and"@[0] == 'a');
        assert("left_shift"@[0] == 'l');
    }
    assert("and"@ != "right_shift"@) by {
        reveal_strlit("and");
        reveal_strlit("right_shift");
        assert("and"@[0] == 'a');
        assert("right_shift"@[0] == 'r');
    }
    assert("and"@ != "remove"@) by {
        reveal_strlit("and");
        reveal_strlit("remove");
        assert("and"@[0] == 'a');
        assert("remove"@[0] == 'r');
    }
    assert("and"@ != "pop"@) by {
        reveal_strlit("and");
        reveal_strlit("pop");
        assert("and"@[0] == 'a');
        assert("pop"@[0] == 'p');
    }
    assert("and"@ != "update"@) by {
        reveal_strlit("and");
        reveal_strlit("update");
        assert("and"@[0] == 'a');
        assert("update"@[0] == 'u');
    }
    assert("or"@ != "xor"@) by {
        reveal_strlit("or");
        reveal_strlit("xor");
        assert("or"@[0] == 'o');
        assert("xor"@[0] == 'x');
    }
    assert("or"@ != "left_shift"@) by {
        reveal_strlit("or");
        reveal_strlit("left_shift");
        assert("or"@[0] == 'o');
        assert("left_shift"@[0] == 'l');
    }
    assert("or"@ != "right_shift"@) by {
        reveal_strlit("or");
        reveal_strlit("right_shift");
        assert("or"@[0] == 'o');
        assert("right_shift"@[0] == 'r');
    }
    assert("or"@ != "remove"@) by {
        reveal_strlit("or");
        reveal_strlit("remove");
        assert("or"@[0] == 'o');
        assert("remove"@[0] == 'r');
    }
    assert("or"@ != "pop"@) by {
        reveal_strlit("or");
        reveal_strlit("pop");
        assert("or"@[0] == 'o');
        assert("pop"@[0] == 'p');
    }
    assert("or"@ != "update"@) by {
        reveal_strlit("or");
        reveal_strlit("update");
        assert("or"@[0] == 'o');
        assert("update"@[0] == 'u');
    }
    assert("xor"@ != "left_shift"@) by {
        reveal_strlit("xor");
        reveal_strlit("left_shift");
        assert("xor"@[0] == 'x');
        assert("left_shift"@[0] == 'l');
    }
    assert("xor"@ != "right_shift"@) by {
        reveal_strlit("xor");
        reveal_strlit("right_shift");
        assert("xor"@[0] == 'x');
        assert("right_shift"@[0] == 'r');
    }
    assert("xor"@ != "remove"@) by {
        reveal_strlit("xor");
        reveal_strlit("remove");
        assert("xor"@[0] == 'x');
        assert("remove"@[0] == 'r');
    }
    assert("xor"@ != "pop"@) by {
        reveal_strlit("xor");
        reveal_strlit("pop");
        assert("xor"@[0] == 'x');
        assert("pop"@[0] == 'p');
    }
    assert("xor"@ != "update"@) by {
        reveal_strlit("xor");
        reveal_strlit("update");
        assert("xor"@[0] == 'x');
        assert("update"@[0] == 'u');
    }
    assert("left_shift"@ != "right_shift"@) by {
        reveal_strlit("left_shift");
        reveal_strlit("right_shift");
        assert("left_shift"@[0] == 'l');
        assert("right_shift"@[0] == 'r');
    }
    assert("left_shift"@ != "remove"@) by {
        reveal_strlit("left_shift");
        reveal_strlit("remove");
        assert("left_shift"@[0] == 'l');
        assert("remove"@[0] == 'r');
    }
    assert("left_shift"@ != "pop"@) by {
        reveal_strlit("left_shift");
        reveal_strlit("pop");
        assert("left_shift"@[0] == 'l');
        assert("pop"@[0] == 'p');
    }
    assert("left_shift"@ != "update"@) by {
        reveal_strlit("left_shift");
        reveal_strlit("update");
        assert("left_shift"@[0] == 'l');
        assert("update"@[0] == 'u');
    }
    assert("right_shift"@ != "remove"@) by {
        reveal_strlit("right_shift");
        reveal_strlit("remove");
        assert("right_shift"@[1] == 'i');
        assert("remove"@[1] == 'e');
    }
    assert("right_shift"@ != "pop"@) by {
        reveal_strlit("right_shift");
        reveal_strlit("pop");
        assert("right_shift"@[0] == 'r');
        assert("pop"@[0] == 'p');
    }
    assert("right_shift"@ != "update"@) by {
        reveal_strlit("right_shift");
        reveal_strlit("update");
        assert("right_shift"@[0] == 'r');
        assert("update"@[0] == 'u');
    }
    assert("remove"@ != "pop"@) by {
        reveal_strlit("remove");
        reveal_strlit("pop");
        assert("remove"@[0] == 'r');
        assert("pop"@[0] == 'p');
    }
    assert("remove"@ != "update"@) by {
        reveal_strlit("remove");
        reveal_strlit("update");
        assert("remove"@[0] == 'r');
        assert("update"@[0] == 'u');
    }
    assert("pop"@ != "update"@) by {
        reveal_strlit("pop");
        reveal_strlit("update");
        assert("pop"@[0] == 'p');
        assert("update"@[0] == 'u');
    }
    let fs = enc_operation(op)->Obj_0;
    lemma_obj_get_at(fs, "operation"@, 0);
    match op {
        SpecDataStorageOperation::Replace(_) => {
            lemma_obj_get_at(fs, "value"@, 1);
        }
        SpecDataStorageOperation::Default => {}
        SpecDataStorageOperation::Add(_) => {
            lemma_obj_get_at(fs, "value"@, 1);
        }
        SpecDataStorageOperation::Mul(_) => {
            lemma_obj_get_at(fs, "value"@, 1);
        }
        SpecDataStorageOperation::Pow(_) => {
            lemma_obj_get_at(fs, "value"@, 1);
        }
        SpecDataStorageOperation::Mod(_) => {
            lemma_obj_get_at(fs, "value"@, 1);
        }
        SpecDataStorageOperation::Floor => {}
        SpecDataStorageOperation::Ceil => {}
        SpecDataStorageOperation::Max(_) => {
            lemma_obj_get_at(fs, "value"@, 1);
        }
        SpecDataStorageOperation::Min(_) => {
            lemma_obj_get_at(fs, "value"@, 1);
        }
        SpecDataStorageOperation::And(_) => {
            lemma_obj_get_at(fs, "value"@, 1);
        }
        SpecDataStorageOperation::Or(_) => {
            lemma_obj_get_at(fs, "value"@, 1);
        }
        SpecDataStorageOperation::Xor(_) => {
            lemma_obj_get_at(fs, "value"@, 1);
        }
        SpecDataStorageOperation::LeftShift(_) => {
            lemma_obj_get_at(fs, "value"@, 1);
        }
        SpecDataStorageOperation::RightShift(_) => {
            lemma_obj_get_at(fs, "value"@, 1);
        }
        SpecDataStorageOperation::Remove(_) => {
            lemma_obj_get_at(fs, "value"@, 1);
        }
        SpecDataStorageOperation::Pop(_) => {
            lemma_obj_get_at(fs, "value"@, 1);
        }
        SpecDataStorageOperation::Update(_) => {
            lemma_obj_get_at(fs, "value"@, 1);
        }
    }
}

pub open spec fn enc_operation_seq(s: Seq<SpecDataStorageOperation>) -> Seq<SpecJson> {
    s.map_values(|op: SpecDataStorageOperation| enc_operation(op))
}

pub open spec fn dec_operation_seq(items: Seq<SpecJson>) -> Option<Seq<SpecDataStorageOperation>> {
    crate::codec::dec_all(items, |v: SpecJson| dec_operation(v))
}

pub proof fn lemma_operation_seq_roundtrip(s: Seq<SpecDataStorageOperation>)
    ensures
        dec_operation_seq(enc_operation_seq(s)) == Some(s),
{
    let enc = |op: SpecDataStorageOperation| enc_operation(op);
    let d = |v: SpecJson| dec_operation(v);
    assert forall|i: int| 0 <= i < s.len() implies #[trigger] d(enc(s[i])) == Some(s[i]) by {
        lemma_operation_roundtrip(s[i]);
    }
    crate::codec::lemma_dec_enc_all(s, enc, d);
}

pub fn encode_operations(v: &Vec<DataStorageOperation>) -> (r: JsonValue)
    ensures
        r@ == SpecJson::Arr(enc_operation_seq(deep(v@))),
{
    let mut out: Vec<JsonValue> = Vec::new();
    let mut i: usize = 0;
    while i < v.len()
        invariant
            i <= v.len(),
            out@.len() == i as nat,
            forall|j: int| 0 <= j < i ==> out@[j]@ == enc_operation(v@[j]@),
        decreases v.len() - i,
    {
        out.push(encode_operation(&v[i]));
        i = i + 1;
    }
    let r = JsonValue::Arr(out);
    proof {
        lemma_model_of_seq(out@);
        assert(model_of_seq(out@) =~= enc_operation_seq(deep(v@)));
    }
    r
}

// ---------------------------------------------------------------------------
// Set request
// ---------------------------------------------------------------------------
pub open spec fn enc_set_request_fields(p: SpecSetRequest) -> Seq<(Seq<char>, SpecJson)> {
    seq![
        ("key"@, SpecJson::Str(p.key)),
        ("default"@, p.default),
        ("want_reply"@, SpecJson::Bool(p.want_reply)),
        ("operations"@, SpecJson::Arr(enc_operation_seq(p.operations))),
    ]
}

pub open spec fn dec_set_request(v: SpecJson) -> Option<SpecSetRequest> {
    match v {
        SpecJson::Obj(fs) => match (
            dec_field_str(fs, "key"@),
            dec_field(fs, "default"@),
            dec_field_bool(fs, "want_reply"@),
            dec_field(fs, "operations"@),
        ) {
            (Some(key), Some(default), Some(want_reply), Some(SpecJson::Arr(o))) => match
                dec_operation_seq(o) {
                Some(operations) => Some(SpecSetRequest { key, default, want_reply, operations }),
                None => None,
            },
            _ => None,
        },
        _ => None,
    }
}

pub fn encode_set_request_fields(p: &SetRequest) -> (r: Vec<(String, JsonValue)>)
    ensures
        deep(r@) == enc_set_request_fields(p@),
{
    let mut fs: Vec<(String, JsonValue)> = Vec::new();
    fs.push(("key".to_owned(), JsonValue::Str(p.key.clone())));
    fs.push(("default".to_owned(), p.default.duplicate()));
    fs.push(("want_reply".to_owned(), JsonValue::Bool(p.want_reply)));
    fs.push(("operations".to_owned(), encode_operations(&p.operations)));
    proof {
        assert(deep(fs@) =~= enc_set_request_fields(p@));
    }
    fs
}

pub proof fn lemma_set_request_roundtrip(p: SpecSetRequest, pre: Seq<(Seq<char>, SpecJson)>)
    requires
        forall|j: int| 0 <= j < pre.len() ==> (#[trigger] pre[j]).0 == "cmd"@,
    ensures
        dec_set_request(SpecJson::Obj(pre + enc_set_request_fields(p))) == Some(p),
{
    assert("cmd"@ != "key"@) by {
        reveal_strlit("cmd");
        reveal_strlit("key");
        assert("cmd"@[0] == 'c');
        assert("key"@[0] == 'k');
    }
    assert("cmd"@ != "default"@) by {
        reveal_strlit("cmd");
        reveal_strlit("default");
        assert("cmd"@[0] == 'c');
        assert("default"@[0] == 'd');
    }
    assert("cmd"@ != "want_reply"@) by {
        reveal_strlit("cmd");
        reveal_strlit("want_reply");
        assert("cmd"@[0] == 'c');
        assert("want_reply"@[0] == 'w');
    }
    assert("cmd"@ != "operations"@) by {
        reveal_strlit("cmd");
        reveal_strlit("operations");
        assert("cmd"@[0] == 'c');
        assert("operations"@[0] == 'o');
    }
    assert("key"@ != "default"@) by {
        reveal_strlit("key");
        reveal_strlit("default");
        assert("key"@[0] == 'k');
        assert("default"@[0] == 'd');
    }
    assert("key"@ != "want_reply"@) by {
        reveal_strlit("key");
        reveal_strlit("want_reply");
        assert("key"@[0] == 'k');
        assert("want_reply"@[0] == 'w');
    }
    assert("key"@ != "operations"@) by {
        reveal_strlit("key");
        reveal_strlit("operations");
        assert("key"@[0] == 'k');
        assert("operations"@[0] == 'o');
    }
    assert("default"@ != "want_reply"@) by {
        reveal_strlit("default");
        reveal_strlit("want_reply");
        assert("default"@[0] == 'd');
        assert("want_reply"@[0] == 'w');
    }
    assert("default"@ != "operations"@) by {
        reveal_strlit("default");
        reveal_strlit("operations");
        assert("default"@[0] == 'd');
        assert("operations"@[0] == 'o');
    }
    assert("want_reply"@ != "operations"@) by {
        reveal_strlit("want_reply");
        reveal_strlit("operations");
        assert("want_reply"@[0] == 'w');
        assert("operations"@[0] == 'o');
    }
    let fields = enc_set_request_fields(p);
    let m = pre + fields;
    let n = pre.len() as int;
    assert(forall|j: int| n <= j < m.len() ==> #[trigger] m[j] == fields[j - n]);
    assert(forall|j: int| 0 <= j < n ==> #[trigger] m[j] == pre[j]);
    lemma_obj_get_at(m, "key"@, n);
    lemma_obj_get_at(m, "default"@, n + 1);
    lemma_obj_get_at(m, "want_reply"@, n + 2);
    lemma_obj_get_at(m, "operations"@, n + 3);
    lemma_operation_seq_roundtrip(p.operations);
}

// ---------------------------------------------------------------------------
// The outbound family
// ---------------------------------------------------------------------------
pub open spec fn client_tag(m: SpecClientMessage) -> Seq<char> {
    match m {
        SpecClientMessage::Connect(_) => "Connect"@,
        SpecClientMessage::Sync => "Sync"@,
        SpecClientMessage::LocationChecks(_) => "LocationChecks"@,
        SpecClientMessage::LocationScouts(_) => "LocationScouts"@,
        SpecClientMessage::StatusUpdate(_) => "StatusUpdate"@,
        SpecClientMessage::Say(_) => "Say"@,
        SpecClientMessage::GetDataPackage(_) => "GetDataPackage"@,
        SpecClientMessage::Bounce(_) => "Bounce"@,
        SpecClientMessage::Get(_) => "Get"@,
        SpecClientMessage::SetRequest(_) => "Set"@,
        SpecClientMessage::SetNotify(_) => "SetNotify"@,
    }
}

/// The outbound envelope: the `cmd` tag first, then the payload's own fields.
pub open spec fn enc_client(m: SpecClientMessage) -> SpecJson {
    SpecJson::Obj(
        seq![("cmd"@, SpecJson::Str(client_tag(m)))] + match m {
            SpecClientMessage::Connect(p) => enc_connect_fields(p),
            SpecClientMessage::Sync => Seq::empty(),
            SpecClientMessage::LocationChecks(p) => enc_location_checks_fields(p),
            SpecClientMessage::LocationScouts(p) => enc_location_scouts_fields(p),
            SpecClientMessage::StatusUpdate(p) => enc_status_update_fields(p),
            SpecClientMessage::Say(p) => enc_say_fields(p),
            SpecClientMessage::GetDataPackage(p) => enc_get_data_package_fields(p),
            SpecClientMessage::Bounce(p) => enc_bounce_fields(p),
            SpecClientMessage::Get(p) => enc_get_fields(p),
            SpecClientMessage::SetRequest(p) => enc_set_request_fields(p),
            SpecClientMessage::SetNotify(p) => enc_set_notify_fields(p),
        },
    )
}

pub open spec fn dec_client(v: SpecJson) -> Option<SpecClientMessage> {
    match v {
        SpecJson::Obj(fs) => match dec_field_str(fs, "cmd"@) {
            Some(tag) => {
                if tag == "Connect"@ {
                    match dec_connect(v) {
                        Some(p) => Some(SpecClientMessage::Connect(p)),
                        None => None,
                    }
                } else if tag == "Sync"@ {
                    Some(SpecClientMessage::Sync)
                } else if tag == "LocationChecks"@ {
                    match dec_location_checks(v) {
                        Some(p) => Some(SpecClientMessage::LocationChecks(p)),
                        None => None,
                    }
                } else if tag == "LocationScouts"@ {
                    match dec_location_scouts(v) {
                        Some(p) => Some(SpecClientMessage::LocationScouts(p)),
                        None => None,
                    }
                } else if tag == "StatusUpdate"@ {
                    match dec_status_update(v) {
                        Some(p) => Some(SpecClientMessage::StatusUpdate(p)),
                        None => None,
                    }
                } else if tag == "Say"@ {
                    match dec_say(v) {
                        Some(p) => Some(SpecClientMessage::Say(p)),
                        None => None,
                    }
                } else if tag == "GetDataPackage"@ {
                    match dec_get_data_package(v) {
                        Some(p) => Some(SpecClientMessage::GetDataPackage(p)),
                        None => None,
                    }
                } else if tag == "Bounce"@ {
                    match dec_bounce(v) {
                        Some(p) => Some(SpecClientMessage::Bounce(p)),
                        None => None,
                    }
                } else if tag == "Get"@ {
                    match dec_get(v) {
                        Some(p) => Some(SpecClientMessage::Get(p)),
                        None => None,
                    }
                } else if tag == "Set"@ {
                    match dec_set_request(v) {
                        Some(p) => Some(SpecClientMessage::SetRequest(p)),
                        None => None,
                    }
                } else if tag == "SetNotify"@ {
                    match dec_set_notify(v) {
                        Some(p) => Some(SpecClientMessage::SetNotify(p)),
                        None => None,
                    }
                } else {
                    None
                }
            }
            None => None,
        },
        _ => None,
    }
}

/// Encodes one outbound message as its tagged wire object.
pub fn encode_client_message(m: &ClientMessage) -> (r: JsonValue)
    ensures
        r@ == enc_client(m@),
{
    let mut fs: Vec<(String, JsonValue)> = Vec::new();
    let tag: &str = match m {
        ClientMessage::Connect(_) => "Connect",
        ClientMessage::Sync => "Sync",
        ClientMessage::LocationChecks(_) => "LocationChecks",
        ClientMessage::LocationScouts(_) => "LocationScouts",
        ClientMessage::StatusUpdate(_) => "StatusUpdate",
        ClientMessage::Say(_) => "Say",
        ClientMessage::GetDataPackage(_) => "GetDataPackage",
        ClientMessage::Bounce(_) => "Bounce",
        ClientMessage::Get(_) => "Get",
        ClientMessage::SetRequest(_) => "Set",
        ClientMessage::SetNotify(_) => "SetNotify",
    };
    fs.push(("cmd".to_owned(), JsonValue::Str(tag.to_owned())));
    let mut rest: Vec<(String, JsonValue)> = match m {
        ClientMessage::Connect(p) => encode_connect_fields(p),
        ClientMessage::Sync => Vec::new(),
        ClientMessage::LocationChecks(p) => encode_location_checks_fields(p),
        ClientMessage::LocationScouts(p) => encode_location_scouts_fields(p),
        ClientMessage::StatusUpdate(p) => encode_status_update_fields(p),
        ClientMessage::Say(p) => encode_say_fields(p),
        ClientMessage::GetDataPackage(p) => encode_get_data_package_fields(p),
        ClientMessage::Bounce(p) => encode_bounce_fields(p),
        ClientMessage::Get(p) => encode_get_fields(p),
        ClientMessage::SetRequest(p) => encode_set_request_fields(p),
        ClientMessage::SetNotify(p) => encode_set_notify_fields(p),
    };
    fs.append(&mut rest);
    let r = JsonValue::Obj(fs);
    proof {
        lemma_model_of_fields(fs@);
        assert(model_of_fields(fs@) =~= enc_client(m@)->Obj_0);
    }
    r
}

/// Decoding inverts encoding for every message this client can send.
pub proof fn lemma_client_roundtrip(m: SpecClientMessage)
    ensures
        dec_client(enc_client(m)) == Some(m),
{
    assert("Connect"@ != "Sync"@) by {
        reveal_strlit("Connect");
        reveal_strlit("Sync");
        assert("Connect"@[0] == 'C');
        assert("Sync"@[0] == 'S');
    }
    assert("Connect"@ != "LocationChecks"@) by {
        reveal_strlit("Connect");
        reveal_strlit("LocationChecks");
        assert("Connect"@[0] == 'C');
        assert("LocationChecks"@[0] == 'L');
    }
    assert("Connect"@ != "LocationScouts"@) by {
        reveal_strlit("Connect");
        reveal_strlit("LocationScouts");
        assert("Connect"@[0] == 'C');
        assert("LocationScouts"@[0] == 'L');
    }
    assert("Connect"@ != "StatusUpdate"@) by {
        reveal_strlit("Connect");
        reveal_strlit("StatusUpdate");
        assert("Connect"@[0] == 'C');
        assert("StatusUpdate"@[0] == 'S');
    }
    assert("Connect"@ != "Say"@) by {
        reveal_strlit("Connect");
        reveal_strlit("Say");
        assert("Connect"@[0] == 'C');
        assert("Say"@[0] == 'S');
    }
    assert("Connect"@ != "GetDataPackage"@) by {
        reveal_strlit("Connect");
        reveal_strlit("GetDataPackage");
        assert("Connect"@[0] == 'C');
        assert("GetDataPackage"@[0] == 'G');
    }
    assert("Connect"@ != "Bounce"@) by {
        reveal_strlit("Connect");
        reveal_strlit("Bounce");
        assert("Connect"@[0] == 'C');
        assert("Bounce"@[0] == 'B');
    }
    assert("Connect"@ != "Get"@) by {
        reveal_strlit("Connect");
        reveal_strlit("Get");
        assert("Connect"@[0] == 'C');
        assert("Get"@[0] == 'G');
    }
    assert("Connect"@ != "Set"@) by {
        reveal_strlit("Connect");
        reveal_strlit("Set");
        assert("Connect"@[0] == 'C');
        assert("Set"@[0] == 'S');
    }
    assert("Connect"@ != "SetNotify"@) by {
        reveal_strlit("Connect");
        reveal_strlit("SetNotify");
        assert("Connect"@[0] == 'C');
        assert("SetNotify"@[0] == 'S');
    }
    assert("Sync"@ != "LocationChecks"@) by {
        reveal_strlit("Sync");
        reveal_strlit("LocationChecks");
        assert("Sync"@[0] == 'S');
        assert("LocationChecks"@[0] == 'L');
    }
    assert("Sync"@ != "LocationScouts"@) by {
        reveal_strlit("Sync");
        reveal_strlit("LocationScouts");
        assert("Sync"@[0] == 'S');
        assert("LocationScouts"@[0] == 'L');
    }
    assert("Sync"@ != "StatusUpdate"@) by {
        reveal_strlit("Sync");
        reveal_strlit("StatusUpdate");
        assert("Sync"@[1] == 'y');
        assert("StatusUpdate"@[1] == 't');
    }
    assert("Sync"@ != "Say"@) by {
        reveal_strlit("Sync");
        reveal_strlit("Say");
        assert("Sync"@[1] == 'y');
        assert("Say"@[1] == 'a');
    }
    assert("Sync"@ != "GetDataPackage"@) by {
        reveal_strlit("Sync");
        reveal_strlit("GetDataPackage");
        assert("Sync"@[0] == 'S');
        assert("GetDataPackage"@[0] == 'G');
    }
    assert("Sync"@ != "Bounce"@) by {
        reveal_strlit("Sync");
        reveal_strlit("Bounce");
        assert("Sync"@[0] == 'S');
        assert("Bounce"@[0] == 'B');
    }
    assert("Sync"@ != "Get"@) by {
        reveal_strlit("Sync");
        reveal_strlit("Get");
        assert("Sync"@[0] == 'S');
        assert("Get"@[0] == 'G');
    }
    assert("Sync"@ != "Set"@) by {
        reveal_strlit("Sync");
        reveal_strlit("Set");
        assert("Sync"@[1] == 'y');
        assert("Set"@[1] == 'e');
    }
    assert("Sync"@ != "SetNotify"@) by {
        reveal_strlit("Sync");
        reveal_strlit("SetNotify");
        assert("Sync"@[1] == 'y');
        assert("SetNotify"@[1] == 'e');
    }
    assert("LocationChecks"@ != "LocationScouts"@) by {
        reveal_strlit("LocationChecks");
        reveal_strlit("LocationScouts");
        assert("LocationChecks"@[8] == 'C');
        assert("LocationScouts"@[8] == 'S');
    }
    assert("LocationChecks"@ != "StatusUpdate"@) by {
        reveal_strlit("LocationChecks");
        reveal_strlit("StatusUpdate");
        assert("LocationChecks"@[0] == 'L');
        assert("StatusUpdate"@[0] == 'S');
    }
    assert("LocationChecks"@ != "Say"@) by {
        reveal_strlit("LocationChecks");
        reveal_strlit("Say");
        assert("LocationChecks"@[0] == 'L');
        assert("Say"@[0] == 'S');
    }
    assert("LocationChecks"@ != "GetDataPackage"@) by {
        reveal_strlit("LocationChecks");
        reveal_strlit("GetDataPackage");
        assert("LocationChecks"@[0] == 'L');
        assert("GetDataPackage"@[0] == 'G');
    }
    assert("LocationChecks"@ != "Bounce"@) by {
        reveal_strlit("LocationChecks");
        reveal_strlit("Bounce");
        assert("LocationChecks"@[0] == 'L');
        assert("Bounce"@[0] == 'B');
    }
    assert("LocationChecks"@ != "Get"@) by {
        reveal_strlit("LocationChecks");
        reveal_strlit("Get");
        assert("LocationChecks"@[0] == 'L');
        assert("Get"@[0] == 'G');
    }
    assert("LocationChecks"@ != "Set"@) by {
        reveal_strlit("LocationChecks");
        reveal_strlit("Set");
        assert("LocationChecks"@[0] == 'L');
        assert("Set"@[0] == 'S');
    }
    assert("LocationChecks"@ != "SetNotify"@) by {
        reveal_strlit("LocationChecks");
        reveal_strlit("SetNotify");
        assert("LocationChecks"@[0] == 'L');
        assert("SetNotify"@[0] == 'S');
    }
    assert("LocationScouts"@ != "StatusUpdate"@) by {
        reveal_strlit("LocationScouts");
        reveal_strlit("StatusUpdate");
        assert("LocationScouts"@[0] == 'L');
        assert("StatusUpdate"@[0] == 'S');
    }
    assert("LocationScouts"@ != "Say"@) by {
        reveal_strlit("LocationScouts");
        reveal_strlit("Say");
        assert("LocationScouts"@[0] == 'L');
        assert("Say"@[0] == 'S');
    }
    assert("LocationScouts"@ != "GetDataPackage"@) by {
        reveal_strlit("LocationScouts");
        reveal_strlit("GetDataPackage");
        assert("LocationScouts"@[0] == 'L');
        assert("GetDataPackage"@[0] == 'G');
    }
    assert("LocationScouts"@ != "Bounce"@) by {
        reveal_strlit("LocationScouts");
        reveal_strlit("Bounce");
        assert("LocationScouts"@[0] == 'L');
        assert("Bounce"@[0] == 'B');
    }
    assert("LocationScouts"@ != "Get"@) by {
        reveal_strlit("LocationScouts");
        reveal_strlit("Get");
        assert("LocationScouts"@[0] == 'L');
        assert("Get"@[0] == 'G');
    }
    assert("LocationScouts"@ != "Set"@) by {
        reveal_strlit("LocationScouts");
        reveal_strlit("Set");
        assert("LocationScouts"@[0] == 'L');
        assert("Set"@[0] == 'S');
    }
    assert("LocationScouts"@ != "SetNotify"@) by {
        reveal_strlit("LocationScouts");
        reveal_strlit("SetNotify");
        assert("LocationScouts"@[0] == 'L');
        assert("SetNotify"@[0] == 'S');
    }
    assert("StatusUpdate"@ != "Say"@) by {
        reveal_strlit("StatusUpdate");
        reveal_strlit("Say");
        assert("StatusUpdate"@[1] == 't');
        assert("Say"@[1] == 'a');
    }
    assert("StatusUpdate"@ != "GetDataPackage"@) by {
        reveal_strlit("StatusUpdate");
        reveal_strlit("GetDataPackage");
        assert("StatusUpdate"@[0] == 'S');
        assert("GetDataPackage"@[0] == 'G');
    }
    assert("StatusUpdate"@ != "Bounce"@) by {
        reveal_strlit("StatusUpdate");
        reveal_strlit("Bounce");
        assert("StatusUpdate"@[0] == 'S');
        assert("Bounce"@[0] == 'B');
    }
    assert("StatusUpdate"@ != "Get"@) by {
        reveal_strlit("StatusUpdate");
        reveal_strlit("Get");
        assert("StatusUpdate"@[0] == 'S');
        assert("Get"@[0] == 'G');
    }
    assert("StatusUpdate"@ != "Set"@) by {
        reveal_strlit("StatusUpdate");
        reveal_strlit("Set");
        assert("StatusUpdate"@[1] == 't');
        assert("Set"@[1] == 'e');
    }
    assert("StatusUpdate"@ != "SetNotify"@) by {
        reveal_strlit("StatusUpdate");
        reveal_strlit("SetNotify");
        assert("StatusUpdate"@[1] == 't');
        assert("SetNotify"@[1] == 'e');
    }
    assert("Say"@ != "GetDataPackage"@) by {
        reveal_strlit("Say");
        reveal_strlit("GetDataPackage");
        assert("Say"@[0] == 'S');
        assert("GetDataPackage"@[0] == 'G');
    }
    assert("Say"@ != "Bounce"@) by {
        reveal_strlit("Say");
        reveal_strlit("Bounce");
        assert("Say"@[0] == 'S');
        assert("Bounce"@[0] == 'B');
    }
    assert("Say"@ != "Get"@) by {
        reveal_strlit("Say");
        reveal_strlit("Get");
        assert("Say"@[0] == 'S');
        assert("Get"@[0] == 'G');
    }
    assert("Say"@ != "Set"@) by {
        reveal_strlit("Say");
        reveal_strlit("Set");
        assert("Say"@[1] == 'a');
        assert("Set"@[1] == 'e');
    }
    assert("Say"@ != "SetNotify"@) by {
        reveal_strlit("Say");
        reveal_strlit("SetNotify");
        assert("Say"@[1] == 'a');
        assert("SetNotify"@[1] == 'e');
    }
    assert("GetDataPackage"@ != "Bounce"@) by {
        reveal_strlit("GetDataPackage");
        reveal_strlit("Bounce");
        assert("GetDataPackage"@[0] == 'G');
        assert("Bounce"@[0] == 'B');
    }
    assert("GetDataPackage"@ != "Get"@) by {
        reveal_strlit("GetDataPackage");
        reveal_strlit("Get");
        assert("GetDataPackage"@.len() == 14);
        assert("Get"@.len() == 3);
    }
    assert("GetDataPackage"@ != "Set"@) by {
        reveal_strlit("GetDataPackage");
        reveal_strlit("Set");
        assert("GetDataPackage"@[0] == 'G');
        assert("Set"@[0] == 'S');
    }
    assert("GetDataPackage"@ != "SetNotify"@) by {
        reveal_strlit("GetDataPackage");
        reveal_strlit("SetNotify");
        assert("GetDataPackage"@[0] == 'G');
        assert("SetNotify"@[0] == 'S');
    }
    assert("Bounce"@ != "Get"@) by {
        reveal_strlit("Bounce");
        reveal_strlit("Get");
        assert("Bounce"@[0] == 'B');
        assert("Get"@[0] == 'G');
    }
    assert("Bounce"@ != "Set"@) by {
        reveal_strlit("Bounce");
        reveal_strlit("Set");
        assert("Bounce"@[0] == 'B');
        assert("Set"@[0] == 'S');
    }
    assert("Bounce"@ != "SetNotify"@) by {
        reveal_strlit("Bounce");
        reveal_strlit("SetNotify");
        assert("Bounce"@[0] == 'B');
        assert("SetNotify"@[0] == 'S');
    }
    assert("Get"@ != "Set"@) by {
        reveal_strlit("Get");
        reveal_strlit("Set");
        assert("Get"@[0] == 'G');
        assert("Set"@[0] == 'S');
    }
    assert("Get"@ != "SetNotify"@) by {
        reveal_strlit("Get");
        reveal_strlit("SetNotify");
        assert("Get"@[0] == 'G');
        assert("SetNotify"@[0] == 'S');
    }
    assert("Set"@ != "SetNotify"@) by {
        reveal_strlit("Set");
        reveal_strlit("SetNotify");
        assert("Set"@.len() == 3);
        assert("SetNotify"@.len() == 9);
    }
    let pre = seq![("cmd"@, SpecJson::Str(client_tag(m)))];
    let fs = enc_client(m)->Obj_0;
    lemma_obj_get_at(fs, "cmd"@, 0);
    match m {
        SpecClientMessage::Connect(p) => {
            lemma_connect_roundtrip(p, pre);
        }
        SpecClientMessage::Sync => {
            assert(enc_client(m)->Obj_0 =~= pre);
        }
        SpecClientMessage::LocationChecks(p) => {
            lemma_location_checks_roundtrip(p, pre);
        }
        SpecClientMessage::LocationScouts(p) => {
            lemma_location_scouts_roundtrip(p, pre);
        }
        SpecClientMessage::StatusUpdate(p) => {
            lemma_status_update_roundtrip(p, pre);
        }
        SpecClientMessage::Say(p) => {
            lemma_say_roundtrip(p, pre);
        }
        SpecClientMessage::GetDataPackage(p) => {
            lemma_get_data_package_roundtrip(p, pre);
        }
        SpecClientMessage::Bounce(p) => {
            lemma_bounce_roundtrip(p, pre);
        }
        SpecClientMessage::Get(p) => {
            lemma_get_roundtrip(p, pre);
        }
        SpecClientMessage::SetRequest(p) => {
            lemma_set_request_roundtrip(p, pre);
        }
        SpecClientMessage::SetNotify(p) => {
            lemma_set_notify_roundtrip(p, pre);
        }
    }
}

} // verus!
