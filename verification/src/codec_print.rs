//! Codec for the rich-text event message, tagged by its `type` field beside
//! the family tag.

use vstd::prelude::*;

use crate::codec::{lemma_obj_get_at, obj_get, opt_view};
use crate::codec_arrays::{
    dec_part_seq, dec_str_seq, decode_part_vec, decode_strings, enc_str_seq,
    lemma_str_seq_roundtrip,
};
use crate::codec_composite::lemma_part_roundtrip;
use crate::codec_values::{
    dec_field, dec_field_bool, dec_field_i64, dec_field_str, dec_item, decode_item, enc_item,
    lemma_item_roundtrip, str_is,
};
use crate::json::{model_of_fields, spec_obj_get, JsonValue, SpecJson};
use crate::protocol::{deep, PrintJSON, SpecJSONMessagePart, SpecPrintJSON};

verus! {

broadcast use {vstd::std_specs::vec::group_vec_axioms, vstd::seq::group_seq_axioms};

pub open spec fn enc_part_seq(s: Seq<SpecJSONMessagePart>) -> Seq<SpecJson> {
    s.map_values(|p: SpecJSONMessagePart| crate::codec_composite::enc_part(p))
}

pub proof fn lemma_part_seq_roundtrip(s: Seq<SpecJSONMessagePart>)
    ensures
        dec_part_seq(enc_part_seq(s)) == Some(s),
{
    let enc = |p: SpecJSONMessagePart| crate::codec_composite::enc_part(p);
    let d = |v: SpecJson| crate::codec_composite::dec_part(v);
    assert forall|i: int| 0 <= i < s.len() implies #[trigger] d(enc(s[i])) == Some(s[i]) by {
        lemma_part_roundtrip(s[i]);
    }
    crate::codec::lemma_dec_enc_all(s, enc, d);
}

pub open spec fn print_tag(p: SpecPrintJSON) -> Seq<char> {
    match p {
        SpecPrintJSON::ItemSend { .. } => "ItemSend"@,
        SpecPrintJSON::ItemCheat { .. } => "ItemCheat"@,
        SpecPrintJSON::Hint { .. } => "Hint"@,
        SpecPrintJSON::Join { .. } => "Join"@,
        SpecPrintJSON::Part { .. } => "Part"@,
        SpecPrintJSON::Chat { .. } => "Chat"@,
        SpecPrintJSON::ServerChat { .. } => "ServerChat"@,
        SpecPrintJSON::Tutorial { .. } => "Tutorial"@,
        SpecPrintJSON::TagsChanged { .. } => "TagsChanged"@,
        SpecPrintJSON::CommandResult { .. } => "CommandResult"@,
        SpecPrintJSON::AdminCommandResult { .. } => "AdminCommandResult"@,
        SpecPrintJSON::Goal { .. } => "Goal"@,
        SpecPrintJSON::Release { .. } => "Release"@,
        SpecPrintJSON::Collect { .. } => "Collect"@,
        SpecPrintJSON::Countdown { .. } => "Countdown"@,
    }
}

/// The event's wire fields: its `type` tag, its text parts, then the
/// variant's own fields.
pub open spec fn enc_printjson_fields(p: SpecPrintJSON) -> Seq<(Seq<char>, SpecJson)> {
    match p {
        SpecPrintJSON::ItemSend { data, receiving, item } => seq![
            ("type"@, SpecJson::Str("ItemSend"@)),
            ("data"@, SpecJson::Arr(enc_part_seq(data))),
            ("receiving"@, SpecJson::Int(receiving as int)),
            ("item"@, enc_item(item)),
        ],
        SpecPrintJSON::ItemCheat { data, receiving, item, team } => seq![
            ("type"@, SpecJson::Str("ItemCheat"@)),
            ("data"@, SpecJson::Arr(enc_part_seq(data))),
            ("receiving"@, SpecJson::Int(receiving as int)),
            ("item"@, enc_item(item)),
            ("team"@, SpecJson::Int(team as int)),
        ],
        SpecPrintJSON::Hint { data, receiving, item, found } => seq![
            ("type"@, SpecJson::Str("Hint"@)),
            ("data"@, SpecJson::Arr(enc_part_seq(data))),
            ("receiving"@, SpecJson::Int(receiving as int)),
            ("item"@, enc_item(item)),
            ("found"@, SpecJson::Bool(found)),
        ],
        SpecPrintJSON::Join { data, team, slot, tags } => seq![
            ("type"@, SpecJson::Str("Join"@)),
            ("data"@, SpecJson::Arr(enc_part_seq(data))),
            ("team"@, SpecJson::Int(team as int)),
            ("slot"@, SpecJson::Int(slot as int)),
            ("tags"@, SpecJson::Arr(enc_str_seq(tags))),
        ],
        SpecPrintJSON::Part { data, team, slot } => seq![
            ("type"@, SpecJson::Str("Part"@)),
            ("data"@, SpecJson::Arr(enc_part_seq(data))),
            ("team"@, SpecJson::Int(team as int)),
            ("slot"@, SpecJson::Int(slot as int)),
        ],
        SpecPrintJSON::Chat { data, team, slot, message } => seq![
            ("type"@, SpecJson::Str("Chat"@)),
            ("data"@, SpecJson::Arr(enc_part_seq(data))),
            ("team"@, SpecJson::Int(team as int)),
            ("slot"@, SpecJson::Int(slot as int)),
            ("message"@, SpecJson::Str(message)),
        ],
        SpecPrintJSON::ServerChat { data, message } => seq![
            ("type"@, SpecJson::Str("ServerChat"@)),
            ("data"@, SpecJson::Arr(enc_part_seq(data))),
            ("message"@, SpecJson::Str(message)),
        ],
        SpecPrintJSON::Tutorial { data } => seq![
            ("type"@, SpecJson::Str("Tutorial"@)),
            ("data"@, SpecJson::Arr(enc_part_seq(data))),
        ],
        SpecPrintJSON::TagsChanged { data, team, slot, tags } => seq![
            ("type"@, SpecJson::Str("TagsChanged"@)),
            ("data"@, SpecJson::Arr(enc_part_seq(data))),
            ("team"@, SpecJson::Int(team as int)),
            ("slot"@, SpecJson::Int(slot as int)),
            ("tags"@, SpecJson::Arr(enc_str_seq(tags))),
        ],
        SpecPrintJSON::CommandResult { data } => seq![
            ("type"@, SpecJson::Str("CommandResult"@)),
            ("data"@, SpecJson::Arr(enc_part_seq(data))),
        ],
        SpecPrintJSON::AdminCommandResult { data } => seq![
            ("type"@, SpecJson::Str("AdminCommandResult"@)),
            ("data"@, SpecJson::Arr(enc_part_seq(data))),
        ],
        SpecPrintJSON::Goal { data, team, slot } => seq![
            ("type"@, SpecJson::Str("Goal"@)),
            ("data"@, SpecJson::Arr(enc_part_seq(data))),
            ("team"@, SpecJson::Int(team as int)),
            ("slot"@, SpecJson::Int(slot as int)),
        ],
        SpecPrintJSON::Release { data, team, slot } => seq![
            ("type"@, SpecJson::Str("Release"@)),
            ("data"@, SpecJson::Arr(enc_part_seq(data))),
            ("team"@, SpecJson::Int(team as int)),
            ("slot"@, SpecJson::Int(slot as int)),
        ],
        SpecPrintJSON::Collect { data, team, slot } => seq![
            ("type"@, SpecJson::Str("Collect"@)),
            ("data"@, SpecJson::Arr(enc_part_seq(data))),
            ("team"@, SpecJson::Int(team as int)),
            ("slot"@, SpecJson::Int(slot as int)),
        ],
        SpecPrintJSON::Countdown { data, countdown } => seq![
            ("type"@, SpecJson::Str("Countdown"@)),
            ("data"@, SpecJson::Arr(enc_part_seq(data))),
            ("countdown"@, SpecJson::Int(countdown as int)),
        ],
    }
}

pub open spec fn enc_printjson(p: SpecPrintJSON) -> SpecJson {
    SpecJson::Obj(enc_printjson_fields(p))
}

pub open spec fn dec_printjson(v: SpecJson) -> Option<SpecPrintJSON> {
    match v {
        SpecJson::Obj(fs) => match dec_field_str(fs, "type"@) {
            Some(tag) => match dec_field(fs, "data"@) {
                Some(SpecJson::Arr(d)) => match dec_part_seq(d) {
                    Some(data) => dec_tagged_printjson(fs, tag, data),
                    None => None,
                },
                _ => None,
            },
            None => None,
        },
        _ => None,
    }
}

pub open spec fn dec_tagged_printjson(
    fs: Seq<(Seq<char>, SpecJson)>,
    tag: Seq<char>,
    data: Seq<SpecJSONMessagePart>,
) -> Option<SpecPrintJSON> {
    if tag == "ItemSend"@ {
        match (dec_field_i64(fs, "receiving"@), dec_field_item(fs, "item"@)) {
            (Some(receiving), Some(item)) => Some(SpecPrintJSON::ItemSend { data, receiving, item }),
            _ => None,
        }
    } else if tag == "ItemCheat"@ {
        match (dec_field_i64(fs, "receiving"@), dec_field_item(fs, "item"@), dec_field_i64(fs, "team"@)) {
            (Some(receiving), Some(item), Some(team)) => Some(SpecPrintJSON::ItemCheat { data, receiving, item, team }),
            _ => None,
        }
    } else if tag == "Hint"@ {
        match (dec_field_i64(fs, "receiving"@), dec_field_item(fs, "item"@), dec_field_bool(fs, "found"@)) {
            (Some(receiving), Some(item), Some(found)) => Some(SpecPrintJSON::Hint { data, receiving, item, found }),
            _ => None,
        }
    } else if tag == "Join"@ {
        match (dec_field_i64(fs, "team"@), dec_field_i64(fs, "slot"@), dec_field_str_seq(fs, "tags"@)) {
            (Some(team), Some(slot), Some(tags)) => Some(SpecPrintJSON::Join { data, team, slot, tags }),
            _ => None,
        }
    } else if tag == "Part"@ {
        match (dec_field_i64(fs, "team"@), dec_field_i64(fs, "slot"@)) {
            (Some(team), Some(slot)) => Some(SpecPrintJSON::Part { data, team, slot }),
            _ => None,
        }
    } else if tag == "Chat"@ {
        match (dec_field_i64(fs, "team"@), dec_field_i64(fs, "slot"@), dec_field_str(fs, "message"@)) {
            (Some(team), Some(slot), Some(message)) => Some(SpecPrintJSON::Chat { data, team, slot, message }),
            _ => None,
        }
    } else if tag == "ServerChat"@ {
        match (dec_field_str(fs, "message"@)) {
            (Some(message)) => Some(SpecPrintJSON::ServerChat { data, message }),
            _ => None,
        }
    } else if tag == "Tutorial"@ {
        Some(SpecPrintJSON::Tutorial { data })
    } else if tag == "TagsChanged"@ {
        match (dec_field_i64(fs, "team"@), dec_field_i64(fs, "slot"@), dec_field_str_seq(fs, "tags"@)) {
            (Some(team), Some(slot), Some(tags)) => Some(SpecPrintJSON::TagsChanged { data, team, slot, tags }),
            _ => None,
        }
    } else if tag == "CommandResult"@ {
        Some(SpecPrintJSON::CommandResult { data })
    } else if tag == "AdminCommandResult"@ {
        Some(SpecPrintJSON::AdminCommandResult { data })
    } else if tag == "Goal"@ {
        match (dec_field_i64(fs, "team"@), dec_field_i64(fs, "slot"@)) {
            (Some(team), Some(slot)) => Some(SpecPrintJSON::Goal { data, team, slot }),
            _ => None,
        }
    } else if tag == "Release"@ {
        match (dec_field_i64(fs, "team"@), dec_field_i64(fs, "slot"@)) {
            (Some(team), Some(slot)) => Some(SpecPrintJSON::Release { data, team, slot }),
            _ => None,
        }
    } else if tag == "Collect"@ {
        match (dec_field_i64(fs, "team"@), dec_field_i64(fs, "slot"@)) {
            (Some(team), Some(slot)) => Some(SpecPrintJSON::Collect { data, team, slot }),
            _ => None,
        }
    } else if tag == "Countdown"@ {
        match (dec_field_i64(fs, "countdown"@)) {
            (Some(countdown)) => Some(SpecPrintJSON::Countdown { data, countdown }),
            _ => None,
        }
    } else {
        None
    }
}

pub open spec fn dec_field_str_seq(fs: Seq<(Seq<char>, SpecJson)>, key: Seq<char>) -> Option<
    Seq<Seq<char>>,
> {
    match spec_obj_get(fs, key) {
        Some(SpecJson::Arr(a)) => dec_str_seq(a),
        _ => None,
    }
}

pub open spec fn dec_field_item(fs: Seq<(Seq<char>, SpecJson)>, key: Seq<char>) -> Option<
    crate::protocol::NetworkItem,
> {
    match spec_obj_get(fs, key) {
        Some(v) => dec_item(v),
        None => None,
    }
}

pub fn decode_printjson(v: &JsonValue) -> (r: Option<PrintJSON>)
    ensures
        opt_view(r) == dec_printjson(v@),
{
    let fields = match v {
        JsonValue::Obj(fields) => fields,
        _ => { return None },
    };
    let tag = match obj_get(fields, "type") {
        Some(JsonValue::Str(s)) => s,
        _ => { return None },
    };
    let data = match obj_get(fields, "data") {
        Some(JsonValue::Arr(items)) => match decode_part_vec(items) {
            Some(d) => d,
            None => { return None },
        },
        _ => { return None },
    };
    if str_is(tag, "ItemSend") {
        let receiving = match obj_get(fields, "receiving") {
            Some(JsonValue::Int(i)) => *i,
            _ => { return None },
        };
        let item = match obj_get(fields, "item") {
            Some(it) => match decode_item(it) {
                Some(it) => it,
                None => { return None },
            },
            None => { return None },
        };
        Some(PrintJSON::ItemSend { data, receiving, item })
    } else if str_is(tag, "ItemCheat") {
        let receiving = match obj_get(fields, "receiving") {
            Some(JsonValue::Int(i)) => *i,
            _ => { return None },
        };
        let item = match obj_get(fields, "item") {
            Some(it) => match decode_item(it) {
                Some(it) => it,
                None => { return None },
            },
            None => { return None },
        };
        let team = match obj_get(fields, "team") {
            Some(JsonValue::Int(i)) => *i,
            _ => { return None },
        };
        Some(PrintJSON::ItemCheat { data, receiving, item, team })
    } else if str_is(tag, "Hint") {
        let receiving = match obj_get(fields, "receiving") {
            Some(JsonValue::Int(i)) => *i,
            _ => { return None },
        };
        let item = match obj_get(fields, "item") {
            Some(it) => match decode_item(it) {
                Some(it) => it,
                None => { return None },
            },
            None => { return None },
        };
        let found = match obj_get(fields, "found") {
            Some(JsonValue::Bool(b)) => *b,
            _ => { return None },
        };
        Some(PrintJSON::Hint { data, receiving, item, found })
    } else if str_is(tag, "Join") {
        let team = match obj_get(fields, "team") {
            Some(JsonValue::Int(i)) => *i,
            _ => { return None },
        };
        let slot = match obj_get(fields, "slot") {
            Some(JsonValue::Int(i)) => *i,
            _ => { return None },
        };
        let tags = match obj_get(fields, "tags") {
            Some(JsonValue::Arr(items)) => match decode_strings(items) {
                Some(t) => t,
                None => { return None },
            },
            _ => { return None },
        };
        Some(PrintJSON::Join { data, team, slot, tags })
    } else if str_is(tag, "Part") {
        let team = match obj_get(fields, "team") {
            Some(JsonValue::Int(i)) => *i,
            _ => { return None },
        };
        let slot = match obj_get(fields, "slot") {
            Some(JsonValue::Int(i)) => *i,
            _ => { return None },
        };
        Some(PrintJSON::Part { data, team, slot })
    } else if str_is(tag, "Chat") {
        let team = match obj_get(fields, "team") {
            Some(JsonValue::Int(i)) => *i,
            _ => { return None },
        };
        let slot = match obj_get(fields, "slot") {
            Some(JsonValue::Int(i)) => *i,
            _ => { return None },
        };
        let message = match obj_get(fields, "message") {
            Some(JsonValue::Str(s)) => s.clone(),
            _ => { return None },
        };
        Some(PrintJSON::Chat { data, team, slot, message })
    } else if str_is(tag, "ServerChat") {
        let message = match obj_get(fields, "message") {
            Some(JsonValue::Str(s)) => s.clone(),
            _ => { return None },
        };
        Some(PrintJSON::ServerChat { data, message })
    } else if str_is(tag, "Tutorial") {
        Some(PrintJSON::Tutorial { data })
    } else if str_is(tag, "TagsChanged") {
        let team = match obj_get(fields, "team") {
            Some(JsonValue::Int(i)) => *i,
            _ => { return None },
        };
        let slot = match obj_get(fields, "slot") {
            Some(JsonValue::Int(i)) => *i,
            _ => { return None },
        };
        let tags = match obj_get(fields, "tags") {
            Some(JsonValue::Arr(items)) => match decode_strings(items) {
                Some(t) => t,
                None => { return None },
            },
            _ => { return None },
        };
        Some(PrintJSON::TagsChanged { data, team, slot, tags })
    } else if str_is(tag, "CommandResult") {
        Some(PrintJSON::CommandResult { data })
    } else if str_is(tag, "AdminCommandResult") {
        Some(PrintJSON::AdminCommandResult { data })
    } else if str_is(tag, "Goal") {
        let team = match obj_get(fields, "team") {
            Some(JsonValue::Int(i)) => *i,
            _ => { return None },
        };
        let slot = match obj_get(fields, "slot") {
            Some(JsonValue::Int(i)) => *i,
            _ => { return None },
        };
        Some(PrintJSON::Goal { data, team, slot })
    } else if str_is(tag, "Release") {
        let team = match obj_get(fields, "team") {
            Some(JsonValue::Int(i)) => *i,
            _ => { return None },
        };
        let slot = match obj_get(fields, "slot") {
            Some(JsonValue::Int(i)) => *i,
            _ => { return None },
        };
        Some(PrintJSON::Release { data, team, slot })
    } else if str_is(tag, "Collect") {
        let team = match obj_get(fields, "team") {
            Some(JsonValue::Int(i)) => *i,
            _ => { return None },
        };
        let slot = match obj_get(fields, "slot") {
            Some(JsonValue::Int(i)) => *i,
            _ => { return None },
        };
        Some(PrintJSON::Collect { data, team, slot })
    } else if str_is(tag, "Countdown") {
        let countdown = match obj_get(fields, "countdown") {
            Some(JsonValue::Int(i)) => *i,
            _ => { return None },
        };
        Some(PrintJSON::Countdown { data, countdown })
    } else {
        None
    }
}

/// Decoding inverts encoding, also with the family tag in front.
pub proof fn lemma_printjson_roundtrip(p: SpecPrintJSON, pre: Seq<(Seq<char>, SpecJson)>)
    requires
        forall|j: int| 0 <= j < pre.len() ==> (#[trigger] pre[j]).0 == "cmd"@,
    ensures
        dec_printjson(SpecJson::Obj(pre + enc_printjson_fields(p))) == Some(p),
{
    assert("cmd"@ != "type"@) by {
        reveal_strlit("cmd");
        reveal_strlit("type");
        assert("cmd"@[0] == 'c');
        assert("type"@[0] == 't');
    }
    assert("cmd"@ != "data"@) by {
        reveal_strlit("cmd");
        reveal_strlit("data");
        assert("cmd"@[0] == 'c');
        assert("data"@[0] == 'd');
    }
    assert("cmd"@ != "receiving"@) by {
        reveal_strlit("cmd");
        reveal_strlit("receiving");
        assert("cmd"@[0] == 'c');
        assert("receiving"@[0] == 'r');
    }
    assert("cmd"@ != "item"@) by {
        reveal_strlit("cmd");
        reveal_strlit("item");
        assert("cmd"@[0] == 'c');
        assert("item"@[0] == 'i');
    }
    assert("cmd"@ != "team"@) by {
        reveal_strlit("cmd");
        reveal_strlit("team");
        assert("cmd"@[0] == 'c');
        assert("team"@[0] == 't');
    }
    assert("cmd"@ != "slot"@) by {
        reveal_strlit("cmd");
        reveal_strlit("slot");
        assert("cmd"@[0] == 'c');
        assert("slot"@[0] == 's');
    }
    assert("cmd"@ != "tags"@) by {
        reveal_strlit("cmd");
        reveal_strlit("tags");
        assert("cmd"@[0] == 'c');
        assert("tags"@[0] == 't');
    }
    assert("cmd"@ != "message"@) by {
        reveal_strlit("cmd");
        reveal_strlit("message");
        assert("cmd"@[0] == 'c');
        assert("message"@[0] == 'm');
    }
    assert("cmd"@ != "found"@) by {
        reveal_strlit("cmd");
        reveal_strlit("found");
        assert("cmd"@[0] == 'c');
        assert("found"@[0] == 'f');
    }
    assert("cmd"@ != "countdown"@) by {
        reveal_strlit("cmd");
        reveal_strlit("countdown");
        assert("cmd"@[1] == 'm');
        assert("countdown"@[1] == 'o');
    }
    assert("type"@ != "data"@) by {
        reveal_strlit("type");
        reveal_strlit("data");
        assert("type"@[0] == 't');
        assert("data"@[0] == 'd');
    }
    assert("type"@ != "receiving"@) by {
        reveal_strlit("type");
        reveal_strlit("receiving");
        assert("type"@[0] == 't');
        assert("receiving"@[0] == 'r');
    }
    assert("type"@ != "item"@) by {
        reveal_strlit("type");
        reveal_strlit("item");
        assert("type"@[0] == 't');
        assert("item"@[0] == 'i');
    }
    assert("type"@ != "team"@) by {
        reveal_strlit("type");
        reveal_strlit("team");
        assert("type"@[1] == 'y');
        assert("team"@[1] == 'e');
    }
    assert("type"@ != "slot"@) by {
        reveal_strlit("type");
        reveal_strlit("slot");
        assert("type"@[0] == 't');
        assert("slot"@[0] == 's');
    }
    assert("type"@ != "tags"@) by {
        reveal_strlit("type");
        reveal_strlit("tags");
        assert("type"@[1] == 'y');
        assert("tags"@[1] == 'a');
    }
    assert("type"@ != "message"@) by {
        reveal_strlit("type");
        reveal_strlit("message");
        assert("type"@[0] == 't');
        assert("message"@[0] == 'm');
    }
    assert("type"@ != "found"@) by {
        reveal_strlit("type");
        reveal_strlit("found");
        assert("type"@[0] == 't');
        assert("found"@[0] == 'f');
    }
    assert("type"@ != "countdown"@) by {
        reveal_strlit("type");
        reveal_strlit("countdown");
        assert("type"@[0] == 't');
        assert("countdown"@[0] == 'c');
    }
    assert("data"@ != "receiving"@) by {
        reveal_strlit("data");
        reveal_strlit("receiving");
        assert("data"@[0] == 'd');
        assert("receiving"@[0] == 'r');
    }
    assert("data"@ != "item"@) by {
        reveal_strlit("data");
        reveal_strlit("item");
        assert("data"@[0] == 'd');
        assert("item"@[0] == 'i');
    }
    assert("data"@ != "team"@) by {
        reveal_strlit("data");
        reveal_strlit("team");
        assert("data"@[0] == 'd');
        assert("team"@[0] == 't');
    }
    assert("data"@ != "slot"@) by {
        reveal_strlit("data");
        reveal_strlit("slot");
        assert("data"@[0] == 'd');
        assert("slot"@[0] == 's');
    }
    assert("data"@ != "tags"@) by {
        reveal_strlit("data");
        reveal_strlit("tags");
        assert("data"@[0] == 'd');
        assert("tags"@[0] == 't');
    }
    assert("data"@ != "message"@) by {
        reveal_strlit("data");
        reveal_strlit("message");
        assert("data"@[0] == 'd');
        assert("message"@[0] == 'm');
    }
    assert("data"@ != "found"@) by {
        reveal_strlit("data");
        reveal_strlit("found");
        assert("data"@[0] == 'd');
        assert("found"@[0] == 'f');
    }
    assert("data"@ != "countdown"@) by {
        reveal_strlit("data");
        reveal_strlit("countdown");
        assert("data"@[0] == 'd');
        assert("countdown"@[0] == 'c');
    }
    assert("receiving"@ != "item"@) by {
        reveal_strlit("receiving");
        reveal_strlit("item");
        assert("receiving"@[0] == 'r');
        assert("item"@[0] == 'i');
    }
    assert("receiving"@ != "team"@) by {
        reveal_strlit("receiving");
        reveal_strlit("team");
        assert("receiving"@[0] == 'r');
        assert("team"@[0] == 't');
    }
    assert("receiving"@ != "slot"@) by {
        reveal_strlit("receiving");
        reveal_strlit("slot");
        assert("receiving"@[0] == 'r');
        assert("slot"@[0] == 's');
    }
    assert("receiving"@ != "tags"@) by {
        reveal_strlit("receiving");
        reveal_strlit("tags");
        assert("receiving"@[0] == 'r');
        assert("tags"@[0] == 't');
    }
    assert("receiving"@ != "message"@) by {
        reveal_strlit("receiving");
        reveal_strlit("message");
        assert("receiving"@[0] == 'r');
        assert("message"@[0] == 'm');
    }
    assert("receiving"@ != "found"@) by {
        reveal_strlit("receiving");
        reveal_strlit("found");
        assert("receiving"@[0] == 'r');
        assert("found"@[0] == 'f');
    }
    assert("receiving"@ != "countdown"@) by {
        reveal_strlit("receiving");
        reveal_strlit("countdown");
        assert("receiving"@[0] == 'r');
        assert("countdown"@[0] == 'c');
    }
    assert("item"@ != "team"@) by {
        reveal_strlit("item");
        reveal_strlit("team");
        assert("item"@[0] == 'i');
        assert("team"@[0] == 't');
    }
    assert("item"@ != "slot"@) by {
        reveal_strlit("item");
        reveal_strlit("slot");
        assert("item"@[0] == 'i');
        assert("slot"@[0] == 's');
    }
    assert("item"@ != "tags"@) by {
        reveal_strlit("item");
        reveal_strlit("tags");
        assert("item"@[0] == 'i');
        assert("tags"@[0] == 't');
    }
    assert("item"@ != "message"@) by {
        reveal_strlit("item");
        reveal_strlit("message");
        assert("item"@[0] == 'i');
        assert("message"@[0] == 'm');
    }
    assert("item"@ != "found"@) by {
        reveal_strlit("item");
        reveal_strlit("found");
        assert("item"@[0] == 'i');
        assert("found"@[0] == 'f');
    }
    assert("item"@ != "countdown"@) by {
        reveal_strlit("item");
        reveal_strlit("countdown");
        assert("item"@[0] == 'i');
        assert("countdown"@[0] == 'c');
    }
    assert("team"@ != "slot"@) by {
        reveal_strlit("team");
        reveal_strlit("slot");
        assert("team"@[0] == 't');
        assert("slot"@[0] == 's');
    }
    assert("team"@ != "tags"@) by {
        reveal_strlit("team");
        reveal_strlit("tags");
        assert("team"@[1] == 'e');
        assert("tags"@[1] == 'a');
    }
    assert("team"@ != "message"@) by {
        reveal_strlit("team");
        reveal_strlit("message");
        assert("team"@[0] == 't');
        assert("message"@[0] == 'm');
    }
    assert("team"@ != "found"@) by {
        reveal_strlit("team");
        reveal_strlit("found");
        assert("team"@[0] == 't');
        assert("found"@[0] == 'f');
    }
    assert("team"@ != "countdown"@) by {
        reveal_strlit("team");
        reveal_strlit("countdown");
        assert("team"@[0] == 't');
        assert("countdown"@[0] == 'c');
    }
    assert("slot"@ != "tags"@) by {
        reveal_strlit("slot");
        reveal_strlit("tags");
        assert("slot"@[0] == 's');
        assert("tags"@[0] == 't');
    }
    assert("slot"@ != "message"@) by {
        reveal_strlit("slot");
        reveal_strlit("message");
        assert("slot"@[0] == 's');
        assert("message"@[0] == 'm');
    }
    assert("slot"@ != "found"@) by {
        reveal_strlit("slot");
        reveal_strlit("found");
        assert("slot"@[0] == 's');
        assert("found"@[0] == 'f');
    }
    assert("slot"@ != "countdown"@) by {
        reveal_strlit("slot");
        reveal_strlit("countdown");
        assert("slot"@[0] == 's');
        assert("countdown"@[0] == 'c');
    }
    assert("tags"@ != "message"@) by {
        reveal_strlit("tags");
        reveal_strlit("message");
        assert("tags"@[0] == 't');
        assert("message"@[0] == 'm');
    }
    assert("tags"@ != "found"@) by {
        reveal_strlit("tags");
        reveal_strlit("found");
        assert("tags"@[0] == 't');
        assert("found"@[0] == 'f');
    }
    assert("tags"@ != "countdown"@) by {
        reveal_strlit("tags");
        reveal_strlit("countdown");
        assert("tags"@[0] == 't');
        assert("countdown"@[0] == 'c');
    }
    assert("message"@ != "found"@) by {
        reveal_strlit("message");
        reveal_strlit("found");
        assert("message"@[0] == 'm');
        assert("found"@[0] == 'f');
    }
    assert("message"@ != "countdown"@) by {
        reveal_strlit("message");
        reveal_strlit("countdown");
        assert("message"@[0] == 'm');
        assert("countdown"@[0] == 'c');
    }
    assert("found"@ != "countdown"@) by {
        reveal_strlit("found");
        reveal_strlit("countdown");
        assert("found"@[0] == 'f');
        assert("countdown"@[0] == 'c');
    }
    assert("ItemSend"@ != "ItemCheat"@) by {
        reveal_strlit("ItemSend");
        reveal_strlit("ItemCheat");
        assert("ItemSend"@[4] == 'S');
        assert("ItemCheat"@[4] == 'C');
    }
    assert("ItemSend"@ != "Hint"@) by {
        reveal_strlit("ItemSend");
        reveal_strlit("Hint");
        assert("ItemSend"@[0] == 'I');
        assert("Hint"@[0] == 'H');
    }
    assert("ItemSend"@ != "Join"@) by {
        reveal_strlit("ItemSend");
        reveal_strlit("Join");
        assert("ItemSend"@[0] == 'I');
        assert("Join"@[0] == 'J');
    }
    assert("ItemSend"@ != "Part"@) by {
        reveal_strlit("ItemSend");
        reveal_strlit("Part");
        assert("ItemSend"@[0] == 'I');
        assert("Part"@[0] == 'P');
    }
    assert("ItemSend"@ != "Chat"@) by {
        reveal_strlit("ItemSend");
        reveal_strlit("Chat");
        assert("ItemSend"@[0] == 'I');
        assert("Chat"@[0] == 'C');
    }
    assert("ItemSend"@ != "ServerChat"@) by {
        reveal_strlit("ItemSend");
        reveal_strlit("ServerChat");
        assert("ItemSend"@[0] == 'I');
        assert("ServerChat"@[0] == 'S');
    }
    assert("ItemSend"@ != "Tutorial"@) by {
        reveal_strlit("ItemSend");
        reveal_strlit("Tutorial");
        assert("ItemSend"@[0] == 'I');
        assert("Tutorial"@[0] == 'T');
    }
    assert("ItemSend"@ != "TagsChanged"@) by {
        reveal_strlit("ItemSend");
        reveal_strlit("TagsChanged");
        assert("ItemSend"@[0] == 'I');
        assert("TagsChanged"@[0] == 'T');
    }
    assert("ItemSend"@ != "CommandResult"@) by {
        reveal_strlit("ItemSend");
        reveal_strlit("CommandResult");
        assert("ItemSend"@[0] == 'I');
        assert("CommandResult"@[0] == 'C');
    }
    assert("ItemSend"@ != "AdminCommandResult"@) by {
        reveal_strlit("ItemSend");
        reveal_strlit("AdminCommandResult");
        assert("ItemSend"@[0] == 'I');
        assert("AdminCommandResult"@[0] == 'A');
    }
    assert("ItemSend"@ != "Goal"@) by {
        reveal_strlit("ItemSend");
        reveal_strlit("Goal");
        assert("ItemSend"@[0] == 'I');
        assert("Goal"@[0] == 'G');
    }
    assert("ItemSend"@ != "Release"@) by {
        reveal_strlit("ItemSend");
        reveal_strlit("Release");
        assert("ItemSend"@[0] == 'I');
        assert("Release"@[0] == 'R');
    }
    assert("ItemSend"@ != "Collect"@) by {
        reveal_strlit("ItemSend");
        reveal_strlit("Collect");
        assert("ItemSend"@[0] == 'I');
        assert("Collect"@[0] == 'C');
    }
    assert("ItemSend"@ != "Countdown"@) by {
        reveal_strlit("ItemSend");
        reveal_strlit("Countdown");
        assert("ItemSend"@[0] == 'I');
        assert("Countdown"@[0] == 'C');
    }
    assert("ItemCheat"@ != "Hint"@) by {
        reveal_strlit("ItemCheat");
        reveal_strlit("Hint");
        assert("ItemCheat"@[0] == 'I');
        assert("Hint"@[0] == 'H');
    }
    assert("ItemCheat"@ != "Join"@) by {
        reveal_strlit("ItemCheat");
        reveal_strlit("Join");
        assert("ItemCheat"@[0] == 'I');
        assert("Join"@[0] == 'J');
    }
    assert("ItemCheat"@ != "Part"@) by {
        reveal_strlit("ItemCheat");
        reveal_strlit("Part");
        assert("ItemCheat"@[0] == 'I');
        assert("Part"@[0] == 'P');
    }
    assert("ItemCheat"@ != "Chat"@) by {
        reveal_strlit("ItemCheat");
        reveal_strlit("Chat");
        assert("ItemCheat"@[0] == 'I');
        assert("Chat"@[0] == 'C');
    }
    assert("ItemCheat"@ != "ServerChat"@) by {
        reveal_strlit("ItemCheat");
        reveal_strlit("ServerChat");
        assert("ItemCheat"@[0] == 'I');
        assert("ServerChat"@[0] == 'S');
    }
    assert("ItemCheat"@ != "Tutorial"@) by {
        reveal_strlit("ItemCheat");
        reveal_strlit("Tutorial");
        assert("ItemCheat"@[0] == 'I');
        assert("Tutorial"@[0] == 'T');
    }
    assert("ItemCheat"@ != "TagsChanged"@) by {
        reveal_strlit("ItemCheat");
        reveal_strlit("TagsChanged");
        assert("ItemCheat"@[0] == 'I');
        assert("TagsChanged"@[0] == 'T');
    }
    assert("ItemCheat"@ != "CommandResult"@) by {
        reveal_strlit("ItemCheat");
        reveal_strlit("CommandResult");
        assert("ItemCheat"@[0] == 'I');
        assert("CommandResult"@[0] == 'C');
    }
    assert("ItemCheat"@ != "AdminCommandResult"@) by {
        reveal_strlit("ItemCheat");
        reveal_strlit("AdminCommandResult");
        assert("ItemCheat"@[0] == 'I');
        assert("AdminCommandResult"@[0] == 'A');
    }
    assert("ItemCheat"@ != "Goal"@) by {
        reveal_strlit("ItemCheat");
        reveal_strlit("Goal");
        assert("ItemCheat"@[0] == 'I');
        assert("Goal"@[0] == 'G');
    }
    assert("ItemCheat"@ != "Release"@) by {
        reveal_strlit("ItemCheat");
        reveal_strlit("Release");
        assert("ItemCheat"@[0] == 'I');
        assert("Release"@[0] == 'R');
    }
    assert("ItemCheat"@ != "Collect"@) by {
        reveal_strlit("ItemCheat");
        reveal_strlit("Collect");
        assert("ItemCheat"@[0] == 'I');
        assert("Collect"@[0] == 'C');
    }
    assert("ItemCheat"@ != "Countdown"@) by {
        reveal_strlit("ItemCheat");
        reveal_strlit("Countdown");
        assert("ItemCheat"@[0] == 'I');
        assert("Countdown"@[0] == 'C');
    }
    assert("Hint"@ != "Join"@) by {
        reveal_strlit("Hint");
        reveal_strlit("Join");
        assert("Hint"@[0] == 'H');
        assert("Join"@[0] == 'J');
    }
    assert("Hint"@ != "Part"@) by {
        reveal_strlit("Hint");
        reveal_strlit("Part");
        assert("Hint"@[0] == 'H');
        assert("Part"@[0] == 'P');
    }
    assert("Hint"@ != "Chat"@) by {
        reveal_strlit("Hint");
        reveal_strlit("Chat");
        assert("Hint"@[0] == 'H');
        assert("Chat"@[0] == 'C');
    }
    assert("Hint"@ != "ServerChat"@) by {
        reveal_strlit("Hint");
        reveal_strlit("ServerChat");
        assert("Hint"@[0] == 'H');
        assert("ServerChat"@[0] == 'S');
    }
    assert("Hint"@ != "Tutorial"@) by {
        reveal_strlit("Hint");
        reveal_strlit("Tutorial");
        assert("Hint"@[0] == 'H');
        assert("Tutorial"@[0] == 'T');
    }
    assert("Hint"@ != "TagsChanged"@) by {
        reveal_strlit("Hint");
        reveal_strlit("TagsChanged");
        assert("Hint"@[0] == 'H');
        assert("TagsChanged"@[0] == 'T');
    }
    assert("Hint"@ != "CommandResult"@) by {
        reveal_strlit("Hint");
        reveal_strlit("CommandResult");
        assert("Hint"@[0] == 'H');
        assert("CommandResult"@[0] == 'C');
    }
    assert("Hint"@ != "AdminCommandResult"@) by {
        reveal_strlit("Hint");
        reveal_strlit("AdminCommandResult");
        assert("Hint"@[0] == 'H');
        assert("AdminCommandResult"@[0] == 'A');
    }
    assert("Hint"@ != "Goal"@) by {
        reveal_strlit("Hint");
        reveal_strlit("Goal");
        assert("Hint"@[0] == 'H');
        assert("Goal"@[0] == 'G');
    }
    assert("Hint"@ != "Release"@) by {
        reveal_strlit("Hint");
        reveal_strlit("Release");
        assert("Hint"@[0] == 'H');
        assert("Release"@[0] == 'R');
    }
    assert("Hint"@ != "Collect"@) by {
        reveal_strlit("Hint");
        reveal_strlit("Collect");
        assert("Hint"@[0] == 'H');
        assert("Collect"@[0] == 'C');
    }
    assert("Hint"@ != "Countdown"@) by {
        reveal_strlit("Hint");
        reveal_strlit("Countdown");
        assert("Hint"@[0] == 'H');
        assert("Countdown"@[0] == 'C');
    }
    assert("Join"@ != "Part"@) by {
        reveal_strlit("Join");
        reveal_strlit("Part");
        assert("Join"@[0] == 'J');
        assert("Part"@[0] == 'P');
    }
    assert("Join"@ != "Chat"@) by {
        reveal_strlit("Join");
        reveal_strlit("Chat");
        assert("Join"@[0] == 'J');
        assert("Chat"@[0] == 'C');
    }
    assert("Join"@ != "ServerChat"@) by {
        reveal_strlit("Join");
        reveal_strlit("ServerChat");
        assert("Join"@[0] == 'J');
        assert("ServerChat"@[0] == 'S');
    }
    assert("Join"@ != "Tutorial"@) by {
        reveal_strlit("Join");
        reveal_strlit("Tutorial");
        assert("Join"@[0] == 'J');
        assert("Tutorial"@[0] == 'T');
    }
    assert("Join"@ != "TagsChanged"@) by {
        reveal_strlit("Join");
        reveal_strlit("TagsChanged");
        assert("Join"@[0] == 'J');
        assert("TagsChanged"@[0] == 'T');
    }
    assert("Join"@ != "CommandResult"@) by {
        reveal_strlit("Join");
        reveal_strlit("CommandResult");
        assert("Join"@[0] == 'J');
        assert("CommandResult"@[0] == 'C');
    }
    assert("Join"@ != "AdminCommandResult"@) by {
        reveal_strlit("Join");
        reveal_strlit("AdminCommandResult");
        assert("Join"@[0] == 'J');
        assert("AdminCommandResult"@[0] == 'A');
    }
    assert("Join"@ != "Goal"@) by {
        reveal_strlit("Join");
        reveal_strlit("Goal");
        assert("Join"@[0] == 'J');
        assert("Goal"@[0] == 'G');
    }
    assert("Join"@ != "Release"@) by {
        reveal_strlit("Join");
        reveal_strlit("Release");
        assert("Join"@[0] == 'J');
        assert("Release"@[0] == 'R');
    }
    assert("Join"@ != "Collect"@) by {
        reveal_strlit("Join");
        reveal_strlit("Collect");
        assert("Join"@[0] == 'J');
        assert("Collect"@[0] == 'C');
    }
    assert("Join"@ != "Countdown"@) by {
        reveal_strlit("Join");
        reveal_strlit("Countdown");
        assert("Join"@[0] == 'J');
        assert("Countdown"@[0] == 'C');
    }
    assert("Part"@ != "Chat"@) by {
        reveal_strlit("Part");
        reveal_strlit("Chat");
        assert("Part"@[0] == 'P');
        assert("Chat"@[0] == 'C');
    }
    assert("Part"@ != "ServerChat"@) by {
        reveal_strlit("Part");
        reveal_strlit("ServerChat");
        assert("Part"@[0] == 'P');
        assert("ServerChat"@[0] == 'S');
    }
    assert("Part"@ != "Tutorial"@) by {
        reveal_strlit("Part");
        reveal_strlit("Tutorial");
        assert("Part"@[0] == 'P');
        assert("Tutorial"@[0] == 'T');
    }
    assert("Part"@ != "TagsChanged"@) by {
        reveal_strlit("Part");
        reveal_strlit("TagsChanged");
        assert("Part"@[0] == 'P');
        assert("TagsChanged"@[0] == 'T');
    }
    assert("Part"@ != "CommandResult"@) by {
        reveal_strlit("Part");
        reveal_strlit("CommandResult");
        assert("Part"@[0] == 'P');
        assert("CommandResult"@[0] == 'C');
    }
    assert("Part"@ != "AdminCommandResult"@) by {
        reveal_strlit("Part");
        reveal_strlit("AdminCommandResult");
        assert("Part"@[0] == 'P');
        assert("AdminCommandResult"@[0] == 'A');
    }
    assert("Part"@ != "Goal"@) by {
        reveal_strlit("Part");
        reveal_strlit("Goal");
        assert("Part"@[0] == 'P');
        assert("Goal"@[0] == 'G');
    }
    assert("Part"@ != "Release"@) by {
        reveal_strlit("Part");
        reveal_strlit("Release");
        assert("Part"@[0] == 'P');
        assert("Release"@[0] == 'R');
    }
    assert("Part"@ != "Collect"@) by {
        reveal_strlit("Part");
        reveal_strlit("Collect");
        assert("Part"@[0] == 'P');
        assert("Collect"@[0] == 'C');
    }
    assert("Part"@ != "Countdown"@) by {
        reveal_strlit("Part");
        reveal_strlit("Countdown");
        assert("Part"@[0] == 'P');
        assert("Countdown"@[0] == 'C');
    }
    assert("Chat"@ != "ServerChat"@) by {
        reveal_strlit("Chat");
        reveal_strlit("ServerChat");
        assert("Chat"@[0] == 'C');
        assert("ServerChat"@[0] == 'S');
    }
    assert("Chat"@ != "Tutorial"@) by {
        reveal_strlit("Chat");
        reveal_strlit("Tutorial");
        assert("Chat"@[0] == 'C');
        assert("Tutorial"@[0] == 'T');
    }
    assert("Chat"@ != "TagsChanged"@) by {
        reveal_strlit("Chat");
        reveal_strlit("TagsChanged");
        assert("Chat"@[0] == 'C');
        assert("TagsChanged"@[0] == 'T');
    }
    assert("Chat"@ != "CommandResult"@) by {
        reveal_strlit("Chat");
        reveal_strlit("CommandResult");
        assert("Chat"@[1] == 'h');
        assert("CommandResult"@[1] == 'o');
    }
    assert("Chat"@ != "AdminCommandResult"@) by {
        reveal_strlit("Chat");
        reveal_strlit("AdminCommandResult");
        assert("Chat"@[0] == 'C');
        assert("AdminCommandResult"@[0] == 'A');
    }
    assert("Chat"@ != "Goal"@) by {
        reveal_strlit("Chat");
        reveal_strlit("Goal");
        assert("Chat"@[0] == 'C');
        assert("Goal"@[0] == 'G');
    }
    assert("Chat"@ != "Release"@) by {
        reveal_strlit("Chat");
        reveal_strlit("Release");
        assert("Chat"@[0] == 'C');
        assert("Release"@[0] == 'R');
    }
    assert("Chat"@ != "Collect"@) by {
        reveal_strlit("Chat");
        reveal_strlit("Collect");
        assert("Chat"@[1] == 'h');
        assert("Collect"@[1] == 'o');
    }
    assert("Chat"@ != "Countdown"@) by {
        reveal_strlit("Chat");
        reveal_strlit("Countdown");
        assert("Chat"@[1] == 'h');
        assert("Countdown"@[1] == 'o');
    }
    assert("ServerChat"@ != "Tutorial"@) by {
        reveal_strlit("ServerChat");
        reveal_strlit("Tutorial");
        assert("ServerChat"@[0] == 'S');
        assert("Tutorial"@[0] == 'T');
    }
    assert("ServerChat"@ != "TagsChanged"@) by {
        reveal_strlit("ServerChat");
        reveal_strlit("TagsChanged");
        assert("ServerChat"@[0] == 'S');
        assert("TagsChanged"@[0] == 'T');
    }
    assert("ServerChat"@ != "CommandResult"@) by {
        reveal_strlit("ServerChat");
        reveal_strlit("CommandResult");
        assert("ServerChat"@[0] == 'S');
        assert("CommandResult"@[0] == 'C');
    }
    assert("ServerChat"@ != "AdminCommandResult"@) by {
        reveal_strlit("ServerChat");
        reveal_strlit("AdminCommandResult");
        assert("ServerChat"@[0] == 'S');
        assert("AdminCommandResult"@[0] == 'A');
    }
    assert("ServerChat"@ != "Goal"@) by {
        reveal_strlit("ServerChat");
        reveal_strlit("Goal");
        assert("ServerChat"@[0] == 'S');
        assert("Goal"@[0] == 'G');
    }
    assert("ServerChat"@ != "Release"@) by {
        reveal_strlit("ServerChat");
        reveal_strlit("Release");
        assert("ServerChat"@[0] == 'S');
        assert("Release"@[0] == 'R');
    }
    assert("ServerChat"@ != "Collect"@) by {
        reveal_strlit("ServerChat");
        reveal_strlit("Collect");
        assert("ServerChat"@[0] == 'S');
        assert("Collect"@[0] == 'C');
    }
    assert("ServerChat"@ != "Countdown"@) by {
        reveal_strlit("ServerChat");
        reveal_strlit("Countdown");
        assert("ServerChat"@[0] == 'S');
        assert("Countdown"@[0] == 'C');
    }
    assert("Tutorial"@ != "TagsChanged"@) by {
        reveal_strlit("Tutorial");
        reveal_strlit("TagsChanged");
        assert("Tutorial"@[1] == 'u');
        assert("TagsChanged"@[1] == 'a');
    }
    assert("Tutorial"@ != "CommandResult"@) by {
        reveal_strlit("Tutorial");
        reveal_strlit("CommandResult");
        assert("Tutorial"@[0] == 'T');
        assert("CommandResult"@[0] == 'C');
    }
    assert("Tutorial"@ != "AdminCommandResult"@) by {
        reveal_strlit("Tutorial");
        reveal_strlit("AdminCommandResult");
        assert("Tutorial"@[0] == 'T');
        assert("AdminCommandResult"@[0] == 'A');
    }
    assert("Tutorial"@ != "Goal"@) by {
        reveal_strlit("Tutorial");
        reveal_strlit("Goal");
        assert("Tutorial"@[0] == 'T');
        assert("Goal"@[0] == 'G');
    }
    assert("Tutorial"@ != "Release"@) by {
        reveal_strlit("Tutorial");
        reveal_strlit("Release");
        assert("Tutorial"@[0] == 'T');
        assert("Release"@[0] == 'R');
    }
    assert("Tutorial"@ != "Collect"@) by {
        reveal_strlit("Tutorial");
        reveal_strlit("Collect");
        assert("Tutorial"@[0] == 'T');
        assert("Collect"@[0] == 'C');
    }
    assert("Tutorial"@ != "Countdown"@) by {
        reveal_strlit("Tutorial");
        reveal_strlit("Countdown");
        assert("Tutorial"@[0] == 'T');
        assert("Countdown"@[0] == 'C');
    }
    assert("TagsChanged"@ != "CommandResult"@) by {
        reveal_strlit("TagsChanged");
        reveal_strlit("CommandResult");
        assert("TagsChanged"@[0] == 'T');
        assert("CommandResult"@[0] == 'C');
    }
    assert("TagsChanged"@ != "AdminCommandResult"@) by {
        reveal_strlit("TagsChanged");
        reveal_strlit("AdminCommandResult");
        assert("TagsChanged"@[0] == 'T');
        assert("AdminCommandResult"@[0] == 'A');
    }
    assert("TagsChanged"@ != "Goal"@) by {
        reveal_strlit("TagsChanged");
        reveal_strlit("Goal");
        assert("TagsChanged"@[0] == 'T');
        assert("Goal"@[0] == 'G');
    }
    assert("TagsChanged"@ != "Release"@) by {
        reveal_strlit("TagsChanged");
        reveal_strlit("Release");
        assert("TagsChanged"@[0] == 'T');
        assert("Release"@[0] == 'R');
    }
    assert("TagsChanged"@ != "Collect"@) by {
        reveal_strlit("TagsChanged");
        reveal_strlit("Collect");
        assert("TagsChanged"@[0] == 'T');
        assert("Collect"@[0] == 'C');
    }
    assert("TagsChanged"@ != "Countdown"@) by {
        reveal_strlit("TagsChanged");
        reveal_strlit("Countdown");
        assert("TagsChanged"@[0] == 'T');
        assert("Countdown"@[0] == 'C');
    }
    assert("CommandResult"@ != "AdminCommandResult"@) by {
        reveal_strlit("CommandResult");
        reveal_strlit("AdminCommandResult");
        assert("CommandResult"@[0] == 'C');
        assert("AdminCommandResult"@[0] == 'A');
    }
    assert("CommandResult"@ != "Goal"@) by {
        reveal_strlit("CommandResult");
        reveal_strlit("Goal");
        assert("CommandResult"@[0] == 'C');
        assert("Goal"@[0] == 'G');
    }
    assert("CommandResult"@ != "Release"@) by {
        reveal_strlit("CommandResult");
        reveal_strlit("Release");
        assert("CommandResult"@[0] == 'C');
        assert("Release"@[0] == 'R');
    }
    assert("CommandResult"@ != "Collect"@) by {
        reveal_strlit("CommandResult");
        reveal_strlit("Collect");
        assert("CommandResult"@[2] == 'm');
        assert("Collect"@[2] == 'l');
    }
    assert("CommandResult"@ != "Countdown"@) by {
        reveal_strlit("CommandResult");
        reveal_strlit("Countdown");
        assert("CommandResult"@[2] == 'm');
        assert("Countdown"@[2] == 'u');
    }
    assert("AdminCommandResult"@ != "Goal"@) by {
        reveal_strlit("AdminCommandResult");
        reveal_strlit("Goal");
        assert("AdminCommandResult"@[0] == 'A');
        assert("Goal"@[0] == 'G');
    }
    assert("AdminCommandResult"@ != "Release"@) by {
        reveal_strlit("AdminCommandResult");
        reveal_strlit("Release");
        assert("AdminCommandResult"@[0] == 'A');
        assert("Release"@[0] == 'R');
    }
    assert("AdminCommandResult"@ != "Collect"@) by {
        reveal_strlit("AdminCommandResult");
        reveal_strlit("Collect");
        assert("AdminCommandResult"@[0] == 'A');
        assert("Collect"@[0] == 'C');
    }
    assert("AdminCommandResult"@ != "Countdown"@) by {
        reveal_strlit("AdminCommandResult");
        reveal_strlit("Countdown");
        assert("AdminCommandResult"@[0] == 'A');
        assert("Countdown"@[0] == 'C');
    }
    assert("Goal"@ != "Release"@) by {
        reveal_strlit("Goal");
        reveal_strlit("Release");
        assert("Goal"@[0] == 'G');
        assert("Release"@[0] == 'R');
    }
    assert("Goal"@ != "Collect"@) by {
        reveal_strlit("Goal");
        reveal_strlit("Collect");
        assert("Goal"@[0] == 'G');
        assert("Collect"@[0] == 'C');
    }
    assert("Goal"@ != "Countdown"@) by {
        reveal_strlit("Goal");
        reveal_strlit("Countdown");
        assert("Goal"@[0] == 'G');
        assert("Countdown"@[0] == 'C');
    }
    assert("Release"@ != "Collect"@) by {
        reveal_strlit("Release");
        reveal_strlit("Collect");
        assert("Release"@[0] == 'R');
        assert("Collect"@[0] == 'C');
    }
    assert("Release"@ != "Countdown"@) by {
        reveal_strlit("Release");
        reveal_strlit("Countdown");
        assert("Release"@[0] == 'R');
        assert("Countdown"@[0] == 'C');
    }
    assert("Collect"@ != "Countdown"@) by {
        reveal_strlit("Collect");
        reveal_strlit("Countdown");
        assert("Collect"@[2] == 'l');
        assert("Countdown"@[2] == 'u');
    }
    let fields = enc_printjson_fields(p);
    let m = pre + fields;
    let n = pre.len() as int;
    assert(forall|j: int| n <= j < m.len() ==> #[trigger] m[j] == fields[j - n]);
    assert(forall|j: int| 0 <= j < n ==> #[trigger] m[j] == pre[j]);
    lemma_obj_get_at(m, "type"@, n);
    lemma_obj_get_at(m, "data"@, n + 1);
    match p {
        SpecPrintJSON::ItemSend { data, receiving, item } => {
            lemma_part_seq_roundtrip(data);
            lemma_obj_get_at(m, "receiving"@, n + 2);
            lemma_obj_get_at(m, "item"@, n + 3);
            lemma_item_roundtrip(item);
        }
        SpecPrintJSON::ItemCheat { data, receiving, item, team } => {
            lemma_part_seq_roundtrip(data);
            lemma_obj_get_at(m, "receiving"@, n + 2);
            lemma_obj_get_at(m, "item"@, n + 3);
            lemma_item_roundtrip(item);
            lemma_obj_get_at(m, "team"@, n + 4);
        }
        SpecPrintJSON::Hint { data, receiving, item, found } => {
            lemma_part_seq_roundtrip(data);
            lemma_obj_get_at(m, "receiving"@, n + 2);
            lemma_obj_get_at(m, "item"@, n + 3);
            lemma_item_roundtrip(item);
            lemma_obj_get_at(m, "found"@, n + 4);
        }
        SpecPrintJSON::Join { data, team, slot, tags } => {
            lemma_part_seq_roundtrip(data);
            lemma_obj_get_at(m, "team"@, n + 2);
            lemma_obj_get_at(m, "slot"@, n + 3);
            lemma_obj_get_at(m, "tags"@, n + 4);
            lemma_str_seq_roundtrip(tags);
        }
        SpecPrintJSON::Part { data, team, slot } => {
            lemma_part_seq_roundtrip(data);
            lemma_obj_get_at(m, "team"@, n + 2);
            lemma_obj_get_at(m, "slot"@, n + 3);
        }
        SpecPrintJSON::Chat { data, team, slot, message } => {
            lemma_part_seq_roundtrip(data);
            lemma_obj_get_at(m, "team"@, n + 2);
            lemma_obj_get_at(m, "slot"@, n + 3);
            lemma_obj_get_at(m, "message"@, n + 4);
        }
        SpecPrintJSON::ServerChat { data, message } => {
            lemma_part_seq_roundtrip(data);
            lemma_obj_get_at(m, "message"@, n + 2);
        }
        SpecPrintJSON::Tutorial { data } => {
            lemma_part_seq_roundtrip(data);
        }
        SpecPrintJSON::TagsChanged { data, team, slot, tags } => {
            lemma_part_seq_roundtrip(data);
            lemma_obj_get_at(m, "team"@, n + 2);
            lemma_obj_get_at(m, "slot"@, n + 3);
            lemma_obj_get_at(m, "tags"@, n + 4);
            lemma_str_seq_roundtrip(tags);
        }
        SpecPrintJSON::CommandResult { data } => {
            lemma_part_seq_roundtrip(data);
        }
        SpecPrintJSON::AdminCommandResult { data } => {
            lemma_part_seq_roundtrip(data);
        }
        SpecPrintJSON::Goal { data, team, slot } => {
            lemma_part_seq_roundtrip(data);
            lemma_obj_get_at(m, "team"@, n + 2);
            lemma_obj_get_at(m, "slot"@, n + 3);
        }
        SpecPrintJSON::Release { data, team, slot } => {
            lemma_part_seq_roundtrip(data);
            lemma_obj_get_at(m, "team"@, n + 2);
            lemma_obj_get_at(m, "slot"@, n + 3);
        }
        SpecPrintJSON::Collect { data, team, slot } => {
            lemma_part_seq_roundtrip(data);
            lemma_obj_get_at(m, "team"@, n + 2);
            lemma_obj_get_at(m, "slot"@, n + 3);
        }
        SpecPrintJSON::Countdown { data, countdown } => {
            lemma_part_seq_roundtrip(data);
            lemma_obj_get_at(m, "countdown"@, n + 2);
        }
    }
}

} // verus!
