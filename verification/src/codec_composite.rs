//! Codec for the composite value types: rich-text parts, hints, and the data
//! package tables.

use vstd::prelude::*;

use crate::codec::{
    dec_all, dec_entries, dec_i64, dec_str, enc_entries, lemma_dec_all, lemma_dec_enc_all,
    lemma_dec_enc_entries, lemma_dec_entries, lemma_obj_get_at, lemma_obj_get_none, obj_get,
    opt_view,
};
use crate::codec_values::{
    dec_color, dec_field, dec_field_bool, dec_field_i64, dec_field_str, dec_field_u8,
    decode_color, enc_color, lemma_color_roundtrip, str_is,
};
use crate::json::{
    lemma_model_of_fields, lemma_model_of_seq, model_of_fields, model_of_seq, spec_obj_get,
    JsonValue, SpecJson,
};
use crate::protocol::{
    deep, GameData, Hint, JSONMessagePart, NetworkItemFlags, SpecGameData, SpecHint,
    SpecJSONMessagePart,
};

verus! {

broadcast use {vstd::std_specs::vec::group_vec_axioms, vstd::seq::group_seq_axioms};

// ---------------------------------------------------------------------------
// Rich-text message parts
// ---------------------------------------------------------------------------
pub open spec fn part_tag(p: SpecJSONMessagePart) -> Seq<char> {
    match p {
        SpecJSONMessagePart::PlayerId { .. } => "player_id"@,
        SpecJSONMessagePart::PlayerName { .. } => "player_name"@,
        SpecJSONMessagePart::ItemId { .. } => "item_id"@,
        SpecJSONMessagePart::ItemName { .. } => "item_name"@,
        SpecJSONMessagePart::LocationId { .. } => "location_id"@,
        SpecJSONMessagePart::LocationName { .. } => "location_name"@,
        SpecJSONMessagePart::EntranceName { .. } => "entrance_name"@,
        SpecJSONMessagePart::Color { .. } => "color"@,
        SpecJSONMessagePart::Text { .. } => ""@,
    }
}

/// A part's wire form: its `type` tag first, except the bare text part, which
/// carries no tag at all.
pub open spec fn enc_part(p: SpecJSONMessagePart) -> SpecJson {
    match p {
        SpecJSONMessagePart::PlayerId { text, player } => SpecJson::Obj(
            seq![
                ("type"@, SpecJson::Str("player_id"@)),
                ("text"@, SpecJson::Str(text)),
                ("player"@, SpecJson::Int(player as int)),
            ],
        ),
        SpecJSONMessagePart::PlayerName { text } => SpecJson::Obj(
            seq![("type"@, SpecJson::Str("player_name"@)), ("text"@, SpecJson::Str(text))],
        ),
        SpecJSONMessagePart::ItemId { text, flags, player } => SpecJson::Obj(
            seq![
                ("type"@, SpecJson::Str("item_id"@)),
                ("text"@, SpecJson::Str(text)),
                ("flags"@, SpecJson::Int(flags.0 as int)),
                ("player"@, SpecJson::Int(player as int)),
            ],
        ),
        SpecJSONMessagePart::ItemName { text, flags, player } => SpecJson::Obj(
            seq![
                ("type"@, SpecJson::Str("item_name"@)),
                ("text"@, SpecJson::Str(text)),
                ("flags"@, SpecJson::Int(flags.0 as int)),
                ("player"@, SpecJson::Int(player as int)),
            ],
        ),
        SpecJSONMessagePart::LocationId { text, player } => SpecJson::Obj(
            seq![
                ("type"@, SpecJson::Str("location_id"@)),
                ("text"@, SpecJson::Str(text)),
                ("player"@, SpecJson::Int(player as int)),
            ],
        ),
        SpecJSONMessagePart::LocationName { text, player } => SpecJson::Obj(
            seq![
                ("type"@, SpecJson::Str("location_name"@)),
                ("text"@, SpecJson::Str(text)),
                ("player"@, SpecJson::Int(player as int)),
            ],
        ),
        SpecJSONMessagePart::EntranceName { text } => SpecJson::Obj(
            seq![("type"@, SpecJson::Str("entrance_name"@)), ("text"@, SpecJson::Str(text))],
        ),
        SpecJSONMessagePart::Color { text, color } => SpecJson::Obj(
            seq![
                ("type"@, SpecJson::Str("color"@)),
                ("text"@, SpecJson::Str(text)),
                ("color"@, enc_color(color)),
            ],
        ),
        SpecJSONMessagePart::Text { text } => SpecJson::Obj(
            seq![("text"@, SpecJson::Str(text))],
        ),
    }
}

pub open spec fn dec_tagged_part(
    fs: Seq<(Seq<char>, SpecJson)>,
    tag: Seq<char>,
    text: Seq<char>,
) -> Option<SpecJSONMessagePart> {
    if tag == "player_id"@ {
        match dec_field_i64(fs, "player"@) {
            Some(player) => Some(SpecJSONMessagePart::PlayerId { text, player }),
            None => None,
        }
    } else if tag == "player_name"@ {
        Some(SpecJSONMessagePart::PlayerName { text })
    } else if tag == "item_id"@ {
        match (dec_field_u8(fs, "flags"@), dec_field_i64(fs, "player"@)) {
            (Some(bits), Some(player)) => Some(
                SpecJSONMessagePart::ItemId { text, flags: NetworkItemFlags(bits), player },
            ),
            _ => None,
        }
    } else if tag == "item_name"@ {
        match (dec_field_u8(fs, "flags"@), dec_field_i64(fs, "player"@)) {
            (Some(bits), Some(player)) => Some(
                SpecJSONMessagePart::ItemName { text, flags: NetworkItemFlags(bits), player },
            ),
            _ => None,
        }
    } else if tag == "location_id"@ {
        match dec_field_i64(fs, "player"@) {
            Some(player) => Some(SpecJSONMessagePart::LocationId { text, player }),
            None => None,
        }
    } else if tag == "location_name"@ {
        match dec_field_i64(fs, "player"@) {
            Some(player) => Some(SpecJSONMessagePart::LocationName { text, player }),
            None => None,
        }
    } else if tag == "entrance_name"@ {
        Some(SpecJSONMessagePart::EntranceName { text })
    } else if tag == "color"@ {
        match spec_obj_get(fs, "color"@) {
            Some(c) => match dec_color(c) {
                Some(color) => Some(SpecJSONMessagePart::Color { text, color }),
                None => None,
            },
            None => None,
        }
    } else {
        None
    }
}

/// A part decodes by its `type` tag; an object without one is a bare text
/// part. Every part requires a `text` field.
pub open spec fn dec_part(v: SpecJson) -> Option<SpecJSONMessagePart> {
    match v {
        SpecJson::Obj(fs) => match dec_field_str(fs, "text"@) {
            Some(text) => match spec_obj_get(fs, "type"@) {
                None => Some(SpecJSONMessagePart::Text { text }),
                Some(SpecJson::Str(tag)) => dec_tagged_part(fs, tag, text),
                Some(_) => None,
            },
            None => None,
        },
        _ => None,
    }
}

pub fn decode_part(v: &JsonValue) -> (r: Option<JSONMessagePart>)
    ensures
        opt_view(r) == dec_part(v@),
{
    let fields = match v {
        JsonValue::Obj(fields) => fields,
        _ => { return None },
    };
    let text = match obj_get(fields, "text") {
        Some(JsonValue::Str(s)) => s.clone(),
        _ => { return None },
    };
    let tag = match obj_get(fields, "type") {
        None => { return Some(JSONMessagePart::Text { text }) },
        Some(JsonValue::Str(s)) => s,
        Some(_) => { return None },
    };
    if str_is(tag, "player_id") {
        let player = match obj_get(fields, "player") {
            Some(JsonValue::Int(i)) => *i,
            _ => { return None },
        };
        Some(JSONMessagePart::PlayerId { text, player })
    } else if str_is(tag, "player_name") {
        Some(JSONMessagePart::PlayerName { text })
    } else if str_is(tag, "item_id") {
        let bits = match obj_get(fields, "flags") {
            Some(JsonValue::Int(i)) => {
                let i = *i;
                if 0 <= i && i <= 255 {
                    i as u8
                } else {
                    return None;
                }
            }
            _ => { return None },
        };
        let player = match obj_get(fields, "player") {
            Some(JsonValue::Int(i)) => *i,
            _ => { return None },
        };
        Some(JSONMessagePart::ItemId { text, flags: NetworkItemFlags(bits), player })
    } else if str_is(tag, "item_name") {
        let bits = match obj_get(fields, "flags") {
            Some(JsonValue::Int(i)) => {
                let i = *i;
                if 0 <= i && i <= 255 {
                    i as u8
                } else {
                    return None;
                }
            }
            _ => { return None },
        };
        let player = match obj_get(fields, "player") {
            Some(JsonValue::Int(i)) => *i,
            _ => { return None },
        };
        Some(JSONMessagePart::ItemName { text, flags: NetworkItemFlags(bits), player })
    } else if str_is(tag, "location_id") {
        let player = match obj_get(fields, "player") {
            Some(JsonValue::Int(i)) => *i,
            _ => { return None },
        };
        Some(JSONMessagePart::LocationId { text, player })
    } else if str_is(tag, "location_name") {
        let player = match obj_get(fields, "player") {
            Some(JsonValue::Int(i)) => *i,
            _ => { return None },
        };
        Some(JSONMessagePart::LocationName { text, player })
    } else if str_is(tag, "entrance_name") {
        Some(JSONMessagePart::EntranceName { text })
    } else if str_is(tag, "color") {
        let color = match obj_get(fields, "color") {
            Some(c) => match decode_color(c) {
                Some(color) => color,
                None => { return None },
            },
            None => { return None },
        };
        Some(JSONMessagePart::Color { text, color })
    } else {
        None
    }
}

pub proof fn lemma_part_roundtrip(p: SpecJSONMessagePart)
    ensures
        dec_part(enc_part(p)) == Some(p),
{
    assert("type"@ != "text"@) by {
        reveal_strlit("type");
        reveal_strlit("text");
        assert("type"@[1] == 'y');
        assert("text"@[1] == 'e');
    }
    assert("type"@ != "player"@) by {
        reveal_strlit("type");
        reveal_strlit("player");
        assert("type"@[0] == 't');
        assert("player"@[0] == 'p');
    }
    assert("type"@ != "flags"@) by {
        reveal_strlit("type");
        reveal_strlit("flags");
        assert("type"@[0] == 't');
        assert("flags"@[0] == 'f');
    }
    assert("type"@ != "color"@) by {
        reveal_strlit("type");
        reveal_strlit("color");
        assert("type"@[0] == 't');
        assert("color"@[0] == 'c');
    }
    assert("text"@ != "player"@) by {
        reveal_strlit("text");
        reveal_strlit("player");
        assert("text"@[0] == 't');
        assert("player"@[0] == 'p');
    }
    assert("text"@ != "flags"@) by {
        reveal_strlit("text");
        reveal_strlit("flags");
        assert("text"@[0] == 't');
        assert("flags"@[0] == 'f');
    }
    assert("text"@ != "color"@) by {
        reveal_strlit("text");
        reveal_strlit("color");
        assert("text"@[0] == 't');
        assert("color"@[0] == 'c');
    }
    assert("player"@ != "flags"@) by {
        reveal_strlit("player");
        reveal_strlit("flags");
        assert("player"@[0] == 'p');
        assert("flags"@[0] == 'f');
    }
    assert("player"@ != "color"@) by {
        reveal_strlit("player");
        reveal_strlit("color");
        assert("player"@[0] == 'p');
        assert("color"@[0] == 'c');
    }
    assert("flags"@ != "color"@) by {
        reveal_strlit("flags");
        reveal_strlit("color");
        assert("flags"@[0] == 'f');
        assert("color"@[0] == 'c');
    }
    assert("player_id"@ != "player_name"@) by {
        reveal_strlit("player_id");
        reveal_strlit("player_name");
        assert("player_id"@[7] == 'i');
        assert("player_name"@[7] == 'n');
    }
    assert("player_id"@ != "item_id"@) by {
        reveal_strlit("player_id");
        reveal_strlit("item_id");
        assert("player_id"@[0] == 'p');
        assert("item_id"@[0] == 'i');
    }
    assert("player_id"@ != "item_name"@) by {
        reveal_strlit("player_id");
        reveal_strlit("item_name");
        assert("player_id"@[0] == 'p');
        assert("item_name"@[0] == 'i');
    }
    assert("player_id"@ != "location_id"@) by {
        reveal_strlit("player_id");
        reveal_strlit("location_id");
        assert("player_id"@[0] == 'p');
        assert("location_id"@[0] == 'l');
    }
    assert("player_id"@ != "location_name"@) by {
        reveal_strlit("player_id");
        reveal_strlit("location_name");
        assert("player_id"@[0] == 'p');
        assert("location_name"@[0] == 'l');
    }
    assert("player_id"@ != "entrance_name"@) by {
        reveal_strlit("player_id");
        reveal_strlit("entrance_name");
        assert("player_id"@[0] == 'p');
        assert("entrance_name"@[0] == 'e');
    }
    assert("player_id"@ != "color"@) by {
        reveal_strlit("player_id");
        reveal_strlit("color");
        assert("player_id"@[0] == 'p');
        assert("color"@[0] == 'c');
    }
    assert("player_name"@ != "item_id"@) by {
        reveal_strlit("player_name");
        reveal_strlit("item_id");
        assert("player_name"@[0] == 'p');
        assert("item_id"@[0] == 'i');
    }
    assert("player_name"@ != "item_name"@) by {
        reveal_strlit("player_name");
        reveal_strlit("item_name");
        assert("player_name"@[0] == 'p');
        assert("item_name"@[0] == 'i');
    }
    assert("player_name"@ != "location_id"@) by {
        reveal_strlit("player_name");
        reveal_strlit("location_id");
        assert("player_name"@[0] == 'p');
        assert("location_id"@[0] == 'l');
    }
    assert("player_name"@ != "location_name"@) by {
        reveal_strlit("player_name");
        reveal_strlit("location_name");
        assert("player_name"@[0] == 'p');
        assert("location_name"@[0] == 'l');
    }
    assert("player_name"@ != "entrance_name"@) by {
        reveal_strlit("player_name");
        reveal_strlit("entrance_name");
        assert("player_name"@[0] == 'p');
        assert("entrance_name"@[0] == 'e');
    }
    assert("player_name"@ != "color"@) by {
        reveal_strlit("player_name");
        reveal_strlit("color");
        assert("player_name"@[0] == 'p');
        assert("color"@[0] == 'c');
    }
    assert("item_id"@ != "item_name"@) by {
        reveal_strlit("item_id");
        reveal_strlit("item_name");
        assert("item_id"@[5] == 'i');
        assert("item_name"@[5] == 'n');
    }
    assert("item_id"@ != "location_id"@) by {
        reveal_strlit("item_id");
        reveal_strlit("location_id");
        assert("item_id"@[0] == 'i');
        assert("location_id"@[0] == 'l');
    }
    assert("item_id"@ != "location_name"@) by {
        reveal_strlit("item_id");
        reveal_strlit("location_name");
        assert("item_id"@[0] == 'i');
        assert("location_name"@[0] == 'l');
    }
    assert("item_id"@ != "entrance_name"@) by {
        reveal_strlit("item_id");
        reveal_strlit("entrance_name");
        assert("item_id"@[0] == 'i');
        assert("entrance_name"@[0] == 'e');
    }
    assert("item_id"@ != "color"@) by {
        reveal_strlit("item_id");
        reveal_strlit("color");
        assert("item_id"@[0] == 'i');
        assert("color"@[0] == 'c');
    }
    assert("item_name"@ != "location_id"@) by {
        reveal_strlit("item_name");
        reveal_strlit("location_id");
        assert("item_name"@[0] == 'i');
        assert("location_id"@[0] == 'l');
    }
    assert("item_name"@ != "location_name"@) by {
        reveal_strlit("item_name");
        reveal_strlit("location_name");
        assert("item_name"@[0] == 'i');
        assert("location_name"@[0] == 'l');
    }
    assert("item_name"@ != "entrance_name"@) by {
        reveal_strlit("item_name");
        reveal_strlit("entrance_name");
        assert("item_name"@[0] == 'i');
        assert("entrance_name"@[0] == 'e');
    }
    assert("item_name"@ != "color"@) by {
        reveal_strlit("item_name");
        reveal_strlit("color");
        assert("item_name"@[0] == 'i');
        assert("color"@[0] == 'c');
    }
    assert("location_id"@ != "location_name"@) by {
        reveal_strlit("location_id");
        reveal_strlit("location_name");
        assert("location_id"@[9] == 'i');
        assert("location_name"@[9] == 'n');
    }
    assert("location_id"@ != "entrance_name"@) by {
        reveal_strlit("location_id");
        reveal_strlit("entrance_name");
        assert("location_id"@[0] == 'l');
        assert("entrance_name"@[0] == 'e');
    }
    assert("location_id"@ != "color"@) by {
        reveal_strlit("location_id");
        reveal_strlit("color");
        assert("location_id"@[0] == 'l');
        assert("color"@[0] == 'c');
    }
    assert("location_name"@ != "entrance_name"@) by {
        reveal_strlit("location_name");
        reveal_strlit("entrance_name");
        assert("location_name"@[0] == 'l');
        assert("entrance_name"@[0] == 'e');
    }
    assert("location_name"@ != "color"@) by {
        reveal_strlit("location_name");
        reveal_strlit("color");
        assert("location_name"@[0] == 'l');
        assert("color"@[0] == 'c');
    }
    assert("entrance_name"@ != "color"@) by {
        reveal_strlit("entrance_name");
        reveal_strlit("color");
        assert("entrance_name"@[0] == 'e');
        assert("color"@[0] == 'c');
    }
    let fs = enc_part(p)->Obj_0;
    match p {
        SpecJSONMessagePart::PlayerId { .. } => {
            lemma_obj_get_at(fs, "type"@, 0);
            lemma_obj_get_at(fs, "text"@, 1);
            lemma_obj_get_at(fs, "player"@, 2);
        }
        SpecJSONMessagePart::PlayerName { .. } => {
            lemma_obj_get_at(fs, "type"@, 0);
            lemma_obj_get_at(fs, "text"@, 1);
        }
        SpecJSONMessagePart::ItemId { .. } => {
            lemma_obj_get_at(fs, "type"@, 0);
            lemma_obj_get_at(fs, "text"@, 1);
            lemma_obj_get_at(fs, "flags"@, 2);
            lemma_obj_get_at(fs, "player"@, 3);
        }
        SpecJSONMessagePart::ItemName { .. } => {
            lemma_obj_get_at(fs, "type"@, 0);
            lemma_obj_get_at(fs, "text"@, 1);
            lemma_obj_get_at(fs, "flags"@, 2);
            lemma_obj_get_at(fs, "player"@, 3);
        }
        SpecJSONMessagePart::LocationId { .. } => {
            lemma_obj_get_at(fs, "type"@, 0);
            lemma_obj_get_at(fs, "text"@, 1);
            lemma_obj_get_at(fs, "player"@, 2);
        }
        SpecJSONMessagePart::LocationName { .. } => {
            lemma_obj_get_at(fs, "type"@, 0);
            lemma_obj_get_at(fs, "text"@, 1);
            lemma_obj_get_at(fs, "player"@, 2);
        }
        SpecJSONMessagePart::EntranceName { .. } => {
            lemma_obj_get_at(fs, "type"@, 0);
            lemma_obj_get_at(fs, "text"@, 1);
        }
        SpecJSONMessagePart::Color { color, .. } => {
            lemma_obj_get_at(fs, "type"@, 0);
            lemma_obj_get_at(fs, "text"@, 1);
            lemma_obj_get_at(fs, "color"@, 2);
            lemma_color_roundtrip(color);
        }
        SpecJSONMessagePart::Text { .. } => {
            lemma_obj_get_at(fs, "text"@, 0);
            lemma_obj_get_none(fs, "type"@);
        }
    }
}

// ---------------------------------------------------------------------------
// Hints
// ---------------------------------------------------------------------------
pub open spec fn enc_hint(h: SpecHint) -> SpecJson {
    SpecJson::Obj(
        seq![
            ("receiving_player"@, SpecJson::Int(h.receiving_player as int)),
            ("finding_player"@, SpecJson::Int(h.finding_player as int)),
            ("location"@, SpecJson::Int(h.location as int)),
            ("item"@, SpecJson::Int(h.item as int)),
            ("found"@, SpecJson::Bool(h.found)),
            ("entrance"@, SpecJson::Str(h.entrance)),
            ("item_flags"@, SpecJson::Int(h.item_flags.0 as int)),
        ],
    )
}

pub open spec fn dec_hint(v: SpecJson) -> Option<SpecHint> {
    match v {
        SpecJson::Obj(fs) => match (
            dec_field_i64(fs, "receiving_player"@),
            dec_field_i64(fs, "finding_player"@),
            dec_field_i64(fs, "location"@),
            dec_field_i64(fs, "item"@),
            dec_field_bool(fs, "found"@),
            dec_field_str(fs, "entrance"@),
            dec_field_u8(fs, "item_flags"@),
        ) {
            (
                Some(receiving_player),
                Some(finding_player),
                Some(location),
                Some(item),
                Some(found),
                Some(entrance),
                Some(bits),
            ) => Some(
                SpecHint {
                    receiving_player,
                    finding_player,
                    location,
                    item,
                    found,
                    entrance,
                    item_flags: NetworkItemFlags(bits),
                },
            ),
            _ => None,
        },
        _ => None,
    }
}

pub fn decode_hint(v: &JsonValue) -> (r: Option<Hint>)
    ensures
        opt_view(r) == dec_hint(v@),
{
    let fields = match v {
        JsonValue::Obj(fields) => fields,
        _ => { return None },
    };
    let receiving_player = match obj_get(fields, "receiving_player") {
        Some(JsonValue::Int(i)) => *i,
        _ => { return None },
    };
    let finding_player = match obj_get(fields, "finding_player") {
        Some(JsonValue::Int(i)) => *i,
        _ => { return None },
    };
    let location = match obj_get(fields, "location") {
        Some(JsonValue::Int(i)) => *i,
        _ => { return None },
    };
    let item = match obj_get(fields, "item") {
        Some(JsonValue::Int(i)) => *i,
        _ => { return None },
    };
    let found = match obj_get(fields, "found") {
        Some(JsonValue::Bool(b)) => *b,
        _ => { return None },
    };
    let entrance = match obj_get(fields, "entrance") {
        Some(JsonValue::Str(s)) => s.clone(),
        _ => { return None },
    };
    let bits = match obj_get(fields, "item_flags") {
        Some(JsonValue::Int(i)) => {
            let i = *i;
            if 0 <= i && i <= 255 {
                i as u8
            } else {
                return None;
            }
        }
        _ => { return None },
    };
    Some(
        Hint {
            receiving_player,
            finding_player,
            location,
            item,
            found,
            entrance,
            item_flags: NetworkItemFlags(bits),
        },
    )
}

pub proof fn lemma_hint_roundtrip(h: SpecHint)
    ensures
        dec_hint(enc_hint(h)) == Some(h),
{
    assert("receiving_player"@ != "finding_player"@) by {
        reveal_strlit("receiving_player");
        reveal_strlit("finding_player");
        assert("receiving_player"@[0] == 'r');
        assert("finding_player"@[0] == 'f');
    }
    assert("receiving_player"@ != "location"@) by {
        reveal_strlit("receiving_player");
        reveal_strlit("location");
        assert("receiving_player"@[0] == 'r');
        assert("location"@[0] == 'l');
    }
    assert("receiving_player"@ != "item"@) by {
        reveal_strlit("receiving_player");
        reveal_strlit("item");
        assert("receiving_player"@[0] == 'r');
        assert("item"@[0] == 'i');
    }
    assert("receiving_player"@ != "found"@) by {
        reveal_strlit("receiving_player");
        reveal_strlit("found");
        assert("receiving_player"@[0] == 'r');
        assert("found"@[0] == 'f');
    }
    assert("receiving_player"@ != "entrance"@) by {
        reveal_strlit("receiving_player");
        reveal_strlit("entrance");
        assert("receiving_player"@[0] == 'r');
        assert("entrance"@[0] == 'e');
    }
    assert("receiving_player"@ != "item_flags"@) by {
        reveal_strlit("receiving_player");
        reveal_strlit("item_flags");
        assert("receiving_player"@[0] == 'r');
        assert("item_flags"@[0] == 'i');
    }
    assert("finding_player"@ != "location"@) by {
        reveal_strlit("finding_player");
        reveal_strlit("location");
        assert("finding_player"@[0] == 'f');
        assert("location"@[0] == 'l');
    }
    assert("finding_player"@ != "item"@) by {
        reveal_strlit("finding_player");
        reveal_strlit("item");
        assert("finding_player"@[0] == 'f');
        assert("item"@[0] == 'i');
    }
    assert("finding_player"@ != "found"@) by {
        reveal_strlit("finding_player");
        reveal_strlit("found");
        assert("finding_player"@[1] == 'i');
        assert("found"@[1] == 'o');
    }
    assert("finding_player"@ != "entrance"@) by {
        reveal_strlit("finding_player");
        reveal_strlit("entrance");
        assert("finding_player"@[0] == 'f');
        assert("entrance"@[0] == 'e');
    }
    assert("finding_player"@ != "item_flags"@) by {
        reveal_strlit("finding_player");
        reveal_strlit("item_flags");
        assert("finding_player"@[0] == 'f');
        assert("item_flags"@[0] == 'i');
    }
    assert("location"@ != "item"@) by {
        reveal_strlit("location");
        reveal_strlit("item");
        assert("location"@[0] == 'l');
        assert("item"@[0] == 'i');
    }
    assert("location"@ != "found"@) by {
        reveal_strlit("location");
        reveal_strlit("found");
        assert("location"@[0] == 'l');
        assert("found"@[0] == 'f');
    }
    assert("location"@ != "entrance"@) by {
        reveal_strlit("location");
        reveal_strlit("entrance");
        assert("location"@[0] == 'l');
        assert("entrance"@[0] == 'e');
    }
    assert("location"@ != "item_flags"@) by {
        reveal_strlit("location");
        reveal_strlit("item_flags");
        assert("location"@[0] == 'l');
        assert("item_flags"@[0] == 'i');
    }
    assert("item"@ != "found"@) by {
        reveal_strlit("item");
        reveal_strlit("found");
        assert("item"@[0] == 'i');
        assert("found"@[0] == 'f');
    }
    assert("item"@ != "entrance"@) by {
        reveal_strlit("item");
        reveal_strlit("entrance");
        assert("item"@[0] == 'i');
        assert("entrance"@[0] == 'e');
    }
    assert("item"@ != "item_flags"@) by {
        reveal_strlit("item");
        reveal_strlit("item_flags");
        assert("item"@.len() == 4);
        assert("item_flags"@.len() == 10);
    }
    assert("found"@ != "entrance"@) by {
        reveal_strlit("found");
        reveal_strlit("entrance");
        assert("found"@[0] == 'f');
        assert("entrance"@[0] == 'e');
    }
    assert("found"@ != "item_flags"@) by {
        reveal_strlit("found");
        reveal_strlit("item_flags");
        assert("found"@[0] == 'f');
        assert("item_flags"@[0] == 'i');
    }
    assert("entrance"@ != "item_flags"@) by {
        reveal_strlit("entrance");
        reveal_strlit("item_flags");
        assert("entrance"@[0] == 'e');
        assert("item_flags"@[0] == 'i');
    }
    let fs = enc_hint(h)->Obj_0;
    lemma_obj_get_at(fs, "receiving_player"@, 0);
    lemma_obj_get_at(fs, "finding_player"@, 1);
    lemma_obj_get_at(fs, "location"@, 2);
    lemma_obj_get_at(fs, "item"@, 3);
    lemma_obj_get_at(fs, "found"@, 4);
    lemma_obj_get_at(fs, "entrance"@, 5);
    lemma_obj_get_at(fs, "item_flags"@, 6);
}

// ---------------------------------------------------------------------------
// The data package's per-game tables
// ---------------------------------------------------------------------------
pub open spec fn enc_id_table(s: Seq<(Seq<char>, i64)>) -> SpecJson {
    SpecJson::Obj(enc_entries(s, |x: i64| SpecJson::Int(x as int)))
}

pub open spec fn dec_id_table(v: SpecJson) -> Option<Seq<(Seq<char>, i64)>> {
    match v {
        SpecJson::Obj(fs) => dec_entries(fs, |x: SpecJson| dec_i64(x)),
        _ => None,
    }
}

pub open spec fn enc_game_data(g: SpecGameData) -> SpecJson {
    SpecJson::Obj(
        seq![
            ("item_name_to_id"@, enc_id_table(g.item_name_to_id)),
            ("location_name_to_id"@, enc_id_table(g.location_name_to_id)),
            ("version"@, SpecJson::Int(g.version as int)),
            ("checksum"@, SpecJson::Str(g.checksum)),
        ],
    )
}

pub open spec fn dec_game_data(v: SpecJson) -> Option<SpecGameData> {
    match v {
        SpecJson::Obj(fs) => match (
            dec_field(fs, "item_name_to_id"@),
            dec_field(fs, "location_name_to_id"@),
            dec_field_i64(fs, "version"@),
            dec_field_str(fs, "checksum"@),
        ) {
            (Some(a), Some(b), Some(version), Some(checksum)) => match (
                dec_id_table(a),
                dec_id_table(b),
            ) {
                (Some(item_name_to_id), Some(location_name_to_id)) => Some(
                    SpecGameData { item_name_to_id, location_name_to_id, version, checksum },
                ),
                _ => None,
            },
            _ => None,
        },
        _ => None,
    }
}

/// Reads an object whose values are integers: one name-to-id table.
pub fn decode_id_table(v: &JsonValue) -> (r: Option<Vec<(String, i64)>>)
    ensures
        match r {
            Some(out) => dec_id_table(v@) == Some(deep(out@)),
            None => dec_id_table(v@) is None,
        },
{
    let fields = match v {
        JsonValue::Obj(fields) => fields,
        _ => { return None },
    };
    let ghost m = model_of_fields(fields@);
    let ghost d = |x: SpecJson| dec_i64(x);
    proof {
        lemma_model_of_fields(fields@);
        lemma_dec_entries(m, d);
    }
    let mut out: Vec<(String, i64)> = Vec::new();
    let mut i: usize = 0;
    while i < fields.len()
        invariant
            i <= fields.len(),
            out@.len() == i as nat,
            v@ == SpecJson::Obj(m),
            m == model_of_fields(fields@),
            d == (|x: SpecJson| dec_i64(x)),
            m.len() == fields@.len(),
            forall|j: int|
                0 <= j < fields@.len() ==> m[j] == (fields@[j].0@, fields@[j].1@),
            forall|j: int|
                0 <= j < i ==> #[trigger] d(m[j].1) == Some(out@[j].1) && out@[j].0@ == m[j].0,
        decreases fields.len() - i,
    {
        let x = match &fields[i].1 {
            JsonValue::Int(x) => *x,
            _ => {
                proof {
                    assert(d(m[i as int].1) is None);
                    lemma_dec_entries(m, d);
                }
                return None;
            }
        };
        let key = fields[i].0.clone();
        out.push((key, x));
        i = i + 1;
    }
    proof {
        lemma_dec_entries(m, d);
        assert(forall|j: int| 0 <= j < m.len() ==> (#[trigger] d(m[j].1)) is Some);
        let dm = dec_entries(m, d)->Some_0;
        assert(dm =~= deep(out@));
    }
    Some(out)
}

pub fn decode_game_data(v: &JsonValue) -> (r: Option<GameData>)
    ensures
        opt_view(r) == dec_game_data(v@),
{
    let fields = match v {
        JsonValue::Obj(fields) => fields,
        _ => { return None },
    };
    let item_name_to_id = match obj_get(fields, "item_name_to_id") {
        Some(t) => match decode_id_table(t) {
            Some(t) => t,
            None => { return None },
        },
        None => { return None },
    };
    let location_name_to_id = match obj_get(fields, "location_name_to_id") {
        Some(t) => match decode_id_table(t) {
            Some(t) => t,
            None => { return None },
        },
        None => { return None },
    };
    let version = match obj_get(fields, "version") {
        Some(JsonValue::Int(i)) => *i,
        _ => { return None },
    };
    let checksum = match obj_get(fields, "checksum") {
        Some(JsonValue::Str(s)) => s.clone(),
        _ => { return None },
    };
    Some(GameData { item_name_to_id, location_name_to_id, version, checksum })
}

pub proof fn lemma_id_table_roundtrip(s: Seq<(Seq<char>, i64)>)
    ensures
        dec_id_table(enc_id_table(s)) == Some(s),
{
    let enc = |x: i64| SpecJson::Int(x as int);
    let d = |x: SpecJson| dec_i64(x);
    assert(forall|i: int| 0 <= i < s.len() ==> #[trigger] d(enc(s[i].1)) == Some(s[i].1));
    lemma_dec_enc_entries(s, enc, d);
}

pub proof fn lemma_game_data_roundtrip(g: SpecGameData)
    ensures
        dec_game_data(enc_game_data(g)) == Some(g),
{
    assert("item_name_to_id"@ != "location_name_to_id"@) by {
        reveal_strlit("item_name_to_id");
        reveal_strlit("location_name_to_id");
        assert("item_name_to_id"@[0] == 'i');
        assert("location_name_to_id"@[0] == 'l');
    }
    assert("item_name_to_id"@ != "version"@) by {
        reveal_strlit("item_name_to_id");
        reveal_strlit("version");
        assert("item_name_to_id"@[0] == 'i');
        assert("version"@[0] == 'v');
    }
    assert("item_name_to_id"@ != "checksum"@) by {
        reveal_strlit("item_name_to_id");
        reveal_strlit("checksum");
        assert("item_name_to_id"@[0] == 'i');
        assert("checksum"@[0] == 'c');
    }
    assert("location_name_to_id"@ != "version"@) by {
        reveal_strlit("location_name_to_id");
        reveal_strlit("version");
        assert("location_name_to_id"@[0] == 'l');
        assert("version"@[0] == 'v');
    }
    assert("location_name_to_id"@ != "checksum"@) by {
        reveal_strlit("location_name_to_id");
        reveal_strlit("checksum");
        assert("location_name_to_id"@[0] == 'l');
        assert("checksum"@[0] == 'c');
    }
    assert("version"@ != "checksum"@) by {
        reveal_strlit("version");
        reveal_strlit("checksum");
        assert("version"@[0] == 'v');
        assert("checksum"@[0] == 'c');
    }
    let fs = enc_game_data(g)->Obj_0;
    lemma_obj_get_at(fs, "item_name_to_id"@, 0);
    lemma_obj_get_at(fs, "location_name_to_id"@, 1);
    lemma_obj_get_at(fs, "version"@, 2);
    lemma_obj_get_at(fs, "checksum"@, 3);
    lemma_id_table_roundtrip(g.item_name_to_id);
    lemma_id_table_roundtrip(g.location_name_to_id);
}

} // verus!
