//! Executable halves of the array and map codecs: one loop per element type,
//! each verified against the element-wise spec decoders.

use vstd::prelude::*;

use crate::codec::{
    dec_all, dec_entries, dec_i64, dec_str, enc_entries, lemma_dec_all, lemma_dec_entries,
    opt_view,
};
use crate::codec_composite::{dec_game_data, dec_part, decode_game_data, decode_part};
use crate::codec_values::{
    dec_item, dec_permission, dec_permission_name, dec_player, dec_refusal, dec_slot,
    decode_item, decode_permission, decode_player, decode_refusal, decode_slot, str_is,
};
use crate::json::{
    lemma_model_of_fields, lemma_model_of_seq, model_of_fields, model_of_seq, JsonValue, SpecJson,
};
use crate::protocol::{
    deep, ConnectionRefusedError, GameData, JSONMessagePart, NetworkItem, NetworkPlayer,
    NetworkSlot, Permission, PermissionName,
};

verus! {

broadcast use {vstd::std_specs::vec::group_vec_axioms, vstd::seq::group_seq_axioms};

/// The deep view of a field list of the library's own JSON values is its
/// model: the two walk the pairs the same way.
pub proof fn lemma_deep_fields(s: Seq<(String, JsonValue)>)
    ensures
        deep(s) == model_of_fields(s),
{
    lemma_model_of_fields(s);
    assert(deep(s) =~= model_of_fields(s));
}

pub open spec fn enc_str_seq(s: Seq<Seq<char>>) -> Seq<SpecJson> {
    s.map_values(|t: Seq<char>| SpecJson::Str(t))
}

pub open spec fn dec_str_seq(items: Seq<SpecJson>) -> Option<Seq<Seq<char>>> {
    dec_all(items, |v: SpecJson| dec_str(v))
}

pub proof fn lemma_str_seq_roundtrip(s: Seq<Seq<char>>)
    ensures
        dec_str_seq(enc_str_seq(s)) == Some(s),
{
    let enc = |t: Seq<char>| SpecJson::Str(t);
    let d = |v: SpecJson| dec_str(v);
    assert(forall|i: int| 0 <= i < s.len() ==> #[trigger] d(enc(s[i])) == Some(s[i]));
    crate::codec::lemma_dec_enc_all(s, enc, d);
}

/// Encodes a list of strings as a JSON array.
pub fn encode_strings(v: &Vec<String>) -> (r: JsonValue)
    ensures
        r@ == SpecJson::Arr(enc_str_seq(deep(v@))),
{
    let mut out: Vec<JsonValue> = Vec::new();
    let mut i: usize = 0;
    while i < v.len()
        invariant
            i <= v.len(),
            out@.len() == i as nat,
            forall|j: int| 0 <= j < i ==> out@[j]@ == SpecJson::Str(v@[j]@),
        decreases v.len() - i,
    {
        out.push(JsonValue::Str(v[i].clone()));
        i = i + 1;
    }
    let r = JsonValue::Arr(out);
    proof {
        lemma_model_of_seq(out@);
        assert(model_of_seq(out@) =~= enc_str_seq(deep(v@)));
    }
    r
}

/// Encodes a list of integers as a JSON array.
pub fn encode_i64s(v: &Vec<i64>) -> (r: JsonValue)
    ensures
        r@ == SpecJson::Arr(crate::codec_values::enc_i64_seq(v@)),
{
    let mut out: Vec<JsonValue> = Vec::new();
    let mut i: usize = 0;
    while i < v.len()
        invariant
            i <= v.len(),
            out@.len() == i as nat,
            forall|j: int| 0 <= j < i ==> out@[j]@ == SpecJson::Int(v@[j] as int),
        decreases v.len() - i,
    {
        out.push(JsonValue::Int(v[i]));
        i = i + 1;
    }
    let r = JsonValue::Arr(out);
    proof {
        lemma_model_of_seq(out@);
        assert(model_of_seq(out@) =~= crate::codec_values::enc_i64_seq(v@));
    }
    r
}

pub open spec fn dec_player_seq(items: Seq<SpecJson>) -> Option<Seq<crate::protocol::SpecNetworkPlayer>> {
    dec_all(items, |v: SpecJson| dec_player(v))
}

/// Reads a JSON array of player values.
pub fn decode_player_vec(items: &Vec<JsonValue>) -> (r: Option<Vec<NetworkPlayer>>)
    ensures
        match r {
            Some(out) => dec_player_seq(model_of_seq(items@)) == Some(deep(out@)),
            None => dec_player_seq(model_of_seq(items@)) is None,
        },
{
    let ghost m = model_of_seq(items@);
    let ghost d = |v: SpecJson| dec_player(v);
    proof {
        lemma_model_of_seq(items@);
    }
    let mut out: Vec<NetworkPlayer> = Vec::new();
    let mut i: usize = 0;
    while i < items.len()
        invariant
            i <= items.len(),
            out@.len() == i as nat,
            m == model_of_seq(items@),
            d == (|v: SpecJson| dec_player(v)),
            m.len() == items@.len(),
            forall|j: int| 0 <= j < items@.len() ==> m[j] == items@[j]@,
            forall|j: int| 0 <= j < i ==> #[trigger] d(m[j]) == Some(out@[j]@),
        decreases items.len() - i,
    {
        match decode_player(&items[i]) {
            Some(x) => {
                out.push(x);
            }
            None => {
                proof {
                    assert(d(m[i as int]) is None);
                    lemma_dec_all(m, d);
                }
                return None;
            }
        }
        i = i + 1;
    }
    proof {
        lemma_dec_all(m, d);
        assert(forall|j: int| 0 <= j < m.len() ==> (#[trigger] d(m[j])) is Some);
        let dm = dec_player_seq(m)->Some_0;
        assert(dm =~= deep(out@));
    }
    Some(out)
}

pub open spec fn dec_item_seq(items: Seq<SpecJson>) -> Option<Seq<NetworkItem>> {
    dec_all(items, |v: SpecJson| dec_item(v))
}

/// Reads a JSON array of item values.
pub fn decode_item_vec(items: &Vec<JsonValue>) -> (r: Option<Vec<NetworkItem>>)
    ensures
        match r {
            Some(out) => dec_item_seq(model_of_seq(items@)) == Some(deep(out@)),
            None => dec_item_seq(model_of_seq(items@)) is None,
        },
{
    let ghost m = model_of_seq(items@);
    let ghost d = |v: SpecJson| dec_item(v);
    proof {
        lemma_model_of_seq(items@);
    }
    let mut out: Vec<NetworkItem> = Vec::new();
    let mut i: usize = 0;
    while i < items.len()
        invariant
            i <= items.len(),
            out@.len() == i as nat,
            m == model_of_seq(items@),
            d == (|v: SpecJson| dec_item(v)),
            m.len() == items@.len(),
            forall|j: int| 0 <= j < items@.len() ==> m[j] == items@[j]@,
            forall|j: int| 0 <= j < i ==> #[trigger] d(m[j]) == Some(out@[j]@),
        decreases items.len() - i,
    {
        match decode_item(&items[i]) {
            Some(x) => {
                out.push(x);
            }
            None => {
                proof {
                    assert(d(m[i as int]) is None);
                    lemma_dec_all(m, d);
                }
                return None;
            }
        }
        i = i + 1;
    }
    proof {
        lemma_dec_all(m, d);
        assert(forall|j: int| 0 <= j < m.len() ==> (#[trigger] d(m[j])) is Some);
        let dm = dec_item_seq(m)->Some_0;
        assert(dm =~= deep(out@));
    }
    Some(out)
}

pub open spec fn dec_part_seq(items: Seq<SpecJson>) -> Option<Seq<crate::protocol::SpecJSONMessagePart>> {
    dec_all(items, |v: SpecJson| dec_part(v))
}

/// Reads a JSON array of part values.
pub fn decode_part_vec(items: &Vec<JsonValue>) -> (r: Option<Vec<JSONMessagePart>>)
    ensures
        match r {
            Some(out) => dec_part_seq(model_of_seq(items@)) == Some(deep(out@)),
            None => dec_part_seq(model_of_seq(items@)) is None,
        },
{
    let ghost m = model_of_seq(items@);
    let ghost d = |v: SpecJson| dec_part(v);
    proof {
        lemma_model_of_seq(items@);
    }
    let mut out: Vec<JSONMessagePart> = Vec::new();
    let mut i: usize = 0;
    while i < items.len()
        invariant
            i <= items.len(),
            out@.len() == i as nat,
            m == model_of_seq(items@),
            d == (|v: SpecJson| dec_part(v)),
            m.len() == items@.len(),
            forall|j: int| 0 <= j < items@.len() ==> m[j] == items@[j]@,
            forall|j: int| 0 <= j < i ==> #[trigger] d(m[j]) == Some(out@[j]@),
        decreases items.len() - i,
    {
        match decode_part(&items[i]) {
            Some(x) => {
                out.push(x);
            }
            None => {
                proof {
                    assert(d(m[i as int]) is None);
                    lemma_dec_all(m, d);
                }
                return None;
            }
        }
        i = i + 1;
    }
    proof {
        lemma_dec_all(m, d);
        assert(forall|j: int| 0 <= j < m.len() ==> (#[trigger] d(m[j])) is Some);
        let dm = dec_part_seq(m)->Some_0;
        assert(dm =~= deep(out@));
    }
    Some(out)
}

pub open spec fn dec_refusal_seq(items: Seq<SpecJson>) -> Option<Seq<ConnectionRefusedError>> {
    dec_all(items, |v: SpecJson| dec_refusal(v))
}

/// Reads a JSON array of refusal values.
pub fn decode_refusal_vec(items: &Vec<JsonValue>) -> (r: Option<Vec<ConnectionRefusedError>>)
    ensures
        match r {
            Some(out) => dec_refusal_seq(model_of_seq(items@)) == Some(deep(out@)),
            None => dec_refusal_seq(model_of_seq(items@)) is None,
        },
{
    let ghost m = model_of_seq(items@);
    let ghost d = |v: SpecJson| dec_refusal(v);
    proof {
        lemma_model_of_seq(items@);
    }
    let mut out: Vec<ConnectionRefusedError> = Vec::new();
    let mut i: usize = 0;
    while i < items.len()
        invariant
            i <= items.len(),
            out@.len() == i as nat,
            m == model_of_seq(items@),
            d == (|v: SpecJson| dec_refusal(v)),
            m.len() == items@.len(),
            forall|j: int| 0 <= j < items@.len() ==> m[j] == items@[j]@,
            forall|j: int| 0 <= j < i ==> #[trigger] d(m[j]) == Some(out@[j]@),
        decreases items.len() - i,
    {
        match decode_refusal(&items[i]) {
            Some(x) => {
                out.push(x);
            }
            None => {
                proof {
                    assert(d(m[i as int]) is None);
                    lemma_dec_all(m, d);
                }
                return None;
            }
        }
        i = i + 1;
    }
    proof {
        lemma_dec_all(m, d);
        assert(forall|j: int| 0 <= j < m.len() ==> (#[trigger] d(m[j])) is Some);
        let dm = dec_refusal_seq(m)->Some_0;
        assert(dm =~= deep(out@));
    }
    Some(out)
}

/// Reads a JSON array of strings.
pub fn decode_strings(items: &Vec<JsonValue>) -> (r: Option<Vec<String>>)
    ensures
        match r {
            Some(out) => dec_str_seq(model_of_seq(items@)) == Some(deep(out@)),
            None => dec_str_seq(model_of_seq(items@)) is None,
        },
{
    let ghost m = model_of_seq(items@);
    let ghost d = |v: SpecJson| dec_str(v);
    proof {
        lemma_model_of_seq(items@);
    }
    let mut out: Vec<String> = Vec::new();
    let mut i: usize = 0;
    while i < items.len()
        invariant
            i <= items.len(),
            out@.len() == i as nat,
            m == model_of_seq(items@),
            d == (|v: SpecJson| dec_str(v)),
            m.len() == items@.len(),
            forall|j: int| 0 <= j < items@.len() ==> m[j] == items@[j]@,
            forall|j: int| 0 <= j < i ==> #[trigger] d(m[j]) == Some(out@[j]@),
        decreases items.len() - i,
    {
        match &items[i] {
            JsonValue::Str(s) => {
                out.push(s.clone());
            }
            _ => {
                proof {
                    assert(d(m[i as int]) is None);
                    lemma_dec_all(m, d);
                }
                return None;
            }
        }
        i = i + 1;
    }
    proof {
        lemma_dec_all(m, d);
        assert(forall|j: int| 0 <= j < m.len() ==> (#[trigger] d(m[j])) is Some);
        let dm = dec_str_seq(m)->Some_0;
        assert(dm =~= deep(out@));
    }
    Some(out)
}

pub open spec fn dec_slot_entries(fields: Seq<(Seq<char>, SpecJson)>) -> Option<
    Seq<(Seq<char>, crate::protocol::SpecNetworkSlot)>,
> {
    dec_entries(fields, |v: SpecJson| dec_slot(v))
}

/// Reads a JSON object whose values are slot values, keys kept in order.
pub fn decode_slot_entries(fields: &Vec<(String, JsonValue)>) -> (r: Option<
    Vec<(String, NetworkSlot)>,
>)
    ensures
        match r {
            Some(out) => dec_slot_entries(model_of_fields(fields@)) == Some(deep(out@)),
            None => dec_slot_entries(model_of_fields(fields@)) is None,
        },
{
    let ghost m = model_of_fields(fields@);
    let ghost d = |v: SpecJson| dec_slot(v);
    proof {
        lemma_model_of_fields(fields@);
    }
    let mut out: Vec<(String, NetworkSlot)> = Vec::new();
    let mut i: usize = 0;
    while i < fields.len()
        invariant
            i <= fields.len(),
            out@.len() == i as nat,
            m == model_of_fields(fields@),
            d == (|v: SpecJson| dec_slot(v)),
            m.len() == fields@.len(),
            forall|j: int| 0 <= j < fields@.len() ==> m[j] == (fields@[j].0@, fields@[j].1@),
            forall|j: int|
                0 <= j < i ==> #[trigger] d(m[j].1) == Some(out@[j].1@) && out@[j].0@ == m[j].0,
        decreases fields.len() - i,
    {
        match decode_slot(&fields[i].1) {
            Some(x) => {
                let key = fields[i].0.clone();
                out.push((key, x));
            }
            None => {
                proof {
                    assert(d(m[i as int].1) is None);
                    lemma_dec_entries(m, d);
                }
                return None;
            }
        }
        i = i + 1;
    }
    proof {
        lemma_dec_entries(m, d);
        assert(forall|j: int| 0 <= j < m.len() ==> (#[trigger] d(m[j].1)) is Some);
        let dm = dec_slot_entries(m)->Some_0;
        assert(dm =~= deep(out@));
    }
    Some(out)
}

pub open spec fn dec_game_data_entries(fields: Seq<(Seq<char>, SpecJson)>) -> Option<
    Seq<(Seq<char>, crate::protocol::SpecGameData)>,
> {
    dec_entries(fields, |v: SpecJson| dec_game_data(v))
}

/// Reads a JSON object whose values are game_data values, keys kept in order.
pub fn decode_game_data_entries(fields: &Vec<(String, JsonValue)>) -> (r: Option<
    Vec<(String, GameData)>,
>)
    ensures
        match r {
            Some(out) => dec_game_data_entries(model_of_fields(fields@)) == Some(deep(out@)),
            None => dec_game_data_entries(model_of_fields(fields@)) is None,
        },
{
    let ghost m = model_of_fields(fields@);
    let ghost d = |v: SpecJson| dec_game_data(v);
    proof {
        lemma_model_of_fields(fields@);
    }
    let mut out: Vec<(String, GameData)> = Vec::new();
    let mut i: usize = 0;
    while i < fields.len()
        invariant
            i <= fields.len(),
            out@.len() == i as nat,
            m == model_of_fields(fields@),
            d == (|v: SpecJson| dec_game_data(v)),
            m.len() == fields@.len(),
            forall|j: int| 0 <= j < fields@.len() ==> m[j] == (fields@[j].0@, fields@[j].1@),
            forall|j: int|
                0 <= j < i ==> #[trigger] d(m[j].1) == Some(out@[j].1@) && out@[j].0@ == m[j].0,
        decreases fields.len() - i,
    {
        match decode_game_data(&fields[i].1) {
            Some(x) => {
                let key = fields[i].0.clone();
                out.push((key, x));
            }
            None => {
                proof {
                    assert(d(m[i as int].1) is None);
                    lemma_dec_entries(m, d);
                }
                return None;
            }
        }
        i = i + 1;
    }
    proof {
        lemma_dec_entries(m, d);
        assert(forall|j: int| 0 <= j < m.len() ==> (#[trigger] d(m[j].1)) is Some);
        let dm = dec_game_data_entries(m)->Some_0;
        assert(dm =~= deep(out@));
    }
    Some(out)
}

pub open spec fn dec_str_entries(fields: Seq<(Seq<char>, SpecJson)>) -> Option<
    Seq<(Seq<char>, Seq<char>)>,
> {
    dec_entries(fields, |v: SpecJson| dec_str(v))
}

/// Reads a JSON object whose values are strings, keys kept in order.
pub fn decode_str_entries(fields: &Vec<(String, JsonValue)>) -> (r: Option<Vec<(String, String)>>)
    ensures
        match r {
            Some(out) => dec_str_entries(model_of_fields(fields@)) == Some(deep(out@)),
            None => dec_str_entries(model_of_fields(fields@)) is None,
        },
{
    let ghost m = model_of_fields(fields@);
    let ghost d = |v: SpecJson| dec_str(v);
    proof {
        lemma_model_of_fields(fields@);
    }
    let mut out: Vec<(String, String)> = Vec::new();
    let mut i: usize = 0;
    while i < fields.len()
        invariant
            i <= fields.len(),
            out@.len() == i as nat,
            m == model_of_fields(fields@),
            d == (|v: SpecJson| dec_str(v)),
            m.len() == fields@.len(),
            forall|j: int| 0 <= j < fields@.len() ==> m[j] == (fields@[j].0@, fields@[j].1@),
            forall|j: int|
                0 <= j < i ==> #[trigger] d(m[j].1) == Some(out@[j].1@) && out@[j].0@ == m[j].0,
        decreases fields.len() - i,
    {
        match &fields[i].1 {
            JsonValue::Str(s) => {
                let key = fields[i].0.clone();
                out.push((key, s.clone()));
            }
            _ => {
                proof {
                    assert(d(m[i as int].1) is None);
                    lemma_dec_entries(m, d);
                }
                return None;
            }
        }
        i = i + 1;
    }
    proof {
        lemma_dec_entries(m, d);
        assert(forall|j: int| 0 <= j < m.len() ==> (#[trigger] d(m[j].1)) is Some);
        let dm = dec_str_entries(m)->Some_0;
        assert(dm =~= deep(out@));
    }
    Some(out)
}

/// Copies a JSON object's fields as they stand: the model is kept unchanged.
pub fn clone_fields(fields: &Vec<(String, JsonValue)>) -> (r: Vec<(String, JsonValue)>)
    ensures
        deep(r@) == model_of_fields(fields@),
{
    let mut out: Vec<(String, JsonValue)> = Vec::new();
    let mut i: usize = 0;
    while i < fields.len()
        invariant
            i <= fields.len(),
            out@.len() == i as nat,
            forall|j: int|
                0 <= j < i ==> out@[j].0@ == fields@[j].0@ && out@[j].1@ == fields@[j].1@,
        decreases fields.len() - i,
    {
        let key = fields[i].0.clone();
        let val = fields[i].1.duplicate();
        out.push((key, val));
        i = i + 1;
    }
    proof {
        lemma_model_of_fields(fields@);
        assert(deep(out@) =~= model_of_fields(fields@));
    }
    out
}

// ---------------------------------------------------------------------------
// Permission tables: string keys from a closed set, integer values
// ---------------------------------------------------------------------------
pub open spec fn enc_permission_entries(s: Seq<(PermissionName, Permission)>) -> Seq<
    (Seq<char>, SpecJson),
> {
    s.map_values(
        |p: (PermissionName, Permission)|
            (
                crate::codec_values::permission_name_key(p.0),
                crate::codec_values::enc_permission(p.1),
            ),
    )
}

pub open spec fn dec_permission_entries(fields: Seq<(Seq<char>, SpecJson)>) -> Option<
    Seq<(PermissionName, Permission)>,
>
    decreases fields.len(),
{
    if fields.len() == 0 {
        Some(Seq::empty())
    } else {
        match (
            dec_permission_entries(fields.drop_last()),
            dec_permission_name(fields.last().0),
            dec_permission(fields.last().1),
        ) {
            (Some(init), Some(k), Some(p)) => Some(init.push((k, p))),
            _ => None,
        }
    }
}

pub proof fn lemma_dec_permission_entries(fields: Seq<(Seq<char>, SpecJson)>)
    ensures
        dec_permission_entries(fields) is Some <==> (forall|i: int|
            0 <= i < fields.len() ==> dec_permission_name((#[trigger] fields[i]).0) is Some
                && dec_permission(fields[i].1) is Some),
        dec_permission_entries(fields) matches Some(out) ==> out.len() == fields.len() && (forall|
            i: int,
        |
            0 <= i < fields.len() ==> #[trigger] out[i] == (
                dec_permission_name(fields[i].0)->Some_0,
                dec_permission(fields[i].1)->Some_0,
            )),
    decreases fields.len(),
{
    if fields.len() > 0 {
        let init = fields.drop_last();
        let n = fields.len() - 1;
        lemma_dec_permission_entries(init);
        assert(forall|i: int| 0 <= i < n ==> #[trigger] init[i] == fields[i]);
        assert(fields.last() == fields[n]);
        if dec_permission_entries(fields) is Some {
            assert forall|i: int| 0 <= i < fields.len() implies dec_permission_name(
                (#[trigger] fields[i]).0,
            ) is Some && dec_permission(fields[i].1) is Some by {
                if i < n {
                    assert(dec_permission_name(init[i].0) is Some && dec_permission(
                        init[i].1,
                    ) is Some);
                }
            }
        }
        if forall|i: int|
            0 <= i < fields.len() ==> dec_permission_name((#[trigger] fields[i]).0) is Some
                && dec_permission(fields[i].1) is Some {
            assert forall|i: int| 0 <= i < init.len() implies dec_permission_name(
                (#[trigger] init[i]).0,
            ) is Some && dec_permission(init[i].1) is Some by {
                assert(init[i] == fields[i]);
            }
            assert(dec_permission_entries(init) is Some);
        }
        if dec_permission_entries(fields) is Some {
            let out = dec_permission_entries(fields)->Some_0;
            let pre = dec_permission_entries(init)->Some_0;
            assert forall|i: int| 0 <= i < fields.len() implies #[trigger] out[i] == (
                dec_permission_name(fields[i].0)->Some_0,
                dec_permission(fields[i].1)->Some_0,
            ) by {
                if i < n {
                    assert(out[i] == pre[i]);
                    assert(pre[i] == (
                        dec_permission_name(init[i].0)->Some_0,
                        dec_permission(init[i].1)->Some_0,
                    ));
                }
            }
        }
    }
}

pub fn decode_permission_name(s: &String) -> (r: Option<PermissionName>)
    ensures
        opt_view(r) == dec_permission_name(s@),
{
    if str_is(s, "release") {
        Some(PermissionName::Release)
    } else if str_is(s, "collect") {
        Some(PermissionName::Collect)
    } else if str_is(s, "remaining") {
        Some(PermissionName::Remaining)
    } else {
        None
    }
}

/// Reads the room's permission table.
pub fn decode_permission_entries(fields: &Vec<(String, JsonValue)>) -> (r: Option<
    Vec<(PermissionName, Permission)>,
>)
    ensures
        match r {
            Some(out) => dec_permission_entries(model_of_fields(fields@)) == Some(out@),
            None => dec_permission_entries(model_of_fields(fields@)) is None,
        },
{
    let ghost m = model_of_fields(fields@);
    proof {
        lemma_model_of_fields(fields@);
    }
    let mut out: Vec<(PermissionName, Permission)> = Vec::new();
    let mut i: usize = 0;
    while i < fields.len()
        invariant
            i <= fields.len(),
            out@.len() == i as nat,
            m == model_of_fields(fields@),
            m.len() == fields@.len(),
            forall|j: int| 0 <= j < fields@.len() ==> m[j] == (fields@[j].0@, fields@[j].1@),
            forall|j: int|
                0 <= j < i ==> dec_permission_name((#[trigger] m[j]).0) == Some(out@[j].0)
                    && dec_permission(m[j].1) == Some(out@[j].1),
        decreases fields.len() - i,
    {
        let k = match decode_permission_name(&fields[i].0) {
            Some(k) => k,
            None => {
                proof {
                    assert(dec_permission_name(m[i as int].0) is None);
                    lemma_dec_permission_entries(m);
                }
                return None;
            }
        };
        let p = match decode_permission(&fields[i].1) {
            Some(p) => p,
            None => {
                proof {
                    assert(dec_permission(m[i as int].1) is None);
                    lemma_dec_permission_entries(m);
                }
                return None;
            }
        };
        out.push((k, p));
        i = i + 1;
    }
    proof {
        lemma_dec_permission_entries(m);
        let dm = dec_permission_entries(m)->Some_0;
        assert(dm =~= out@);
    }
    Some(out)
}

pub proof fn lemma_permission_entries_roundtrip(s: Seq<(PermissionName, Permission)>)
    ensures
        dec_permission_entries(enc_permission_entries(s)) == Some(s),
{
    let fields = enc_permission_entries(s);
    assert(forall|i: int|
        0 <= i < fields.len() ==> #[trigger] fields[i] == (
            crate::codec_values::permission_name_key(s[i].0),
            crate::codec_values::enc_permission(s[i].1),
        ));
    lemma_dec_permission_entries(fields);
    assert forall|i: int| 0 <= i < fields.len() implies dec_permission_name(
        (#[trigger] fields[i]).0,
    ) is Some && dec_permission(fields[i].1) is Some by {
        crate::codec_values::lemma_permission_name_roundtrip(s[i].0);
    }
    let out = dec_permission_entries(fields)->Some_0;
    assert forall|i: int| 0 <= i < s.len() implies #[trigger] out[i] == s[i] by {
        crate::codec_values::lemma_permission_name_roundtrip(s[i].0);
    }
    assert(out =~= s);
}

} // verus!
