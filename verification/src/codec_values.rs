//! Codec for the shared value types: each type has its wire form stated as a
//! spec encoder and a spec decoder, executable halves where the protocol needs
//! them, and a proof that decoding inverts encoding.

use vstd::prelude::*;

use crate::codec::{
    dec_bool, dec_i64, dec_str, dec_u8, lemma_obj_get_at, obj_get, opt_view,
};
use crate::json::{
    lemma_model_of_fields, lemma_model_of_seq, model_of_fields, model_of_seq, spec_obj_get,
    JsonValue, SpecJson,
};
use crate::protocol::{
    ClientStatus, ConnectionRefusedError, ItemsHandlingFlags, JSONColor, NetworkItem,
    NetworkItemFlags, NetworkPlayer, NetworkSlot, NetworkVersion, PacketProblemType, Permission,
    PermissionName, SlotType, SpecNetworkPlayer, SpecNetworkSlot,
};

verus! {

broadcast use {vstd::std_specs::vec::group_vec_axioms, vstd::seq::group_seq_axioms};

/// String equality against a key or tag literal.
pub fn str_is(s: &String, lit: &str) -> (r: bool)
    ensures
        r == (s@ == lit@),
{
    let k: String = lit.to_owned();
    *s == k
}

// ---------------------------------------------------------------------------
// Version triple
// ---------------------------------------------------------------------------
pub open spec fn dec_field(fs: Seq<(Seq<char>, SpecJson)>, key: Seq<char>) -> Option<SpecJson> {
    spec_obj_get(fs, key)
}

pub open spec fn dec_field_i64(fs: Seq<(Seq<char>, SpecJson)>, key: Seq<char>) -> Option<i64> {
    match spec_obj_get(fs, key) {
        Some(v) => dec_i64(v),
        None => None,
    }
}

pub open spec fn dec_field_u8(fs: Seq<(Seq<char>, SpecJson)>, key: Seq<char>) -> Option<u8> {
    match spec_obj_get(fs, key) {
        Some(v) => dec_u8(v),
        None => None,
    }
}

pub open spec fn dec_field_bool(fs: Seq<(Seq<char>, SpecJson)>, key: Seq<char>) -> Option<bool> {
    match spec_obj_get(fs, key) {
        Some(v) => dec_bool(v),
        None => None,
    }
}

pub open spec fn dec_field_str(fs: Seq<(Seq<char>, SpecJson)>, key: Seq<char>) -> Option<
    Seq<char>,
> {
    match spec_obj_get(fs, key) {
        Some(v) => dec_str(v),
        None => None,
    }
}

/// An optional string field: absent or `null` reads as `None`; any other
/// non-string value is a shape error.
pub open spec fn dec_field_opt_str(fs: Seq<(Seq<char>, SpecJson)>, key: Seq<char>) -> Option<
    Option<Seq<char>>,
> {
    match spec_obj_get(fs, key) {
        None => Some(None),
        Some(SpecJson::Null) => Some(None),
        Some(SpecJson::Str(s)) => Some(Some(s)),
        Some(_) => None,
    }
}

/// The version triple's wire form, with its fixed `class` discriminator.
pub open spec fn enc_version(v: NetworkVersion) -> SpecJson {
    SpecJson::Obj(
        seq![
            ("major"@, SpecJson::Int(v.major as int)),
            ("minor"@, SpecJson::Int(v.minor as int)),
            ("build"@, SpecJson::Int(v.build as int)),
            ("class"@, SpecJson::Str("Version"@)),
        ],
    )
}

pub open spec fn dec_version(v: SpecJson) -> Option<NetworkVersion> {
    match v {
        SpecJson::Obj(fs) => match (
            dec_field_i64(fs, "major"@),
            dec_field_i64(fs, "minor"@),
            dec_field_i64(fs, "build"@),
        ) {
            (Some(major), Some(minor), Some(build)) => Some(
                NetworkVersion { major, minor, build },
            ),
            _ => None,
        },
        _ => None,
    }
}

pub fn encode_version(v: &NetworkVersion) -> (r: JsonValue)
    ensures
        r@ == enc_version(*v),
{
    let mut fs: Vec<(String, JsonValue)> = Vec::new();
    fs.push(("major".to_owned(), JsonValue::Int(v.major)));
    fs.push(("minor".to_owned(), JsonValue::Int(v.minor)));
    fs.push(("build".to_owned(), JsonValue::Int(v.build)));
    fs.push(("class".to_owned(), JsonValue::Str("Version".to_owned())));
    let r = JsonValue::Obj(fs);
    proof {
        lemma_model_of_fields(fs@);
        assert(model_of_fields(fs@) =~= enc_version(*v)->Obj_0);
    }
    r
}

pub fn decode_version(v: &JsonValue) -> (r: Option<NetworkVersion>)
    ensures
        opt_view(r) == dec_version(v@),
{
    let fields = match v {
        JsonValue::Obj(fields) => fields,
        _ => { return None },
    };
    let major = match obj_get(fields, "major") {
        Some(JsonValue::Int(i)) => *i,
        _ => { return None },
    };
    let minor = match obj_get(fields, "minor") {
        Some(JsonValue::Int(i)) => *i,
        _ => { return None },
    };
    let build = match obj_get(fields, "build") {
        Some(JsonValue::Int(i)) => *i,
        _ => { return None },
    };
    Some(NetworkVersion { major, minor, build })
}

pub proof fn lemma_version_roundtrip(v: NetworkVersion)
    ensures
        dec_version(enc_version(v)) == Some(v),
{
    assert("major"@ != "minor"@) by {
        reveal_strlit("major");
        reveal_strlit("minor");
        assert("major"@[1] == 'a');
        assert("minor"@[1] == 'i');
    }
    assert("major"@ != "build"@) by {
        reveal_strlit("major");
        reveal_strlit("build");
        assert("major"@[0] == 'm');
        assert("build"@[0] == 'b');
    }
    assert("major"@ != "class"@) by {
        reveal_strlit("major");
        reveal_strlit("class");
        assert("major"@[0] == 'm');
        assert("class"@[0] == 'c');
    }
    assert("minor"@ != "build"@) by {
        reveal_strlit("minor");
        reveal_strlit("build");
        assert("minor"@[0] == 'm');
        assert("build"@[0] == 'b');
    }
    assert("minor"@ != "class"@) by {
        reveal_strlit("minor");
        reveal_strlit("class");
        assert("minor"@[0] == 'm');
        assert("class"@[0] == 'c');
    }
    assert("build"@ != "class"@) by {
        reveal_strlit("build");
        reveal_strlit("class");
        assert("build"@[0] == 'b');
        assert("class"@[0] == 'c');
    }
    let fs = enc_version(v)->Obj_0;
    lemma_obj_get_at(fs, "major"@, 0);
    lemma_obj_get_at(fs, "minor"@, 1);
    lemma_obj_get_at(fs, "build"@, 2);
}

// ---------------------------------------------------------------------------
// Flag sets (integers on the wire)
// ---------------------------------------------------------------------------
pub open spec fn enc_items_handling(f: ItemsHandlingFlags) -> SpecJson {
    SpecJson::Int(f.0 as int)
}

pub open spec fn dec_items_handling(v: SpecJson) -> Option<ItemsHandlingFlags> {
    match dec_u8(v) {
        Some(b) => Some(ItemsHandlingFlags(b)),
        None => None,
    }
}

pub open spec fn enc_item_flags(f: NetworkItemFlags) -> SpecJson {
    SpecJson::Int(f.0 as int)
}

pub open spec fn dec_item_flags(v: SpecJson) -> Option<NetworkItemFlags> {
    match dec_u8(v) {
        Some(b) => Some(NetworkItemFlags(b)),
        None => None,
    }
}

pub proof fn lemma_flags_roundtrip(f: ItemsHandlingFlags, g: NetworkItemFlags)
    ensures
        dec_items_handling(enc_items_handling(f)) == Some(f),
        dec_item_flags(enc_item_flags(g)) == Some(g),
{
}

// ---------------------------------------------------------------------------
// Closed enumerations
// ---------------------------------------------------------------------------
pub open spec fn enc_permission(p: Permission) -> SpecJson {
    SpecJson::Int(
        match p {
            Permission::Disabled => 0,
            Permission::Enabled => 1,
            Permission::Goal => 2,
            Permission::Auto => 6,
            Permission::AutoEnabled => 7,
        },
    )
}

pub open spec fn dec_permission(v: SpecJson) -> Option<Permission> {
    match v {
        SpecJson::Int(i) => if i == 0 {
            Some(Permission::Disabled)
        } else if i == 1 {
            Some(Permission::Enabled)
        } else if i == 2 {
            Some(Permission::Goal)
        } else if i == 6 {
            Some(Permission::Auto)
        } else if i == 7 {
            Some(Permission::AutoEnabled)
        } else {
            None
        },
        _ => None,
    }
}

pub fn decode_permission(v: &JsonValue) -> (r: Option<Permission>)
    ensures
        opt_view(r) == dec_permission(v@),
{
    match v {
        JsonValue::Int(i) => {
            let i = *i;
            if i == 0 {
                Some(Permission::Disabled)
            } else if i == 1 {
                Some(Permission::Enabled)
            } else if i == 2 {
                Some(Permission::Goal)
            } else if i == 6 {
                Some(Permission::Auto)
            } else if i == 7 {
                Some(Permission::AutoEnabled)
            } else {
                None
            }
        }
        _ => None,
    }
}

pub open spec fn permission_name_key(p: PermissionName) -> Seq<char> {
    match p {
        PermissionName::Release => "release"@,
        PermissionName::Collect => "collect"@,
        PermissionName::Remaining => "remaining"@,
    }
}

pub open spec fn dec_permission_name(s: Seq<char>) -> Option<PermissionName> {
    if s == "release"@ {
        Some(PermissionName::Release)
    } else if s == "collect"@ {
        Some(PermissionName::Collect)
    } else if s == "remaining"@ {
        Some(PermissionName::Remaining)
    } else {
        None
    }
}

pub proof fn lemma_permission_name_roundtrip(p: PermissionName)
    ensures
        dec_permission_name(permission_name_key(p)) == Some(p),
{
    assert("release"@ != "collect"@) by {
        reveal_strlit("release");
        reveal_strlit("collect");
        assert("release"@[0] == 'r');
        assert("collect"@[0] == 'c');
    }
    assert("release"@ != "remaining"@) by {
        reveal_strlit("release");
        reveal_strlit("remaining");
        assert("release"@[2] == 'l');
        assert("remaining"@[2] == 'm');
    }
    assert("collect"@ != "remaining"@) by {
        reveal_strlit("collect");
        reveal_strlit("remaining");
        assert("collect"@[0] == 'c');
        assert("remaining"@[0] == 'r');
    }
}

pub open spec fn enc_client_status(s: ClientStatus) -> SpecJson {
    SpecJson::Int(
        match s {
            ClientStatus::Unknown => 0,
            ClientStatus::Connected => 5,
            ClientStatus::Ready => 10,
            ClientStatus::Playing => 20,
            ClientStatus::Goal => 30,
        },
    )
}

pub open spec fn dec_client_status(v: SpecJson) -> Option<ClientStatus> {
    match v {
        SpecJson::Int(i) => if i == 0 {
            Some(ClientStatus::Unknown)
        } else if i == 5 {
            Some(ClientStatus::Connected)
        } else if i == 10 {
            Some(ClientStatus::Ready)
        } else if i == 20 {
            Some(ClientStatus::Playing)
        } else if i == 30 {
            Some(ClientStatus::Goal)
        } else {
            None
        },
        _ => None,
    }
}

pub fn encode_client_status(s: &ClientStatus) -> (r: JsonValue)
    ensures
        r@ == enc_client_status(*s),
{
    JsonValue::Int(
        match s {
            ClientStatus::Unknown => 0,
            ClientStatus::Connected => 5,
            ClientStatus::Ready => 10,
            ClientStatus::Playing => 20,
            ClientStatus::Goal => 30,
        },
    )
}

pub open spec fn enc_slot_type(s: SlotType) -> SpecJson {
    SpecJson::Int(
        match s {
            SlotType::Spectator => 0,
            SlotType::Player => 1,
            SlotType::Group => 2,
        },
    )
}

pub open spec fn dec_slot_type(v: SpecJson) -> Option<SlotType> {
    match v {
        SpecJson::Int(i) => if i == 0 {
            Some(SlotType::Spectator)
        } else if i == 1 {
            Some(SlotType::Player)
        } else if i == 2 {
            Some(SlotType::Group)
        } else {
            None
        },
        _ => None,
    }
}

pub fn decode_slot_type(v: &JsonValue) -> (r: Option<SlotType>)
    ensures
        opt_view(r) == dec_slot_type(v@),
{
    match v {
        JsonValue::Int(i) => {
            let i = *i;
            if i == 0 {
                Some(SlotType::Spectator)
            } else if i == 1 {
                Some(SlotType::Player)
            } else if i == 2 {
                Some(SlotType::Group)
            } else {
                None
            }
        }
        _ => None,
    }
}

pub proof fn lemma_int_enums_roundtrip(p: Permission, c: ClientStatus, t: SlotType)
    ensures
        dec_permission(enc_permission(p)) == Some(p),
        dec_client_status(enc_client_status(c)) == Some(c),
        dec_slot_type(enc_slot_type(t)) == Some(t),
{
}

pub open spec fn refusal_tag(e: ConnectionRefusedError) -> Seq<char> {
    match e {
        ConnectionRefusedError::InvalidSlot => "InvalidSlot"@,
        ConnectionRefusedError::InvalidGame => "InvalidGame"@,
        ConnectionRefusedError::IncompatibleVersion => "IncompatibleVersion"@,
        ConnectionRefusedError::InvalidPassword => "InvalidPassword"@,
        ConnectionRefusedError::InvalidItemsHandling => "InvalidItemsHandling"@,
    }
}

pub open spec fn enc_refusal(e: ConnectionRefusedError) -> SpecJson {
    SpecJson::Str(refusal_tag(e))
}

pub open spec fn dec_refusal(v: SpecJson) -> Option<ConnectionRefusedError> {
    match v {
        SpecJson::Str(s) => if s == "InvalidSlot"@ {
            Some(ConnectionRefusedError::InvalidSlot)
        } else if s == "InvalidGame"@ {
            Some(ConnectionRefusedError::InvalidGame)
        } else if s == "IncompatibleVersion"@ {
            Some(ConnectionRefusedError::IncompatibleVersion)
        } else if s == "InvalidPassword"@ {
            Some(ConnectionRefusedError::InvalidPassword)
        } else if s == "InvalidItemsHandling"@ {
            Some(ConnectionRefusedError::InvalidItemsHandling)
        } else {
            None
        },
        _ => None,
    }
}

pub fn decode_refusal(v: &JsonValue) -> (r: Option<ConnectionRefusedError>)
    ensures
        opt_view(r) == dec_refusal(v@),
{
    let s = match v {
        JsonValue::Str(s) => s,
        _ => { return None },
    };
    if str_is(s, "InvalidSlot") {
        Some(ConnectionRefusedError::InvalidSlot)
    } else if str_is(s, "InvalidGame") {
        Some(ConnectionRefusedError::InvalidGame)
    } else if str_is(s, "IncompatibleVersion") {
        Some(ConnectionRefusedError::IncompatibleVersion)
    } else if str_is(s, "InvalidPassword") {
        Some(ConnectionRefusedError::InvalidPassword)
    } else if str_is(s, "InvalidItemsHandling") {
        Some(ConnectionRefusedError::InvalidItemsHandling)
    } else {
        None
    }
}

pub proof fn lemma_refusal_roundtrip(e: ConnectionRefusedError)
    ensures
        dec_refusal(enc_refusal(e)) == Some(e),
{
    assert("InvalidSlot"@ != "InvalidGame"@) by {
        reveal_strlit("InvalidSlot");
        reveal_strlit("InvalidGame");
        assert("InvalidSlot"@[7] == 'S');
        assert("InvalidGame"@[7] == 'G');
    }
    assert("InvalidSlot"@ != "IncompatibleVersion"@) by {
        reveal_strlit("InvalidSlot");
        reveal_strlit("IncompatibleVersion");
        assert("InvalidSlot"@[2] == 'v');
        assert("IncompatibleVersion"@[2] == 'c');
    }
    assert("InvalidSlot"@ != "InvalidPassword"@) by {
        reveal_strlit("InvalidSlot");
        reveal_strlit("InvalidPassword");
        assert("InvalidSlot"@[7] == 'S');
        assert("InvalidPassword"@[7] == 'P');
    }
    assert("InvalidSlot"@ != "InvalidItemsHandling"@) by {
        reveal_strlit("InvalidSlot");
        reveal_strlit("InvalidItemsHandling");
        assert("InvalidSlot"@[7] == 'S');
        assert("InvalidItemsHandling"@[7] == 'I');
    }
    assert("InvalidGame"@ != "IncompatibleVersion"@) by {
        reveal_strlit("InvalidGame");
        reveal_strlit("IncompatibleVersion");
        assert("InvalidGame"@[2] == 'v');
        assert("IncompatibleVersion"@[2] == 'c');
    }
    assert("InvalidGame"@ != "InvalidPassword"@) by {
        reveal_strlit("InvalidGame");
        reveal_strlit("InvalidPassword");
        assert("InvalidGame"@[7] == 'G');
        assert("InvalidPassword"@[7] == 'P');
    }
    assert("InvalidGame"@ != "InvalidItemsHandling"@) by {
        reveal_strlit("InvalidGame");
        reveal_strlit("InvalidItemsHandling");
        assert("InvalidGame"@[7] == 'G');
        assert("InvalidItemsHandling"@[7] == 'I');
    }
    assert("IncompatibleVersion"@ != "InvalidPassword"@) by {
        reveal_strlit("IncompatibleVersion");
        reveal_strlit("InvalidPassword");
        assert("IncompatibleVersion"@[2] == 'c');
        assert("InvalidPassword"@[2] == 'v');
    }
    assert("IncompatibleVersion"@ != "InvalidItemsHandling"@) by {
        reveal_strlit("IncompatibleVersion");
        reveal_strlit("InvalidItemsHandling");
        assert("IncompatibleVersion"@[2] == 'c');
        assert("InvalidItemsHandling"@[2] == 'v');
    }
    assert("InvalidPassword"@ != "InvalidItemsHandling"@) by {
        reveal_strlit("InvalidPassword");
        reveal_strlit("InvalidItemsHandling");
        assert("InvalidPassword"@[7] == 'P');
        assert("InvalidItemsHandling"@[7] == 'I');
    }
}

pub open spec fn problem_tag(p: PacketProblemType) -> Seq<char> {
    match p {
        PacketProblemType::Cmd => "cmd"@,
        PacketProblemType::Arguments => "arguments"@,
    }
}

pub open spec fn enc_problem_type(p: PacketProblemType) -> SpecJson {
    SpecJson::Str(problem_tag(p))
}

pub open spec fn dec_problem_type(v: SpecJson) -> Option<PacketProblemType> {
    match v {
        SpecJson::Str(s) => if s == "cmd"@ {
            Some(PacketProblemType::Cmd)
        } else if s == "arguments"@ {
            Some(PacketProblemType::Arguments)
        } else {
            None
        },
        _ => None,
    }
}

pub fn decode_problem_type(v: &JsonValue) -> (r: Option<PacketProblemType>)
    ensures
        opt_view(r) == dec_problem_type(v@),
{
    let s = match v {
        JsonValue::Str(s) => s,
        _ => { return None },
    };
    if str_is(s, "cmd") {
        Some(PacketProblemType::Cmd)
    } else if str_is(s, "arguments") {
        Some(PacketProblemType::Arguments)
    } else {
        None
    }
}

pub proof fn lemma_problem_type_roundtrip(p: PacketProblemType)
    ensures
        dec_problem_type(enc_problem_type(p)) == Some(p),
{
    assert("cmd"@ != "arguments"@) by {
        reveal_strlit("cmd");
        reveal_strlit("arguments");
        assert("cmd"@[0] == 'c');
        assert("arguments"@[0] == 'a');
    }
}

pub open spec fn color_tag(c: JSONColor) -> Seq<char> {
    match c {
        JSONColor::Bold => "bold"@,
        JSONColor::Underline => "underline"@,
        JSONColor::Black => "black"@,
        JSONColor::Red => "red"@,
        JSONColor::Green => "green"@,
        JSONColor::Yellow => "yellow"@,
        JSONColor::Blue => "blue"@,
        JSONColor::Magenta => "magenta"@,
        JSONColor::Cyan => "cyan"@,
        JSONColor::White => "white"@,
        JSONColor::BlackBg => "black_bg"@,
        JSONColor::RedBg => "red_bg"@,
        JSONColor::GreenBg => "green_bg"@,
        JSONColor::YellowBg => "yellow_bg"@,
        JSONColor::BlueBg => "blue_bg"@,
        JSONColor::MagentaBg => "magenta_bg"@,
        JSONColor::CyanBg => "cyan_bg"@,
        JSONColor::WhiteBg => "white_bg"@,
    }
}

pub open spec fn enc_color(c: JSONColor) -> SpecJson {
    SpecJson::Str(color_tag(c))
}

pub open spec fn dec_color(v: SpecJson) -> Option<JSONColor> {
    match v {
        SpecJson::Str(s) => dec_color_tag(s),
        _ => None,
    }
}

pub open spec fn dec_color_tag(s: Seq<char>) -> Option<JSONColor> {
    if s == "bold"@ {
        Some(JSONColor::Bold)
    } else if s == "underline"@ {
        Some(JSONColor::Underline)
    } else if s == "black"@ {
        Some(JSONColor::Black)
    } else if s == "red"@ {
        Some(JSONColor::Red)
    } else if s == "green"@ {
        Some(JSONColor::Green)
    } else if s == "yellow"@ {
        Some(JSONColor::Yellow)
    } else if s == "blue"@ {
        Some(JSONColor::Blue)
    } else if s == "magenta"@ {
        Some(JSONColor::Magenta)
    } else if s == "cyan"@ {
        Some(JSONColor::Cyan)
    } else if s == "white"@ {
        Some(JSONColor::White)
    } else if s == "black_bg"@ {
        Some(JSONColor::BlackBg)
    } else if s == "red_bg"@ {
        Some(JSONColor::RedBg)
    } else if s == "green_bg"@ {
        Some(JSONColor::GreenBg)
    } else if s == "yellow_bg"@ {
        Some(JSONColor::YellowBg)
    } else if s == "blue_bg"@ {
        Some(JSONColor::BlueBg)
    } else if s == "magenta_bg"@ {
        Some(JSONColor::MagentaBg)
    } else if s == "cyan_bg"@ {
        Some(JSONColor::CyanBg)
    } else if s == "white_bg"@ {
        Some(JSONColor::WhiteBg)
    } else {
        None
    }
}

pub fn decode_color(v: &JsonValue) -> (r: Option<JSONColor>)
    ensures
        opt_view(r) == dec_color(v@),
{
    let s = match v {
        JsonValue::Str(s) => s,
        _ => { return None },
    };
    if str_is(s, "bold") {
        Some(JSONColor::Bold)
    } else if str_is(s, "underline") {
        Some(JSONColor::Underline)
    } else if str_is(s, "black") {
        Some(JSONColor::Black)
    } else if str_is(s, "red") {
        Some(JSONColor::Red)
    } else if str_is(s, "green") {
        Some(JSONColor::Green)
    } else if str_is(s, "yellow") {
        Some(JSONColor::Yellow)
    } else if str_is(s, "blue") {
        Some(JSONColor::Blue)
    } else if str_is(s, "magenta") {
        Some(JSONColor::Magenta)
    } else if str_is(s, "cyan") {
        Some(JSONColor::Cyan)
    } else if str_is(s, "white") {
        Some(JSONColor::White)
    } else if str_is(s, "black_bg") {
        Some(JSONColor::BlackBg)
    } else if str_is(s, "red_bg") {
        Some(JSONColor::RedBg)
    } else if str_is(s, "green_bg") {
        Some(JSONColor::GreenBg)
    } else if str_is(s, "yellow_bg") {
        Some(JSONColor::YellowBg)
    } else if str_is(s, "blue_bg") {
        Some(JSONColor::BlueBg)
    } else if str_is(s, "magenta_bg") {
        Some(JSONColor::MagentaBg)
    } else if str_is(s, "cyan_bg") {
        Some(JSONColor::CyanBg)
    } else if str_is(s, "white_bg") {
        Some(JSONColor::WhiteBg)
    } else {
        None
    }
}

pub proof fn lemma_color_roundtrip(c: JSONColor)
    ensures
        dec_color(enc_color(c)) == Some(c),
{
    assert("bold"@ != "underline"@) by {
        reveal_strlit("bold");
        reveal_strlit("underline");
        assert("bold"@[0] == 'b');
        assert("underline"@[0] == 'u');
    }
    assert("bold"@ != "black"@) by {
        reveal_strlit("bold");
        reveal_strlit("black");
        assert("bold"@[1] == 'o');
        assert("black"@[1] == 'l');
    }
    assert("bold"@ != "red"@) by {
        reveal_strlit("bold");
        reveal_strlit("red");
        assert("bold"@[0] == 'b');
        assert("red"@[0] == 'r');
    }
    assert("bold"@ != "green"@) by {
        reveal_strlit("bold");
        reveal_strlit("green");
        assert("bold"@[0] == 'b');
        assert("green"@[0] == 'g');
    }
    assert("bold"@ != "yellow"@) by {
        reveal_strlit("bold");
        reveal_strlit("yellow");
        assert("bold"@[0] == 'b');
        assert("yellow"@[0] == 'y');
    }
    assert("bold"@ != "blue"@) by {
        reveal_strlit("bold");
        reveal_strlit("blue");
        assert("bold"@[1] == 'o');
        assert("blue"@[1] == 'l');
    }
    assert("bold"@ != "magenta"@) by {
        reveal_strlit("bold");
        reveal_strlit("magenta");
        assert("bold"@[0] == 'b');
        assert("magenta"@[0] == 'm');
    }
    assert("bold"@ != "cyan"@) by {
        reveal_strlit("bold");
        reveal_strlit("cyan");
        assert("bold"@[0] == 'b');
        assert("cyan"@[0] == 'c');
    }
    assert("bold"@ != "white"@) by {
        reveal_strlit("bold");
        reveal_strlit("white");
        assert("bold"@[0] == 'b');
        assert("white"@[0] == 'w');
    }
    assert("bold"@ != "black_bg"@) by {
        reveal_strlit("bold");
        reveal_strlit("black_bg");
        assert("bold"@[1] == 'o');
        assert("black_bg"@[1] == 'l');
    }
    assert("bold"@ != "red_bg"@) by {
        reveal_strlit("bold");
        reveal_strlit("red_bg");
        assert("bold"@[0] == 'b');
        assert("red_bg"@[0] == 'r');
    }
    assert("bold"@ != "green_bg"@) by {
        reveal_strlit("bold");
        reveal_strlit("green_bg");
        assert("bold"@[0] == 'b');
        assert("green_bg"@[0] == 'g');
    }
    assert("bold"@ != "yellow_bg"@) by {
        reveal_strlit("bold");
        reveal_strlit("yellow_bg");
        assert("bold"@[0] == 'b');
        assert("yellow_bg"@[0] == 'y');
    }
    assert("bold"@ != "blue_bg"@) by {
        reveal_strlit("bold");
        reveal_strlit("blue_bg");
        assert("bold"@[1] == 'o');
        assert("blue_bg"@[1] == 'l');
    }
    assert("bold"@ != "magenta_bg"@) by {
        reveal_strlit("bold");
        reveal_strlit("magenta_bg");
        assert("bold"@[0] == 'b');
        assert("magenta_bg"@[0] == 'm');
    }
    assert("bold"@ != "cyan_bg"@) by {
        reveal_strlit("bold");
        reveal_strlit("cyan_bg");
        assert("bold"@[0] == 'b');
        assert("cyan_bg"@[0] == 'c');
    }
    assert("bold"@ != "white_bg"@) by {
        reveal_strlit("bold");
        reveal_strlit("white_bg");
        assert("bold"@[0] == 'b');
        assert("white_bg"@[0] == 'w');
    }
    assert("underline"@ != "black"@) by {
        reveal_strlit("underline");
        reveal_strlit("black");
        assert("underline"@[0] == 'u');
        assert("black"@[0] == 'b');
    }
    assert("underline"@ != "red"@) by {
        reveal_strlit("underline");
        reveal_strlit("red");
        assert("underline"@[0] == 'u');
        assert("red"@[0] == 'r');
    }
    assert("underline"@ != "green"@) by {
        reveal_strlit("underline");
        reveal_strlit("green");
        assert("underline"@[0] == 'u');
        assert("green"@[0] == 'g');
    }
    assert("underline"@ != "yellow"@) by {
        reveal_strlit("underline");
        reveal_strlit("yellow");
        assert("underline"@[0] == 'u');
        assert("yellow"@[0] == 'y');
    }
    assert("underline"@ != "blue"@) by {
        reveal_strlit("underline");
        reveal_strlit("blue");
        assert("underline"@[0] == 'u');
        assert("blue"@[0] == 'b');
    }
    assert("underline"@ != "magenta"@) by {
        reveal_strlit("underline");
        reveal_strlit("magenta");
        assert("underline"@[0] == 'u');
        assert("magenta"@[0] == 'm');
    }
    assert("underline"@ != "cyan"@) by {
        reveal_strlit("underline");
        reveal_strlit("cyan");
        assert("underline"@[0] == 'u');
        assert("cyan"@[0] == 'c');
    }
    assert("underline"@ != "white"@) by {
        reveal_strlit("underline");
        reveal_strlit("white");
        assert("underline"@[0] == 'u');
        assert("white"@[0] == 'w');
    }
    assert("underline"@ != "black_bg"@) by {
        reveal_strlit("underline");
        reveal_strlit("black_bg");
        assert("underline"@[0] == 'u');
        assert("black_bg"@[0] == 'b');
    }
    assert("underline"@ != "red_bg"@) by {
        reveal_strlit("underline");
        reveal_strlit("red_bg");
        assert("underline"@[0] == 'u');
        assert("red_bg"@[0] == 'r');
    }
    assert("underline"@ != "green_bg"@) by {
        reveal_strlit("underline");
        reveal_strlit("green_bg");
        assert("underline"@[0] == 'u');
        assert("green_bg"@[0] == 'g');
    }
    assert("underline"@ != "yellow_bg"@) by {
        reveal_strlit("underline");
        reveal_strlit("yellow_bg");
        assert("underline"@[0] == 'u');
        assert("yellow_bg"@[0] == 'y');
    }
    assert("underline"@ != "blue_bg"@) by {
        reveal_strlit("underline");
        reveal_strlit("blue_bg");
        assert("underline"@[0] == 'u');
        assert("blue_bg"@[0] == 'b');
    }
    assert("underline"@ != "magenta_bg"@) by {
        reveal_strlit("underline");
        reveal_strlit("magenta_bg");
        assert("underline"@[0] == 'u');
        assert("magenta_bg"@[0] == 'm');
    }
    assert("underline"@ != "cyan_bg"@) by {
        reveal_strlit("underline");
        reveal_strlit("cyan_bg");
        assert("underline"@[0] == 'u');
        assert("cyan_bg"@[0] == 'c');
    }
    assert("underline"@ != "white_bg"@) by {
        reveal_strlit("underline");
        reveal_strlit("white_bg");
        assert("underline"@[0] == 'u');
        assert("white_bg"@[0] == 'w');
    }
    assert("black"@ != "red"@) by {
        reveal_strlit("black");
        reveal_strlit("red");
        assert("black"@[0] == 'b');
        assert("red"@[0] == 'r');
    }
    assert("black"@ != "green"@) by {
        reveal_strlit("black");
        reveal_strlit("green");
        assert("black"@[0] == 'b');
        assert("green"@[0] == 'g');
    }
    assert("black"@ != "yellow"@) by {
        reveal_strlit("black");
        reveal_strlit("yellow");
        assert("black"@[0] == 'b');
        assert("yellow"@[0] == 'y');
    }
    assert("black"@ != "blue"@) by {
        reveal_strlit("black");
        reveal_strlit("blue");
        assert("black"@[2] == 'a');
        assert("blue"@[2] == 'u');
    }
    assert("black"@ != "magenta"@) by {
        reveal_strlit("black");
        reveal_strlit("magenta");
        assert("black"@[0] == 'b');
        assert("magenta"@[0] == 'm');
    }
    assert("black"@ != "cyan"@) by {
        reveal_strlit("black");
        reveal_strlit("cyan");
        assert("black"@[0] == 'b');
        assert("cyan"@[0] == 'c');
    }
    assert("black"@ != "white"@) by {
        reveal_strlit("black");
        reveal_strlit("white");
        assert("black"@[0] == 'b');
        assert("white"@[0] == 'w');
    }
    assert("black"@ != "black_bg"@) by {
        reveal_strlit("black");
        reveal_strlit("black_bg");
        assert("black"@.len() == 5);
        assert("black_bg"@.len() == 8);
    }
    assert("black"@ != "red_bg"@) by {
        reveal_strlit("black");
        reveal_strlit("red_bg");
        assert("black"@[0] == 'b');
        assert("red_bg"@[0] == 'r');
    }
    assert("black"@ != "green_bg"@) by {
        reveal_strlit("black");
        reveal_strlit("green_bg");
        assert("black"@[0] == 'b');
        assert("green_bg"@[0] == 'g');
    }
    assert("black"@ != "yellow_bg"@) by {
        reveal_strlit("black");
        reveal_strlit("yellow_bg");
        assert("black"@[0] == 'b');
        assert("yellow_bg"@[0] == 'y');
    }
    assert("black"@ != "blue_bg"@) by {
        reveal_strlit("black");
        reveal_strlit("blue_bg");
        assert("black"@[2] == 'a');
        assert("blue_bg"@[2] == 'u');
    }
    assert("black"@ != "magenta_bg"@) by {
        reveal_strlit("black");
        reveal_strlit("magenta_bg");
        assert("black"@[0] == 'b');
        assert("magenta_bg"@[0] == 'm');
    }
    assert("black"@ != "cyan_bg"@) by {
        reveal_strlit("black");
        reveal_strlit("cyan_bg");
        assert("black"@[0] == 'b');
        assert("cyan_bg"@[0] == 'c');
    }
    assert("black"@ != "white_bg"@) by {
        reveal_strlit("black");
        reveal_strlit("white_bg");
        assert("black"@[0] == 'b');
        assert("white_bg"@[0] == 'w');
    }
    assert("red"@ != "green"@) by {
        reveal_strlit("red");
        reveal_strlit("green");
        assert("red"@[0] == 'r');
        assert("green"@[0] == 'g');
    }
    assert("red"@ != "yellow"@) by {
        reveal_strlit("red");
        reveal_strlit("yellow");
        assert("red"@[0] == 'r');
        assert("yellow"@[0] == 'y');
    }
    assert("red"@ != "blue"@) by {
        reveal_strlit("red");
        reveal_strlit("blue");
        assert("red"@[0] == 'r');
        assert("blue"@[0] == 'b');
    }
    assert("red"@ != "magenta"@) by {
        reveal_strlit("red");
        reveal_strlit("magenta");
        assert("red"@[0] == 'r');
        assert("magenta"@[0] == 'm');
    }
    assert("red"@ != "cyan"@) by {
        reveal_strlit("red");
        reveal_strlit("cyan");
        assert("red"@[0] == 'r');
        assert("cyan"@[0] == 'c');
    }
    assert("red"@ != "white"@) by {
        reveal_strlit("red");
        reveal_strlit("white");
        assert("red"@[0] == 'r');
        assert("white"@[0] == 'w');
    }
    assert("red"@ != "black_bg"@) by {
        reveal_strlit("red");
        reveal_strlit("black_bg");
        assert("red"@[0] == 'r');
        assert("black_bg"@[0] == 'b');
    }
    assert("red"@ != "red_bg"@) by {
        reveal_strlit("red");
        reveal_strlit("red_bg");
        assert("red"@.len() == 3);
        assert("red_bg"@.len() == 6);
    }
    assert("red"@ != "green_bg"@) by {
        reveal_strlit("red");
        reveal_strlit("green_bg");
        assert("red"@[0] == 'r');
        assert("green_bg"@[0] == 'g');
    }
    assert("red"@ != "yellow_bg"@) by {
        reveal_strlit("red");
        reveal_strlit("yellow_bg");
        assert("red"@[0] == 'r');
        assert("yellow_bg"@[0] == 'y');
    }
    assert("red"@ != "blue_bg"@) by {
        reveal_strlit("red");
        reveal_strlit("blue_bg");
        assert("red"@[0] == 'r');
        assert("blue_bg"@[0] == 'b');
    }
    assert("red"@ != "magenta_bg"@) by {
        reveal_strlit("red");
        reveal_strlit("magenta_bg");
        assert("red"@[0] == 'r');
        assert("magenta_bg"@[0] == 'm');
    }
    assert("red"@ != "cyan_bg"@) by {
        reveal_strlit("red");
        reveal_strlit("cyan_bg");
        assert("red"@[0] == 'r');
        assert("cyan_bg"@[0] == 'c');
    }
    assert("red"@ != "white_bg"@) by {
        reveal_strlit("red");
        reveal_strlit("white_bg");
        assert("red"@[0] == 'r');
        assert("white_bg"@[0] == 'w');
    }
    assert("green"@ != "yellow"@) by {
        reveal_strlit("green");
        reveal_strlit("yellow");
        assert("green"@[0] == 'g');
        assert("yellow"@[0] == 'y');
    }
    assert("green"@ != "blue"@) by {
        reveal_strlit("green");
        reveal_strlit("blue");
        assert("green"@[0] == 'g');
        assert("blue"@[0] == 'b');
    }
    assert("green"@ != "magenta"@) by {
        reveal_strlit("green");
        reveal_strlit("magenta");
        assert("green"@[0] == 'g');
        assert("magenta"@[0] == 'm');
    }
    assert("green"@ != "cyan"@) by {
        reveal_strlit("green");
        reveal_strlit("cyan");
        assert("green"@[0] == 'g');
        assert("cyan"@[0] == 'c');
    }
    assert("green"@ != "white"@) by {
        reveal_strlit("green");
        reveal_strlit("white");
        assert("green"@[0] == 'g');
        assert("white"@[0] == 'w');
    }
    assert("green"@ != "black_bg"@) by {
        reveal_strlit("green");
        reveal_strlit("black_bg");
        assert("green"@[0] == 'g');
        assert("black_bg"@[0] == 'b');
    }
    assert("green"@ != "red_bg"@) by {
        reveal_strlit("green");
        reveal_strlit("red_bg");
        assert("green"@[0] == 'g');
        assert("red_bg"@[0] == 'r');
    }
    assert("green"@ != "green_bg"@) by {
        reveal_strlit("green");
        reveal_strlit("green_bg");
        assert("green"@.len() == 5);
        assert("green_bg"@.len() == 8);
    }
    assert("green"@ != "yellow_bg"@) by {
        reveal_strlit("green");
        reveal_strlit("yellow_bg");
        assert("green"@[0] == 'g');
        assert("yellow_bg"@[0] == 'y');
    }
    assert("green"@ != "blue_bg"@) by {
        reveal_strlit("green");
        reveal_strlit("blue_bg");
        assert("green"@[0] == 'g');
        assert("blue_bg"@[0] == 'b');
    }
    assert("green"@ != "magenta_bg"@) by {
        reveal_strlit("green");
        reveal_strlit("magenta_bg");
        assert("green"@[0] == 'g');
        assert("magenta_bg"@[0] == 'm');
    }
    assert("green"@ != "cyan_bg"@) by {
        reveal_strlit("green");
        reveal_strlit("cyan_bg");
        assert("green"@[0] == 'g');
        assert("cyan_bg"@[0] == 'c');
    }
    assert("green"@ != "white_bg"@) by {
        reveal_strlit("green");
        reveal_strlit("white_bg");
        assert("green"@[0] == 'g');
        assert("white_bg"@[0] == 'w');
    }
    assert("yellow"@ != "blue"@) by {
        reveal_strlit("yellow");
        reveal_strlit("blue");
        assert("yellow"@[0] == 'y');
        assert("blue"@[0] == 'b');
    }
    assert("yellow"@ != "magenta"@) by {
        reveal_strlit("yellow");
        reveal_strlit("magenta");
        assert("yellow"@[0] == 'y');
        assert("magenta"@[0] == 'm');
    }
    assert("yellow"@ != "cyan"@) by {
        reveal_strlit("yellow");
        reveal_strlit("cyan");
        assert("yellow"@[0] == 'y');
        assert("cyan"@[0] == 'c');
    }
    assert("yellow"@ != "white"@) by {
        reveal_strlit("yellow");
        reveal_strlit("white");
        assert("yellow"@[0] == 'y');
        assert("white"@[0] == 'w');
    }
    assert("yellow"@ != "black_bg"@) by {
        reveal_strlit("yellow");
        reveal_strlit("black_bg");
        assert("yellow"@[0] == 'y');
        assert("black_bg"@[0] == 'b');
    }
    assert("yellow"@ != "red_bg"@) by {
        reveal_strlit("yellow");
        reveal_strlit("red_bg");
        assert("yellow"@[0] == 'y');
        assert("red_bg"@[0] == 'r');
    }
    assert("yellow"@ != "green_bg"@) by {
        reveal_strlit("yellow");
        reveal_strlit("green_bg");
        assert("yellow"@[0] == 'y');
        assert("green_bg"@[0] == 'g');
    }
    assert("yellow"@ != "yellow_bg"@) by {
        reveal_strlit("yellow");
        reveal_strlit("yellow_bg");
        assert("yellow"@.len() == 6);
        assert("yellow_bg"@.len() == 9);
    }
    assert("yellow"@ != "blue_bg"@) by {
        reveal_strlit("yellow");
        reveal_strlit("blue_bg");
        assert("yellow"@[0] == 'y');
        assert("blue_bg"@[0] == 'b');
    }
    assert("yellow"@ != "magenta_bg"@) by {
        reveal_strlit("yellow");
        reveal_strlit("magenta_bg");
        assert("yellow"@[0] == 'y');
        assert("magenta_bg"@[0] == 'm');
    }
    assert("yellow"@ != "cyan_bg"@) by {
        reveal_strlit("yellow");
        reveal_strlit("cyan_bg");
        assert("yellow"@[0] == 'y');
        assert("cyan_bg"@[0] == 'c');
    }
    assert("yellow"@ != "white_bg"@) by {
        reveal_strlit("yellow");
        reveal_strlit("white_bg");
        assert("yellow"@[0] == 'y');
        assert("white_bg"@[0] == 'w');
    }
    assert("blue"@ != "magenta"@) by {
        reveal_strlit("blue");
        reveal_strlit("magenta");
        assert("blue"@[0] == 'b');
        assert("magenta"@[0] == 'm');
    }
    assert("blue"@ != "cyan"@) by {
        reveal_strlit("blue");
        reveal_strlit("cyan");
        assert("blue"@[0] == 'b');
        assert("cyan"@[0] == 'c');
    }
    assert("blue"@ != "white"@) by {
        reveal_strlit("blue");
        reveal_strlit("white");
        assert("blue"@[0] == 'b');
        assert("white"@[0] == 'w');
    }
    assert("blue"@ != "black_bg"@) by {
        reveal_strlit("blue");
        reveal_strlit("black_bg");
        assert("blue"@[2] == 'u');
        assert("black_bg"@[2] == 'a');
    }
    assert("blue"@ != "red_bg"@) by {
        reveal_strlit("blue");
        reveal_strlit("red_bg");
        assert("blue"@[0] == 'b');
        assert("red_bg"@[0] == 'r');
    }
    assert("blue"@ != "green_bg"@) by {
        reveal_strlit("blue");
        reveal_strlit("green_bg");
        assert("blue"@[0] == 'b');
        assert("green_bg"@[0] == 'g');
    }
    assert("blue"@ != "yellow_bg"@) by {
        reveal_strlit("blue");
        reveal_strlit("yellow_bg");
        assert("blue"@[0] == 'b');
        assert("yellow_bg"@[0] == 'y');
    }
    assert("blue"@ != "blue_bg"@) by {
        reveal_strlit("blue");
        reveal_strlit("blue_bg");
        assert("blue"@.len() == 4);
        assert("blue_bg"@.len() == 7);
    }
    assert("blue"@ != "magenta_bg"@) by {
        reveal_strlit("blue");
        reveal_strlit("magenta_bg");
        assert("blue"@[0] == 'b');
        assert("magenta_bg"@[0] == 'm');
    }
    assert("blue"@ != "cyan_bg"@) by {
        reveal_strlit("blue");
        reveal_strlit("cyan_bg");
        assert("blue"@[0] == 'b');
        assert("cyan_bg"@[0] == 'c');
    }
    assert("blue"@ != "white_bg"@) by {
        reveal_strlit("blue");
        reveal_strlit("white_bg");
        assert("blue"@[0] == 'b');
        assert("white_bg"@[0] == 'w');
    }
    assert("magenta"@ != "cyan"@) by {
        reveal_strlit("magenta");
        reveal_strlit("cyan");
        assert("magenta"@[0] == 'm');
        assert("cyan"@[0] == 'c');
    }
    assert("magenta"@ != "white"@) by {
        reveal_strlit("magenta");
        reveal_strlit("white");
        assert("magenta"@[0] == 'm');
        assert("white"@[0] == 'w');
    }
    assert("magenta"@ != "black_bg"@) by {
        reveal_strlit("magenta");
        reveal_strlit("black_bg");
        assert("magenta"@[0] == 'm');
        assert("black_bg"@[0] == 'b');
    }
    assert("magenta"@ != "red_bg"@) by {
        reveal_strlit("magenta");
        reveal_strlit("red_bg");
        assert("magenta"@[0] == 'm');
        assert("red_bg"@[0] == 'r');
    }
    assert("magenta"@ != "green_bg"@) by {
        reveal_strlit("magenta");
        reveal_strlit("green_bg");
        assert("magenta"@[0] == 'm');
        assert("green_bg"@[0] == 'g');
    }
    assert("magenta"@ != "yellow_bg"@) by {
        reveal_strlit("magenta");
        reveal_strlit("yellow_bg");
        assert("magenta"@[0] == 'm');
        assert("yellow_bg"@[0] == 'y');
    }
    assert("magenta"@ != "blue_bg"@) by {
        reveal_strlit("magenta");
        reveal_strlit("blue_bg");
        assert("magenta"@[0] == 'm');
        assert("blue_bg"@[0] == 'b');
    }
    assert("magenta"@ != "magenta_bg"@) by {
        reveal_strlit("magenta");
        reveal_strlit("magenta_bg");
        assert("magenta"@.len() == 7);
        assert("magenta_bg"@.len() == 10);
    }
    assert("magenta"@ != "cyan_bg"@) by {
        reveal_strlit("magenta");
        reveal_strlit("cyan_bg");
        assert("magenta"@[0] == 'm');
        assert("cyan_bg"@[0] == 'c');
    }
    assert("magenta"@ != "white_bg"@) by {
        reveal_strlit("magenta");
        reveal_strlit("white_bg");
        assert("magenta"@[0] == 'm');
        assert("white_bg"@[0] == 'w');
    }
    assert("cyan"@ != "white"@) by {
        reveal_strlit("cyan");
        reveal_strlit("white");
        assert("cyan"@[0] == 'c');
        assert("white"@[0] == 'w');
    }
    assert("cyan"@ != "black_bg"@) by {
        reveal_strlit("cyan");
        reveal_strlit("black_bg");
        assert("cyan"@[0] == 'c');
        assert("black_bg"@[0] == 'b');
    }
    assert("cyan"@ != "red_bg"@) by {
        reveal_strlit("cyan");
        reveal_strlit("red_bg");
        assert("cyan"@[0] == 'c');
        assert("red_bg"@[0] == 'r');
    }
    assert("cyan"@ != "green_bg"@) by {
        reveal_strlit("cyan");
        reveal_strlit("green_bg");
        assert("cyan"@[0] == 'c');
        assert("green_bg"@[0] == 'g');
    }
    assert("cyan"@ != "yellow_bg"@) by {
        reveal_strlit("cyan");
        reveal_strlit("yellow_bg");
        assert("cyan"@[0] == 'c');
        assert("yellow_bg"@[0] == 'y');
    }
    assert("cyan"@ != "blue_bg"@) by {
        reveal_strlit("cyan");
        reveal_strlit("blue_bg");
        assert("cyan"@[0] == 'c');
        assert("blue_bg"@[0] == 'b');
    }
    assert("cyan"@ != "magenta_bg"@) by {
        reveal_strlit("cyan");
        reveal_strlit("magenta_bg");
        assert("cyan"@[0] == 'c');
        assert("magenta_bg"@[0] == 'm');
    }
    assert("cyan"@ != "cyan_bg"@) by {
        reveal_strlit("cyan");
        reveal_strlit("cyan_bg");
        assert("cyan"@.len() == 4);
        assert("cyan_bg"@.len() == 7);
    }
    assert("cyan"@ != "white_bg"@) by {
        reveal_strlit("cyan");
        reveal_strlit("white_bg");
        assert("cyan"@[0] == 'c');
        assert("white_bg"@[0] == 'w');
    }
    assert("white"@ != "black_bg"@) by {
        reveal_strlit("white");
        reveal_strlit("black_bg");
        assert("white"@[0] == 'w');
        assert("black_bg"@[0] == 'b');
    }
    assert("white"@ != "red_bg"@) by {
        reveal_strlit("white");
        reveal_strlit("red_bg");
        assert("white"@[0] == 'w');
        assert("red_bg"@[0] == 'r');
    }
    assert("white"@ != "green_bg"@) by {
        reveal_strlit("white");
        reveal_strlit("green_bg");
        assert("white"@[0] == 'w');
        assert("green_bg"@[0] == 'g');
    }
    assert("white"@ != "yellow_bg"@) by {
        reveal_strlit("white");
        reveal_strlit("yellow_bg");
        assert("white"@[0] == 'w');
        assert("yellow_bg"@[0] == 'y');
    }
    assert("white"@ != "blue_bg"@) by {
        reveal_strlit("white");
        reveal_strlit("blue_bg");
        assert("white"@[0] == 'w');
        assert("blue_bg"@[0] == 'b');
    }
    assert("white"@ != "magenta_bg"@) by {
        reveal_strlit("white");
        reveal_strlit("magenta_bg");
        assert("white"@[0] == 'w');
        assert("magenta_bg"@[0] == 'm');
    }
    assert("white"@ != "cyan_bg"@) by {
        reveal_strlit("white");
        reveal_strlit("cyan_bg");
        assert("white"@[0] == 'w');
        assert("cyan_bg"@[0] == 'c');
    }
    assert("white"@ != "white_bg"@) by {
        reveal_strlit("white");
        reveal_strlit("white_bg");
        assert("white"@.len() == 5);
        assert("white_bg"@.len() == 8);
    }
    assert("black_bg"@ != "red_bg"@) by {
        reveal_strlit("black_bg");
        reveal_strlit("red_bg");
        assert("black_bg"@[0] == 'b');
        assert("red_bg"@[0] == 'r');
    }
    assert("black_bg"@ != "green_bg"@) by {
        reveal_strlit("black_bg");
        reveal_strlit("green_bg");
        assert("black_bg"@[0] == 'b');
        assert("green_bg"@[0] == 'g');
    }
    assert("black_bg"@ != "yellow_bg"@) by {
        reveal_strlit("black_bg");
        reveal_strlit("yellow_bg");
        assert("black_bg"@[0] == 'b');
        assert("yellow_bg"@[0] == 'y');
    }
    assert("black_bg"@ != "blue_bg"@) by {
        reveal_strlit("black_bg");
        reveal_strlit("blue_bg");
        assert("black_bg"@[2] == 'a');
        assert("blue_bg"@[2] == 'u');
    }
    assert("black_bg"@ != "magenta_bg"@) by {
        reveal_strlit("black_bg");
        reveal_strlit("magenta_bg");
        assert("black_bg"@[0] == 'b');
        assert("magenta_bg"@[0] == 'm');
    }
    assert("black_bg"@ != "cyan_bg"@) by {
        reveal_strlit("black_bg");
        reveal_strlit("cyan_bg");
        assert("black_bg"@[0] == 'b');
        assert("cyan_bg"@[0] == 'c');
    }
    assert("black_bg"@ != "white_bg"@) by {
        reveal_strlit("black_bg");
        reveal_strlit("white_bg");
        assert("black_bg"@[0] == 'b');
        assert("white_bg"@[0] == 'w');
    }
    assert("red_bg"@ != "green_bg"@) by {
        reveal_strlit("red_bg");
        reveal_strlit("green_bg");
        assert("red_bg"@[0] == 'r');
        assert("green_bg"@[0] == 'g');
    }
    assert("red_bg"@ != "yellow_bg"@) by {
        reveal_strlit("red_bg");
        reveal_strlit("yellow_bg");
        assert("red_bg"@[0] == 'r');
        assert("yellow_bg"@[0] == 'y');
    }
    assert("red_bg"@ != "blue_bg"@) by {
        reveal_strlit("red_bg");
        reveal_strlit("blue_bg");
        assert("red_bg"@[0] == 'r');
        assert("blue_bg"@[0] == 'b');
    }
    assert("red_bg"@ != "magenta_bg"@) by {
        reveal_strlit("red_bg");
        reveal_strlit("magenta_bg");
        assert("red_bg"@[0] == 'r');
        assert("magenta_bg"@[0] == 'm');
    }
    assert("red_bg"@ != "cyan_bg"@) by {
        reveal_strlit("red_bg");
        reveal_strlit("cyan_bg");
        assert("red_bg"@[0] == 'r');
        assert("cyan_bg"@[0] == 'c');
    }
    assert("red_bg"@ != "white_bg"@) by {
        reveal_strlit("red_bg");
        reveal_strlit("white_bg");
        assert("red_bg"@[0] == 'r');
        assert("white_bg"@[0] == 'w');
    }
    assert("green_bg"@ != "yellow_bg"@) by {
        reveal_strlit("green_bg");
        reveal_strlit("yellow_bg");
        assert("green_bg"@[0] == 'g');
        assert("yellow_bg"@[0] == 'y');
    }
    assert("green_bg"@ != "blue_bg"@) by {
        reveal_strlit("green_bg");
        reveal_strlit("blue_bg");
        assert("green_bg"@[0] == 'g');
        assert("blue_bg"@[0] == 'b');
    }
    assert("green_bg"@ != "magenta_bg"@) by {
        reveal_strlit("green_bg");
        reveal_strlit("magenta_bg");
        assert("green_bg"@[0] == 'g');
        assert("magenta_bg"@[0] == 'm');
    }
    assert("green_bg"@ != "cyan_bg"@) by {
        reveal_strlit("green_bg");
        reveal_strlit("cyan_bg");
        assert("green_bg"@[0] == 'g');
        assert("cyan_bg"@[0] == 'c');
    }
    assert("green_bg"@ != "white_bg"@) by {
        reveal_strlit("green_bg");
        reveal_strlit("white_bg");
        assert("green_bg"@[0] == 'g');
        assert("white_bg"@[0] == 'w');
    }
    assert("yellow_bg"@ != "blue_bg"@) by {
        reveal_strlit("yellow_bg");
        reveal_strlit("blue_bg");
        assert("yellow_bg"@[0] == 'y');
        assert("blue_bg"@[0] == 'b');
    }
    assert("yellow_bg"@ != "magenta_bg"@) by {
        reveal_strlit("yellow_bg");
        reveal_strlit("magenta_bg");
        assert("yellow_bg"@[0] == 'y');
        assert("magenta_bg"@[0] == 'm');
    }
    assert("yellow_bg"@ != "cyan_bg"@) by {
        reveal_strlit("yellow_bg");
        reveal_strlit("cyan_bg");
        assert("yellow_bg"@[0] == 'y');
        assert("cyan_bg"@[0] == 'c');
    }
    assert("yellow_bg"@ != "white_bg"@) by {
        reveal_strlit("yellow_bg");
        reveal_strlit("white_bg");
        assert("yellow_bg"@[0] == 'y');
        assert("white_bg"@[0] == 'w');
    }
    assert("blue_bg"@ != "magenta_bg"@) by {
        reveal_strlit("blue_bg");
        reveal_strlit("magenta_bg");
        assert("blue_bg"@[0] == 'b');
        assert("magenta_bg"@[0] == 'm');
    }
    assert("blue_bg"@ != "cyan_bg"@) by {
        reveal_strlit("blue_bg");
        reveal_strlit("cyan_bg");
        assert("blue_bg"@[0] == 'b');
        assert("cyan_bg"@[0] == 'c');
    }
    assert("blue_bg"@ != "white_bg"@) by {
        reveal_strlit("blue_bg");
        reveal_strlit("white_bg");
        assert("blue_bg"@[0] == 'b');
        assert("white_bg"@[0] == 'w');
    }
    assert("magenta_bg"@ != "cyan_bg"@) by {
        reveal_strlit("magenta_bg");
        reveal_strlit("cyan_bg");
        assert("magenta_bg"@[0] == 'm');
        assert("cyan_bg"@[0] == 'c');
    }
    assert("magenta_bg"@ != "white_bg"@) by {
        reveal_strlit("magenta_bg");
        reveal_strlit("white_bg");
        assert("magenta_bg"@[0] == 'm');
        assert("white_bg"@[0] == 'w');
    }
    assert("cyan_bg"@ != "white_bg"@) by {
        reveal_strlit("cyan_bg");
        reveal_strlit("white_bg");
        assert("cyan_bg"@[0] == 'c');
        assert("white_bg"@[0] == 'w');
    }
}

// ---------------------------------------------------------------------------
// Composite value types
// ---------------------------------------------------------------------------
pub open spec fn enc_item(it: NetworkItem) -> SpecJson {
    SpecJson::Obj(
        seq![
            ("item"@, SpecJson::Int(it.item as int)),
            ("location"@, SpecJson::Int(it.location as int)),
            ("player"@, SpecJson::Int(it.player as int)),
            ("flags"@, enc_item_flags(it.flags)),
        ],
    )
}

pub open spec fn dec_item(v: SpecJson) -> Option<NetworkItem> {
    match v {
        SpecJson::Obj(fs) => match (
            dec_field_i64(fs, "item"@),
            dec_field_i64(fs, "location"@),
            dec_field_i64(fs, "player"@),
            dec_field_u8(fs, "flags"@),
        ) {
            (Some(item), Some(location), Some(player), Some(bits)) => Some(
                NetworkItem { item, location, player, flags: NetworkItemFlags(bits) },
            ),
            _ => None,
        },
        _ => None,
    }
}

pub fn decode_item(v: &JsonValue) -> (r: Option<NetworkItem>)
    ensures
        opt_view(r) == dec_item(v@),
{
    let fields = match v {
        JsonValue::Obj(fields) => fields,
        _ => { return None },
    };
    let item = match obj_get(fields, "item") {
        Some(JsonValue::Int(i)) => *i,
        _ => { return None },
    };
    let location = match obj_get(fields, "location") {
        Some(JsonValue::Int(i)) => *i,
        _ => { return None },
    };
    let player = match obj_get(fields, "player") {
        Some(JsonValue::Int(i)) => *i,
        _ => { return None },
    };
    let bits = match obj_get(fields, "flags") {
        Some(JsonValue::Int(i)) => {
            let i = *i;
            if 0 <= i && i <= 255 {
                i as u8
            } else {
                return None;
            }
        }
        _ => { return None },
    };
    Some(NetworkItem { item, location, player, flags: NetworkItemFlags(bits) })
}

pub proof fn lemma_item_roundtrip(it: NetworkItem)
    ensures
        dec_item(enc_item(it)) == Some(it),
{
    assert("item"@ != "location"@) by {
        reveal_strlit("item");
        reveal_strlit("location");
        assert("item"@[0] == 'i');
        assert("location"@[0] == 'l');
    }
    assert("item"@ != "player"@) by {
        reveal_strlit("item");
        reveal_strlit("player");
        assert("item"@[0] == 'i');
        assert("player"@[0] == 'p');
    }
    assert("item"@ != "flags"@) by {
        reveal_strlit("item");
        reveal_strlit("flags");
        assert("item"@[0] == 'i');
        assert("flags"@[0] == 'f');
    }
    assert("location"@ != "player"@) by {
        reveal_strlit("location");
        reveal_strlit("player");
        assert("location"@[0] == 'l');
        assert("player"@[0] == 'p');
    }
    assert("location"@ != "flags"@) by {
        reveal_strlit("location");
        reveal_strlit("flags");
        assert("location"@[0] == 'l');
        assert("flags"@[0] == 'f');
    }
    assert("player"@ != "flags"@) by {
        reveal_strlit("player");
        reveal_strlit("flags");
        assert("player"@[0] == 'p');
        assert("flags"@[0] == 'f');
    }
    let fs = enc_item(it)->Obj_0;
    lemma_obj_get_at(fs, "item"@, 0);
    lemma_obj_get_at(fs, "location"@, 1);
    lemma_obj_get_at(fs, "player"@, 2);
    lemma_obj_get_at(fs, "flags"@, 3);
}

pub open spec fn enc_player(p: SpecNetworkPlayer) -> SpecJson {
    SpecJson::Obj(
        seq![
            ("team"@, SpecJson::Int(p.team as int)),
            ("slot"@, SpecJson::Int(p.slot as int)),
            ("alias"@, SpecJson::Str(p.alias)),
            ("name"@, SpecJson::Str(p.name)),
        ],
    )
}

pub open spec fn dec_player(v: SpecJson) -> Option<SpecNetworkPlayer> {
    match v {
        SpecJson::Obj(fs) => match (
            dec_field_i64(fs, "team"@),
            dec_field_i64(fs, "slot"@),
            dec_field_str(fs, "alias"@),
            dec_field_str(fs, "name"@),
        ) {
            (Some(team), Some(slot), Some(alias), Some(name)) => Some(
                SpecNetworkPlayer { team, slot, alias, name },
            ),
            _ => None,
        },
        _ => None,
    }
}

pub fn decode_player(v: &JsonValue) -> (r: Option<NetworkPlayer>)
    ensures
        opt_view(r) == dec_player(v@),
{
    let fields = match v {
        JsonValue::Obj(fields) => fields,
        _ => { return None },
    };
    let team = match obj_get(fields, "team") {
        Some(JsonValue::Int(i)) => *i,
        _ => { return None },
    };
    let slot = match obj_get(fields, "slot") {
        Some(JsonValue::Int(i)) => *i,
        _ => { return None },
    };
    let alias = match obj_get(fields, "alias") {
        Some(JsonValue::Str(s)) => s.clone(),
        _ => { return None },
    };
    let name = match obj_get(fields, "name") {
        Some(JsonValue::Str(s)) => s.clone(),
        _ => { return None },
    };
    Some(NetworkPlayer { team, slot, alias, name })
}

pub proof fn lemma_player_roundtrip(p: SpecNetworkPlayer)
    ensures
        dec_player(enc_player(p)) == Some(p),
{
    assert("team"@ != "slot"@) by {
        reveal_strlit("team");
        reveal_strlit("slot");
        assert("team"@[0] == 't');
        assert("slot"@[0] == 's');
    }
    assert("team"@ != "alias"@) by {
        reveal_strlit("team");
        reveal_strlit("alias");
        assert("team"@[0] == 't');
        assert("alias"@[0] == 'a');
    }
    assert("team"@ != "name"@) by {
        reveal_strlit("team");
        reveal_strlit("name");
        assert("team"@[0] == 't');
        assert("name"@[0] == 'n');
    }
    assert("slot"@ != "alias"@) by {
        reveal_strlit("slot");
        reveal_strlit("alias");
        assert("slot"@[0] == 's');
        assert("alias"@[0] == 'a');
    }
    assert("slot"@ != "name"@) by {
        reveal_strlit("slot");
        reveal_strlit("name");
        assert("slot"@[0] == 's');
        assert("name"@[0] == 'n');
    }
    assert("alias"@ != "name"@) by {
        reveal_strlit("alias");
        reveal_strlit("name");
        assert("alias"@[0] == 'a');
        assert("name"@[0] == 'n');
    }
    let fs = enc_player(p)->Obj_0;
    lemma_obj_get_at(fs, "team"@, 0);
    lemma_obj_get_at(fs, "slot"@, 1);
    lemma_obj_get_at(fs, "alias"@, 2);
    lemma_obj_get_at(fs, "name"@, 3);
}

pub open spec fn enc_i64_seq(s: Seq<i64>) -> Seq<SpecJson> {
    s.map_values(|x: i64| SpecJson::Int(x as int))
}

pub open spec fn enc_slot(s: SpecNetworkSlot) -> SpecJson {
    SpecJson::Obj(
        seq![
            ("name"@, SpecJson::Str(s.name)),
            ("game"@, SpecJson::Str(s.game)),
            ("type"@, enc_slot_type(s.slot_type)),
            ("group_members"@, SpecJson::Arr(enc_i64_seq(s.group_members))),
        ],
    )
}

pub open spec fn dec_i64_seq(items: Seq<SpecJson>) -> Option<Seq<i64>> {
    crate::codec::dec_all(items, |v: SpecJson| dec_i64(v))
}

pub open spec fn dec_slot(v: SpecJson) -> Option<SpecNetworkSlot> {
    match v {
        SpecJson::Obj(fs) => match (
            dec_field_str(fs, "name"@),
            dec_field_str(fs, "game"@),
            dec_field(fs, "type"@),
            dec_field(fs, "group_members"@),
        ) {
            (Some(name), Some(game), Some(t), Some(SpecJson::Arr(gm))) => match (
                dec_slot_type(t),
                dec_i64_seq(gm),
            ) {
                (Some(slot_type), Some(group_members)) => Some(
                    SpecNetworkSlot { name, game, slot_type, group_members },
                ),
                _ => None,
            },
            _ => None,
        },
        _ => None,
    }
}

/// Reads a JSON array of integers.
pub fn decode_i64_vec(items: &Vec<JsonValue>) -> (r: Option<Vec<i64>>)
    ensures
        match r {
            Some(out) => dec_i64_seq(model_of_seq(items@)) == Some(out@),
            None => dec_i64_seq(model_of_seq(items@)) is None,
        },
{
    let ghost m = model_of_seq(items@);
    let ghost d = |v: SpecJson| dec_i64(v);
    proof {
        lemma_model_of_seq(items@);
        crate::codec::lemma_dec_all(m, d);
    }
    let mut out: Vec<i64> = Vec::new();
    let mut i: usize = 0;
    while i < items.len()
        invariant
            i <= items.len(),
            out@.len() == i as nat,
            m == model_of_seq(items@),
            d == (|v: SpecJson| dec_i64(v)),
            m.len() == items@.len(),
            forall|j: int| 0 <= j < items@.len() ==> m[j] == items@[j]@,
            forall|j: int| 0 <= j < i ==> #[trigger] d(m[j]) == Some(out@[j]),
        decreases items.len() - i,
    {
        match &items[i] {
            JsonValue::Int(x) => {
                out.push(*x);
            }
            _ => {
                proof {
                    assert(d(m[i as int]) is None);
                    crate::codec::lemma_dec_all(m, d);
                }
                return None;
            }
        }
        i = i + 1;
    }
    proof {
        crate::codec::lemma_dec_all(m, d);
        assert(forall|j: int| 0 <= j < m.len() ==> (#[trigger] d(m[j])) is Some);
        let dm = dec_i64_seq(m)->Some_0;
        assert(dm =~= out@);
    }
    Some(out)
}

pub fn decode_slot(v: &JsonValue) -> (r: Option<NetworkSlot>)
    ensures
        opt_view(r) == dec_slot(v@),
{
    let fields = match v {
        JsonValue::Obj(fields) => fields,
        _ => { return None },
    };
    let name = match obj_get(fields, "name") {
        Some(JsonValue::Str(s)) => s.clone(),
        _ => { return None },
    };
    let game = match obj_get(fields, "game") {
        Some(JsonValue::Str(s)) => s.clone(),
        _ => { return None },
    };
    let slot_type = match obj_get(fields, "type") {
        Some(t) => match decode_slot_type(t) {
            Some(st) => st,
            None => { return None },
        },
        None => { return None },
    };
    let group_members = match obj_get(fields, "group_members") {
        Some(JsonValue::Arr(items)) => match decode_i64_vec(items) {
            Some(gm) => gm,
            None => { return None },
        },
        _ => { return None },
    };
    Some(NetworkSlot { name, game, slot_type, group_members })
}

pub proof fn lemma_i64_seq_roundtrip(s: Seq<i64>)
    ensures
        dec_i64_seq(enc_i64_seq(s)) == Some(s),
{
    let items = enc_i64_seq(s);
    let d = |v: SpecJson| dec_i64(v);
    crate::codec::lemma_dec_all(items, d);
    assert(forall|i: int| 0 <= i < items.len() ==> (#[trigger] d(items[i])) is Some);
    let out = crate::codec::dec_all(items, d)->Some_0;
    assert(out =~= s);
}

pub proof fn lemma_slot_roundtrip(s: SpecNetworkSlot)
    ensures
        dec_slot(enc_slot(s)) == Some(s),
{
    assert("name"@ != "game"@) by {
        reveal_strlit("name");
        reveal_strlit("game");
        assert("name"@[0] == 'n');
        assert("game"@[0] == 'g');
    }
    assert("name"@ != "type"@) by {
        reveal_strlit("name");
        reveal_strlit("type");
        assert("name"@[0] == 'n');
        assert("type"@[0] == 't');
    }
    assert("name"@ != "group_members"@) by {
        reveal_strlit("name");
        reveal_strlit("group_members");
        assert("name"@[0] == 'n');
        assert("group_members"@[0] == 'g');
    }
    assert("game"@ != "type"@) by {
        reveal_strlit("game");
        reveal_strlit("type");
        assert("game"@[0] == 'g');
        assert("type"@[0] == 't');
    }
    assert("game"@ != "group_members"@) by {
        reveal_strlit("game");
        reveal_strlit("group_members");
        assert("game"@[1] == 'a');
        assert("group_members"@[1] == 'r');
    }
    assert("type"@ != "group_members"@) by {
        reveal_strlit("type");
        reveal_strlit("group_members");
        assert("type"@[0] == 't');
        assert("group_members"@[0] == 'g');
    }
    let fs = enc_slot(s)->Obj_0;
    lemma_obj_get_at(fs, "name"@, 0);
    lemma_obj_get_at(fs, "game"@, 1);
    lemma_obj_get_at(fs, "type"@, 2);
    lemma_obj_get_at(fs, "group_members"@, 3);
    lemma_i64_seq_roundtrip(s.group_members);
    assert(dec_slot(enc_slot(s)) matches Some(out) && out =~= s);
}

} // verus!
