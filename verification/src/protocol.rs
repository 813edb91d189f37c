//! The protocol's message model: the two closed, tagged message families (one
//! per direction), the pre-authentication subset of the server family, and the
//! shared value types.
//!
//! Every wire map whose keys are strings is kept as an ordered list of pairs,
//! in wire order. Each type with a `String`, `Vec` or raw-JSON field has a
//! mathematical mirror (`Spec...`) used by the contracts; a type made of
//! integers and flags alone is its own model.

use vstd::prelude::*;

use crate::json::SpecJson;
use crate::json::JsonValue;

verus! {

/// The deep view of a sequence of viewable values.
pub open spec fn deep<T: View>(s: Seq<T>) -> Seq<T::V> {
    s.map_values(|t: T| t@)
}

pub open spec fn view_opt_string(o: Option<String>) -> Option<Seq<char>> {
    match o {
        Some(s) => Some(s@),
        None => None,
    }
}

// ---------------------------------------------------------------------------
// Bit-flag sets
// ---------------------------------------------------------------------------
/// Flags configuring which items the server should send. The two higher bits
/// only read as set while the lowest (receive) bit is set too.
#[derive(Debug, Clone, Copy, PartialEq, Eq, Structural)]
pub struct ItemsHandlingFlags(pub u8);

pub const CAN_RECEIVE_ITEMS_BIT: u8 = 0b1;

pub const HAS_LOCAL_ITEMS_BIT: u8 = 0b10;

pub const REQUEST_STARTING_INVENTORY_BIT: u8 = 0b100;

impl View for ItemsHandlingFlags {
    type V = ItemsHandlingFlags;

    open spec fn view(&self) -> ItemsHandlingFlags {
        *self
    }
}

impl ItemsHandlingFlags {
    pub open spec fn spec_can_receive_items(&self) -> bool {
        self.0 & CAN_RECEIVE_ITEMS_BIT != 0
    }

    pub open spec fn spec_has_local_items(&self) -> bool {
        self.spec_can_receive_items() && self.0 & HAS_LOCAL_ITEMS_BIT != 0
    }

    pub open spec fn spec_receive_starting_inventory(&self) -> bool {
        self.spec_can_receive_items() && self.0 & REQUEST_STARTING_INVENTORY_BIT != 0
    }

    pub fn from_bits(bits: u8) -> (r: Self)
        ensures
            r.0 == bits,
    {
        ItemsHandlingFlags(bits)
    }

    #[verifier::when_used_as_spec(spec_can_receive_items)]
    pub fn can_receive_items(&self) -> (r: bool)
        ensures
            r == self.spec_can_receive_items(),
    {
        self.0 & CAN_RECEIVE_ITEMS_BIT != 0
    }

    #[verifier::when_used_as_spec(spec_has_local_items)]
    pub fn has_local_items(&self) -> (r: bool)
        ensures
            r == self.spec_has_local_items(),
    {
        self.can_receive_items() && self.0 & HAS_LOCAL_ITEMS_BIT != 0
    }

    #[verifier::when_used_as_spec(spec_receive_starting_inventory)]
    pub fn receive_starting_inventory(&self) -> (r: bool)
        ensures
            r == self.spec_receive_starting_inventory(),
    {
        self.can_receive_items() && self.0 & REQUEST_STARTING_INVENTORY_BIT != 0
    }

    /// The bitwise combination of two flag sets.
    pub fn union(self, rhs: Self) -> (r: Self)
        ensures
            r.0 == self.0 | rhs.0,
    {
        ItemsHandlingFlags(self.0 | rhs.0)
    }
}

/// Combining flag sets is a pure, associative (and commutative) bitwise OR.
pub proof fn lemma_union_associative(a: ItemsHandlingFlags, b: ItemsHandlingFlags, c: ItemsHandlingFlags)
    ensures
        (a.0 | b.0) | c.0 == a.0 | (b.0 | c.0),
        a.0 | b.0 == b.0 | a.0,
{
    let x = a.0;
    let y = b.0;
    let z = c.0;
    assert((x | y) | z == x | (y | z)) by (bit_vector);
    assert(x | y == y | x) by (bit_vector);
}

/// The dependency invariant of the flag set: while the receive bit is clear,
/// the two dependent flags read as false, whatever their own bits hold.
pub proof fn lemma_items_handling_dependency(f: ItemsHandlingFlags)
    ensures
        !f.spec_can_receive_items() ==> !f.spec_has_local_items(),
        !f.spec_can_receive_items() ==> !f.spec_receive_starting_inventory(),
{
}

/// Three independent boolean properties of an item occurrence.
#[derive(Debug, Clone, Copy, PartialEq, Eq, Structural)]
pub struct NetworkItemFlags(pub u8);

pub const PROGRESSION_BIT: u8 = 0b1;

pub const IMPORTANT_BIT: u8 = 0b10;

pub const TRAP_BIT: u8 = 0b100;

impl View for NetworkItemFlags {
    type V = NetworkItemFlags;

    open spec fn view(&self) -> NetworkItemFlags {
        *self
    }
}

impl NetworkItemFlags {
    pub open spec fn spec_is_progression(&self) -> bool {
        self.0 & PROGRESSION_BIT != 0
    }

    pub open spec fn spec_is_important(&self) -> bool {
        self.0 & IMPORTANT_BIT != 0
    }

    pub open spec fn spec_is_trap(&self) -> bool {
        self.0 & TRAP_BIT != 0
    }

    pub fn from_bits(bits: u8) -> (r: Self)
        ensures
            r.0 == bits,
    {
        NetworkItemFlags(bits)
    }

    #[verifier::when_used_as_spec(spec_is_progression)]
    pub fn is_progression(&self) -> (r: bool)
        ensures
            r == self.spec_is_progression(),
    {
        self.0 & PROGRESSION_BIT != 0
    }

    #[verifier::when_used_as_spec(spec_is_important)]
    pub fn is_important(&self) -> (r: bool)
        ensures
            r == self.spec_is_important(),
    {
        self.0 & IMPORTANT_BIT != 0
    }

    #[verifier::when_used_as_spec(spec_is_trap)]
    pub fn is_trap(&self) -> (r: bool)
        ensures
            r == self.spec_is_trap(),
    {
        self.0 & TRAP_BIT != 0
    }
}

// ---------------------------------------------------------------------------
// Shared value types
// ---------------------------------------------------------------------------
/// A protocol version triple. On the wire it carries one extra fixed
/// discriminator field, `"class": "Version"`.
#[derive(Debug, Clone, Copy, PartialEq, Eq, Structural)]
pub struct NetworkVersion {
    pub major: i64,
    pub minor: i64,
    pub build: i64,
}

impl View for NetworkVersion {
    type V = NetworkVersion;

    open spec fn view(&self) -> NetworkVersion {
        *self
    }
}

/// The protocol version this client supports and sends on every `Connect`.
pub open spec fn spec_supported_version() -> NetworkVersion {
    NetworkVersion { major: 0, minor: 4, build: 5 }
}

pub fn supported_version() -> (v: NetworkVersion)
    ensures
        v == spec_supported_version(),
{
    NetworkVersion { major: 0, minor: 4, build: 5 }
}

/// One player of the multiworld, connected or not.
#[derive(Debug, Clone)]
pub struct NetworkPlayer {
    pub team: i64,
    pub slot: i64,
    pub alias: String,
    pub name: String,
}

#[verifier::ext_equal]
pub struct SpecNetworkPlayer {
    pub team: i64,
    pub slot: i64,
    pub alias: Seq<char>,
    pub name: Seq<char>,
}

impl View for NetworkPlayer {
    type V = SpecNetworkPlayer;

    open spec fn view(&self) -> SpecNetworkPlayer {
        SpecNetworkPlayer {
            team: self.team,
            slot: self.slot,
            alias: self.alias@,
            name: self.name@,
        }
    }
}

/// One item occurrence.
#[derive(Debug, Clone, Copy, PartialEq, Eq, Structural)]
pub struct NetworkItem {
    pub item: i64,
    pub location: i64,
    pub player: i64,
    pub flags: NetworkItemFlags,
}

impl View for NetworkItem {
    type V = NetworkItem;

    open spec fn view(&self) -> NetworkItem {
        *self
    }
}

/// The colours a text part may carry; written in lower snake case on the wire.
#[derive(Debug, Clone, Copy, PartialEq, Eq, Structural)]
pub enum JSONColor {
    Bold,
    Underline,
    Black,
    Red,
    Green,
    Yellow,
    Blue,
    Magenta,
    Cyan,
    White,
    BlackBg,
    RedBg,
    GreenBg,
    YellowBg,
    BlueBg,
    MagentaBg,
    CyanBg,
    WhiteBg,
}

impl View for JSONColor {
    type V = JSONColor;

    open spec fn view(&self) -> JSONColor {
        *self
    }
}

/// One part of a rich text message; tagged by a `type` field, except the bare
/// text part, which has none.
#[derive(Debug, Clone)]
pub enum JSONMessagePart {
    PlayerId { text: String, player: i64 },
    PlayerName { text: String },
    ItemId { text: String, flags: NetworkItemFlags, player: i64 },
    ItemName { text: String, flags: NetworkItemFlags, player: i64 },
    LocationId { text: String, player: i64 },
    LocationName { text: String, player: i64 },
    EntranceName { text: String },
    Color { text: String, color: JSONColor },
    Text { text: String },
}

#[verifier::ext_equal]
pub enum SpecJSONMessagePart {
    PlayerId { text: Seq<char>, player: i64 },
    PlayerName { text: Seq<char> },
    ItemId { text: Seq<char>, flags: NetworkItemFlags, player: i64 },
    ItemName { text: Seq<char>, flags: NetworkItemFlags, player: i64 },
    LocationId { text: Seq<char>, player: i64 },
    LocationName { text: Seq<char>, player: i64 },
    EntranceName { text: Seq<char> },
    Color { text: Seq<char>, color: JSONColor },
    Text { text: Seq<char> },
}

impl View for JSONMessagePart {
    type V = SpecJSONMessagePart;

    open spec fn view(&self) -> SpecJSONMessagePart {
        match self {
            JSONMessagePart::PlayerId { text, player } => SpecJSONMessagePart::PlayerId {
                text: text@,
                player: *player,
            },
            JSONMessagePart::PlayerName { text } => SpecJSONMessagePart::PlayerName {
                text: text@,
            },
            JSONMessagePart::ItemId { text, flags, player } => SpecJSONMessagePart::ItemId {
                text: text@,
                flags: *flags,
                player: *player,
            },
            JSONMessagePart::ItemName { text, flags, player } => SpecJSONMessagePart::ItemName {
                text: text@,
                flags: *flags,
                player: *player,
            },
            JSONMessagePart::LocationId { text, player } => SpecJSONMessagePart::LocationId {
                text: text@,
                player: *player,
            },
            JSONMessagePart::LocationName { text, player } => SpecJSONMessagePart::LocationName {
                text: text@,
                player: *player,
            },
            JSONMessagePart::EntranceName { text } => SpecJSONMessagePart::EntranceName {
                text: text@,
            },
            JSONMessagePart::Color { text, color } => SpecJSONMessagePart::Color {
                text: text@,
                color: *color,
            },
            JSONMessagePart::Text { text } => SpecJSONMessagePart::Text { text: text@ },
        }
    }
}

/// A client's game status; an integer on the wire.
#[derive(Debug, Clone, Copy, PartialEq, Eq, Structural)]
pub enum ClientStatus {
    Unknown,
    Connected,
    Ready,
    Playing,
    Goal,
}

impl View for ClientStatus {
    type V = ClientStatus;

    open spec fn view(&self) -> ClientStatus {
        *self
    }
}

/// What kind of slot an entry of the roster is; an integer on the wire.
#[derive(Debug, Clone, Copy, PartialEq, Eq, Structural)]
pub enum SlotType {
    Spectator,
    Player,
    Group,
}

impl View for SlotType {
    type V = SlotType;

    open spec fn view(&self) -> SlotType {
        *self
    }
}

/// One slot's descriptor; `group_members` is only populated for a group slot.
#[derive(Debug, Clone)]
pub struct NetworkSlot {
    pub name: String,
    pub game: String,
    pub slot_type: SlotType,
    pub group_members: Vec<i64>,
}

#[verifier::ext_equal]
pub struct SpecNetworkSlot {
    pub name: Seq<char>,
    pub game: Seq<char>,
    pub slot_type: SlotType,
    pub group_members: Seq<i64>,
}

impl View for NetworkSlot {
    type V = SpecNetworkSlot;

    open spec fn view(&self) -> SpecNetworkSlot {
        SpecNetworkSlot {
            name: self.name@,
            game: self.game@,
            slot_type: self.slot_type,
            group_members: self.group_members@,
        }
    }
}

/// The three permission subjects a room advertises; lower snake case keys on
/// the wire.
#[derive(Debug, Clone, Copy, PartialEq, Eq, Hash, Structural)]
pub enum PermissionName {
    Release,
    Collect,
    Remaining,
}

impl View for PermissionName {
    type V = PermissionName;

    open spec fn view(&self) -> PermissionName {
        *self
    }
}

/// A permission's value; an integer on the wire.
#[derive(Debug, Clone, Copy, PartialEq, Eq, Structural)]
pub enum Permission {
    Disabled,
    Enabled,
    Goal,
    Auto,
    AutoEnabled,
}

impl View for Permission {
    type V = Permission;

    open spec fn view(&self) -> Permission {
        *self
    }
}

/// One hint, as the data storage serves it.
#[derive(Debug, Clone)]
pub struct Hint {
    pub receiving_player: i64,
    pub finding_player: i64,
    pub location: i64,
    pub item: i64,
    pub found: bool,
    pub entrance: String,
    pub item_flags: NetworkItemFlags,
}

#[verifier::ext_equal]
pub struct SpecHint {
    pub receiving_player: i64,
    pub finding_player: i64,
    pub location: i64,
    pub item: i64,
    pub found: bool,
    pub entrance: Seq<char>,
    pub item_flags: NetworkItemFlags,
}

impl View for Hint {
    type V = SpecHint;

    open spec fn view(&self) -> SpecHint {
        SpecHint {
            receiving_player: self.receiving_player,
            finding_player: self.finding_player,
            location: self.location,
            item: self.item,
            found: self.found,
            entrance: self.entrance@,
            item_flags: self.item_flags,
        }
    }
}

/// One game's name/id tables within the data package.
#[derive(Debug, Clone)]
pub struct GameData {
    pub item_name_to_id: Vec<(String, i64)>,
    pub location_name_to_id: Vec<(String, i64)>,
    pub version: i64,
    pub checksum: String,
}

#[verifier::ext_equal]
pub struct SpecGameData {
    pub item_name_to_id: Seq<(Seq<char>, i64)>,
    pub location_name_to_id: Seq<(Seq<char>, i64)>,
    pub version: i64,
    pub checksum: Seq<char>,
}

impl View for GameData {
    type V = SpecGameData;

    open spec fn view(&self) -> SpecGameData {
        SpecGameData {
            item_name_to_id: deep(self.item_name_to_id@),
            location_name_to_id: deep(self.location_name_to_id@),
            version: self.version,
            checksum: self.checksum@,
        }
    }
}

/// The whole data package: per-game data, keyed by game name.
#[derive(Debug, Clone)]
pub struct DataPackageObject {
    pub games: Vec<(String, GameData)>,
}

#[verifier::ext_equal]
pub struct SpecDataPackageObject {
    pub games: Seq<(Seq<char>, SpecGameData)>,
}

impl View for DataPackageObject {
    type V = SpecDataPackageObject;

    open spec fn view(&self) -> SpecDataPackageObject {
        SpecDataPackageObject { games: deep(self.games@) }
    }
}

// ---------------------------------------------------------------------------
// Server -> client payloads
// ---------------------------------------------------------------------------
/// The room's self-description; the mandatory first message of a session.
#[derive(Debug, Clone)]
pub struct RoomInfo {
    pub version: NetworkVersion,
    pub generator_version: NetworkVersion,
    pub tags: Vec<String>,
    pub password_required: bool,
    pub permissions: Vec<(PermissionName, Permission)>,
    pub hint_cost: i64,
    pub location_check_points: i64,
    pub games: Vec<String>,
    pub datapackage_versions: Vec<(String, i64)>,
    pub datapackage_checksums: Vec<(String, String)>,
    pub seed_name: String,
    /// The server's clock, a JSON number; kept as parsed, fraction and all.
    pub time: JsonValue,
}

#[verifier::ext_equal]
pub struct SpecRoomInfo {
    pub version: NetworkVersion,
    pub generator_version: NetworkVersion,
    pub tags: Seq<Seq<char>>,
    pub password_required: bool,
    pub permissions: Seq<(PermissionName, Permission)>,
    pub hint_cost: i64,
    pub location_check_points: i64,
    pub games: Seq<Seq<char>>,
    pub datapackage_versions: Seq<(Seq<char>, i64)>,
    pub datapackage_checksums: Seq<(Seq<char>, Seq<char>)>,
    pub seed_name: Seq<char>,
    pub time: SpecJson,
}

impl View for RoomInfo {
    type V = SpecRoomInfo;

    open spec fn view(&self) -> SpecRoomInfo {
        SpecRoomInfo {
            version: self.version,
            generator_version: self.generator_version,
            tags: deep(self.tags@),
            password_required: self.password_required,
            permissions: self.permissions@,
            hint_cost: self.hint_cost,
            location_check_points: self.location_check_points,
            games: deep(self.games@),
            datapackage_versions: deep(self.datapackage_versions@),
            datapackage_checksums: deep(self.datapackage_checksums@),
            seed_name: self.seed_name@,
            time: self.time@,
        }
    }
}

/// Why the server refused a connection; a closed set of reasons.
#[derive(Debug, Clone, Copy, PartialEq, Eq, Structural)]
pub enum ConnectionRefusedError {
    InvalidSlot,
    InvalidGame,
    IncompatibleVersion,
    InvalidPassword,
    InvalidItemsHandling,
}

impl View for ConnectionRefusedError {
    type V = ConnectionRefusedError;

    open spec fn view(&self) -> ConnectionRefusedError {
        *self
    }
}

/// The server's refusal, sent during the handshake.
#[derive(Debug, Clone)]
pub struct ConnectionRefused {
    pub errors: Vec<ConnectionRefusedError>,
}

#[verifier::ext_equal]
pub struct SpecConnectionRefused {
    pub errors: Seq<ConnectionRefusedError>,
}

impl View for ConnectionRefused {
    type V = SpecConnectionRefused;

    open spec fn view(&self) -> SpecConnectionRefused {
        SpecConnectionRefused { errors: self.errors@ }
    }
}

/// The successful authentication reply: the session's identity snapshot.
#[derive(Debug, Clone)]
pub struct Connected {
    pub team: i64,
    pub slot: i64,
    pub players: Vec<NetworkPlayer>,
    pub missing_locations: Vec<i64>,
    pub checked_locations: Vec<i64>,
    pub slot_data: Vec<(String, JsonValue)>,
    pub slot_info: Vec<(String, NetworkSlot)>,
    pub hint_points: i64,
}

#[verifier::ext_equal]
pub struct SpecConnected {
    pub team: i64,
    pub slot: i64,
    pub players: Seq<SpecNetworkPlayer>,
    pub missing_locations: Seq<i64>,
    pub checked_locations: Seq<i64>,
    pub slot_data: Seq<(Seq<char>, SpecJson)>,
    pub slot_info: Seq<(Seq<char>, SpecNetworkSlot)>,
    pub hint_points: i64,
}

impl View for Connected {
    type V = SpecConnected;

    open spec fn view(&self) -> SpecConnected {
        SpecConnected {
            team: self.team,
            slot: self.slot,
            players: deep(self.players@),
            missing_locations: self.missing_locations@,
            checked_locations: self.checked_locations@,
            slot_data: deep(self.slot_data@),
            slot_info: deep(self.slot_info@),
            hint_points: self.hint_points,
        }
    }
}

/// A batch of items granted to this client.
#[derive(Debug, Clone)]
pub struct ReceivedItems {
    pub index: i64,
    pub items: Vec<NetworkItem>,
}

#[verifier::ext_equal]
pub struct SpecReceivedItems {
    pub index: i64,
    pub items: Seq<NetworkItem>,
}

impl View for ReceivedItems {
    type V = SpecReceivedItems;

    open spec fn view(&self) -> SpecReceivedItems {
        SpecReceivedItems { index: self.index, items: self.items@ }
    }
}

/// The reply to a scout request: the items in the scouted locations.
#[derive(Debug, Clone)]
pub struct LocationInfo {
    pub locations: Vec<NetworkItem>,
}

#[verifier::ext_equal]
pub struct SpecLocationInfo {
    pub locations: Seq<NetworkItem>,
}

impl View for LocationInfo {
    type V = SpecLocationInfo;

    open spec fn view(&self) -> SpecLocationInfo {
        SpecLocationInfo { locations: self.locations@ }
    }
}

/// An update to the room's state; all its arguments are optional and the
/// library does not interpret them yet.
#[derive(Debug, Clone, PartialEq, Eq, Structural)]
pub struct RoomUpdate {}

impl View for RoomUpdate {
    type V = RoomUpdate;

    open spec fn view(&self) -> RoomUpdate {
        *self
    }
}

/// A rich text event; tagged by a `type` field beside the family tag.
#[derive(Debug, Clone)]
pub enum PrintJSON {
    ItemSend { data: Vec<JSONMessagePart>, receiving: i64, item: NetworkItem },
    ItemCheat { data: Vec<JSONMessagePart>, receiving: i64, item: NetworkItem, team: i64 },
    Hint { data: Vec<JSONMessagePart>, receiving: i64, item: NetworkItem, found: bool },
    Join { data: Vec<JSONMessagePart>, team: i64, slot: i64, tags: Vec<String> },
    Part { data: Vec<JSONMessagePart>, team: i64, slot: i64 },
    Chat { data: Vec<JSONMessagePart>, team: i64, slot: i64, message: String },
    ServerChat { data: Vec<JSONMessagePart>, message: String },
    Tutorial { data: Vec<JSONMessagePart> },
    TagsChanged { data: Vec<JSONMessagePart>, team: i64, slot: i64, tags: Vec<String> },
    CommandResult { data: Vec<JSONMessagePart> },
    AdminCommandResult { data: Vec<JSONMessagePart> },
    Goal { data: Vec<JSONMessagePart>, team: i64, slot: i64 },
    Release { data: Vec<JSONMessagePart>, team: i64, slot: i64 },
    Collect { data: Vec<JSONMessagePart>, team: i64, slot: i64 },
    Countdown { data: Vec<JSONMessagePart>, countdown: i64 },
}

#[verifier::ext_equal]
pub enum SpecPrintJSON {
    ItemSend { data: Seq<SpecJSONMessagePart>, receiving: i64, item: NetworkItem },
    ItemCheat { data: Seq<SpecJSONMessagePart>, receiving: i64, item: NetworkItem, team: i64 },
    Hint { data: Seq<SpecJSONMessagePart>, receiving: i64, item: NetworkItem, found: bool },
    Join { data: Seq<SpecJSONMessagePart>, team: i64, slot: i64, tags: Seq<Seq<char>> },
    Part { data: Seq<SpecJSONMessagePart>, team: i64, slot: i64 },
    Chat { data: Seq<SpecJSONMessagePart>, team: i64, slot: i64, message: Seq<char> },
    ServerChat { data: Seq<SpecJSONMessagePart>, message: Seq<char> },
    Tutorial { data: Seq<SpecJSONMessagePart> },
    TagsChanged { data: Seq<SpecJSONMessagePart>, team: i64, slot: i64, tags: Seq<Seq<char>> },
    CommandResult { data: Seq<SpecJSONMessagePart> },
    AdminCommandResult { data: Seq<SpecJSONMessagePart> },
    Goal { data: Seq<SpecJSONMessagePart>, team: i64, slot: i64 },
    Release { data: Seq<SpecJSONMessagePart>, team: i64, slot: i64 },
    Collect { data: Seq<SpecJSONMessagePart>, team: i64, slot: i64 },
    Countdown { data: Seq<SpecJSONMessagePart>, countdown: i64 },
}

impl View for PrintJSON {
    type V = SpecPrintJSON;

    open spec fn view(&self) -> SpecPrintJSON {
        match self {
            PrintJSON::ItemSend { data, receiving, item } => SpecPrintJSON::ItemSend {
                data: deep(data@),
                receiving: *receiving,
                item: *item,
            },
            PrintJSON::ItemCheat { data, receiving, item, team } => SpecPrintJSON::ItemCheat {
                data: deep(data@),
                receiving: *receiving,
                item: *item,
                team: *team,
            },
            PrintJSON::Hint { data, receiving, item, found } => SpecPrintJSON::Hint {
                data: deep(data@),
                receiving: *receiving,
                item: *item,
                found: *found,
            },
            PrintJSON::Join { data, team, slot, tags } => SpecPrintJSON::Join {
                data: deep(data@),
                team: *team,
                slot: *slot,
                tags: deep(tags@),
            },
            PrintJSON::Part { data, team, slot } => SpecPrintJSON::Part {
                data: deep(data@),
                team: *team,
                slot: *slot,
            },
            PrintJSON::Chat { data, team, slot, message } => SpecPrintJSON::Chat {
                data: deep(data@),
                team: *team,
                slot: *slot,
                message: message@,
            },
            PrintJSON::ServerChat { data, message } => SpecPrintJSON::ServerChat {
                data: deep(data@),
                message: message@,
            },
            PrintJSON::Tutorial { data } => SpecPrintJSON::Tutorial { data: deep(data@) },
            PrintJSON::TagsChanged { data, team, slot, tags } => SpecPrintJSON::TagsChanged {
                data: deep(data@),
                team: *team,
                slot: *slot,
                tags: deep(tags@),
            },
            PrintJSON::CommandResult { data } => SpecPrintJSON::CommandResult {
                data: deep(data@),
            },
            PrintJSON::AdminCommandResult { data } => SpecPrintJSON::AdminCommandResult {
                data: deep(data@),
            },
            PrintJSON::Goal { data, team, slot } => SpecPrintJSON::Goal {
                data: deep(data@),
                team: *team,
                slot: *slot,
            },
            PrintJSON::Release { data, team, slot } => SpecPrintJSON::Release {
                data: deep(data@),
                team: *team,
                slot: *slot,
            },
            PrintJSON::Collect { data, team, slot } => SpecPrintJSON::Collect {
                data: deep(data@),
                team: *team,
                slot: *slot,
            },
            PrintJSON::Countdown { data, countdown } => SpecPrintJSON::Countdown {
                data: deep(data@),
                countdown: *countdown,
            },
        }
    }
}

/// The data package reply.
#[derive(Debug, Clone)]
pub struct DataPackage {
    pub data: DataPackageObject,
}

#[verifier::ext_equal]
pub struct SpecDataPackage {
    pub data: SpecDataPackageObject,
}

impl View for DataPackage {
    type V = SpecDataPackage;

    open spec fn view(&self) -> SpecDataPackage {
        SpecDataPackage { data: self.data@ }
    }
}

/// A forwarded broadcast, as requested by some client's `Bounce`.
#[derive(Debug, Clone)]
pub struct Bounced {
    pub games: Vec<String>,
    pub slots: Vec<i64>,
    pub tags: Vec<String>,
    pub data: JsonValue,
}

#[verifier::ext_equal]
pub struct SpecBounced {
    pub games: Seq<Seq<char>>,
    pub slots: Seq<i64>,
    pub tags: Seq<Seq<char>>,
    pub data: SpecJson,
}

impl View for Bounced {
    type V = SpecBounced;

    open spec fn view(&self) -> SpecBounced {
        SpecBounced {
            games: deep(self.games@),
            slots: self.slots@,
            tags: deep(self.tags@),
            data: self.data@,
        }
    }
}

/// What kind of problem the server found in a packet.
#[derive(Debug, Clone, Copy, PartialEq, Eq, Structural)]
#[non_exhaustive]
pub enum PacketProblemType {
    Cmd,
    Arguments,
}

impl View for PacketProblemType {
    type V = PacketProblemType;

    open spec fn view(&self) -> PacketProblemType {
        *self
    }
}

/// The server's report of a faulty packet. A protocol-level reply, not a
/// transport failure.
#[derive(Debug, Clone)]
pub struct InvalidPacket {
    pub problem_type: PacketProblemType,
    pub original_cmd: Option<String>,
    pub text: String,
}

#[verifier::ext_equal]
pub struct SpecInvalidPacket {
    pub problem_type: PacketProblemType,
    pub original_cmd: Option<Seq<char>>,
    pub text: Seq<char>,
}

impl View for InvalidPacket {
    type V = SpecInvalidPacket;

    open spec fn view(&self) -> SpecInvalidPacket {
        SpecInvalidPacket {
            problem_type: self.problem_type,
            original_cmd: view_opt_string(self.original_cmd),
            text: self.text@,
        }
    }
}

/// The reply to a `Get`: the requested keys and their stored values.
#[derive(Debug, Clone)]
pub struct Retrieved {
    pub keys: Vec<(String, JsonValue)>,
}

#[verifier::ext_equal]
pub struct SpecRetrieved {
    pub keys: Seq<(Seq<char>, SpecJson)>,
}

impl View for Retrieved {
    type V = SpecRetrieved;

    open spec fn view(&self) -> SpecRetrieved {
        SpecRetrieved { keys: deep(self.keys@) }
    }
}

/// The notification that a data-storage key changed.
#[derive(Debug, Clone)]
pub struct SetReply {
    pub key: String,
    pub value: JsonValue,
    pub original_value: JsonValue,
}

#[verifier::ext_equal]
pub struct SpecSetReply {
    pub key: Seq<char>,
    pub value: SpecJson,
    pub original_value: SpecJson,
}

impl View for SetReply {
    type V = SpecSetReply;

    open spec fn view(&self) -> SpecSetReply {
        SpecSetReply {
            key: self.key@,
            value: self.value@,
            original_value: self.original_value@,
        }
    }
}

// ---------------------------------------------------------------------------
// Client -> server payloads
// ---------------------------------------------------------------------------
/// The authentication request.
#[derive(Debug, Clone)]
pub struct Connect {
    pub password: Option<String>,
    pub game: String,
    pub name: String,
    pub uuid: String,
    pub version: NetworkVersion,
    pub items_handling: ItemsHandlingFlags,
    pub tags: Vec<String>,
    pub slot_data: bool,
}

#[verifier::ext_equal]
pub struct SpecConnect {
    pub password: Option<Seq<char>>,
    pub game: Seq<char>,
    pub name: Seq<char>,
    pub uuid: Seq<char>,
    pub version: NetworkVersion,
    pub items_handling: ItemsHandlingFlags,
    pub tags: Seq<Seq<char>>,
    pub slot_data: bool,
}

impl View for Connect {
    type V = SpecConnect;

    open spec fn view(&self) -> SpecConnect {
        SpecConnect {
            password: view_opt_string(self.password),
            game: self.game@,
            name: self.name@,
            uuid: self.uuid@,
            version: self.version,
            items_handling: self.items_handling,
            tags: deep(self.tags@),
            slot_data: self.slot_data,
        }
    }
}

/// An update to the `Connect`-time arguments.
#[derive(Debug, Clone)]
pub struct ConnectUpdate {
    pub items_handling: ItemsHandlingFlags,
    pub tags: Vec<String>,
}

#[verifier::ext_equal]
pub struct SpecConnectUpdate {
    pub items_handling: ItemsHandlingFlags,
    pub tags: Seq<Seq<char>>,
}

impl View for ConnectUpdate {
    type V = SpecConnectUpdate;

    open spec fn view(&self) -> SpecConnectUpdate {
        SpecConnectUpdate { items_handling: self.items_handling, tags: deep(self.tags@) }
    }
}

/// The ids of locations the client has checked.
#[derive(Debug, Clone)]
pub struct LocationChecks {
    pub locations: Vec<i64>,
}

#[verifier::ext_equal]
pub struct SpecLocationChecks {
    pub locations: Seq<i64>,
}

impl View for LocationChecks {
    type V = SpecLocationChecks;

    open spec fn view(&self) -> SpecLocationChecks {
        SpecLocationChecks { locations: self.locations@ }
    }
}

/// A request for the items at the given locations.
#[derive(Debug, Clone)]
pub struct LocationScouts {
    pub locations: Vec<i64>,
    pub create_as_hint: i64,
}

#[verifier::ext_equal]
pub struct SpecLocationScouts {
    pub locations: Seq<i64>,
    pub create_as_hint: i64,
}

impl View for LocationScouts {
    type V = SpecLocationScouts;

    open spec fn view(&self) -> SpecLocationScouts {
        SpecLocationScouts { locations: self.locations@, create_as_hint: self.create_as_hint }
    }
}

/// The sender's status update.
#[derive(Debug, Clone, Copy, PartialEq, Eq, Structural)]
pub struct StatusUpdate {
    pub status: ClientStatus,
}

impl View for StatusUpdate {
    type V = StatusUpdate;

    open spec fn view(&self) -> StatusUpdate {
        *self
    }
}

/// A chat line for the other clients.
#[derive(Debug, Clone)]
pub struct Say {
    pub text: String,
}

#[verifier::ext_equal]
pub struct SpecSay {
    pub text: Seq<char>,
}

impl View for Say {
    type V = SpecSay;

    open spec fn view(&self) -> SpecSay {
        SpecSay { text: self.text@ }
    }
}

/// A request for the data package, limited to the named games.
#[derive(Debug, Clone)]
pub struct GetDataPackage {
    pub games: Vec<String>,
}

#[verifier::ext_equal]
pub struct SpecGetDataPackage {
    pub games: Seq<Seq<char>>,
}

impl View for GetDataPackage {
    type V = SpecGetDataPackage;

    open spec fn view(&self) -> SpecGetDataPackage {
        SpecGetDataPackage { games: deep(self.games@) }
    }
}

/// A broadcast request: the server forwards `data` to the matching clients.
#[derive(Debug, Clone)]
pub struct Bounce {
    pub games: Vec<String>,
    pub slots: Vec<i64>,
    pub tags: Vec<String>,
    pub data: JsonValue,
}

#[verifier::ext_equal]
pub struct SpecBounce {
    pub games: Seq<Seq<char>>,
    pub slots: Seq<i64>,
    pub tags: Seq<Seq<char>>,
    pub data: SpecJson,
}

impl View for Bounce {
    type V = SpecBounce;

    open spec fn view(&self) -> SpecBounce {
        SpecBounce {
            games: deep(self.games@),
            slots: self.slots@,
            tags: deep(self.tags@),
            data: self.data@,
        }
    }
}

/// A read of the server's data storage.
#[derive(Debug, Clone)]
pub struct Get {
    pub keys: Vec<String>,
}

#[verifier::ext_equal]
pub struct SpecGet {
    pub keys: Seq<Seq<char>>,
}

impl View for Get {
    type V = SpecGet;

    open spec fn view(&self) -> SpecGet {
        SpecGet { keys: deep(self.keys@) }
    }
}

/// One operation of a `Set` request, applied in order of appearance.
#[derive(Debug, Clone)]
pub enum DataStorageOperation {
    Replace(JsonValue),
    Default,
    Add(JsonValue),
    Mul(JsonValue),
    Pow(JsonValue),
    Mod(JsonValue),
    Floor,
    Ceil,
    Max(JsonValue),
    Min(JsonValue),
    And(JsonValue),
    Or(JsonValue),
    Xor(JsonValue),
    LeftShift(JsonValue),
    RightShift(JsonValue),
    Remove(JsonValue),
    Pop(JsonValue),
    Update(JsonValue),
}

#[verifier::ext_equal]
pub enum SpecDataStorageOperation {
    Replace(SpecJson),
    Default,
    Add(SpecJson),
    Mul(SpecJson),
    Pow(SpecJson),
    Mod(SpecJson),
    Floor,
    Ceil,
    Max(SpecJson),
    Min(SpecJson),
    And(SpecJson),
    Or(SpecJson),
    Xor(SpecJson),
    LeftShift(SpecJson),
    RightShift(SpecJson),
    Remove(SpecJson),
    Pop(SpecJson),
    Update(SpecJson),
}

impl View for DataStorageOperation {
    type V = SpecDataStorageOperation;

    open spec fn view(&self) -> SpecDataStorageOperation {
        match self {
            DataStorageOperation::Replace(v) => SpecDataStorageOperation::Replace(v@),
            DataStorageOperation::Default => SpecDataStorageOperation::Default,
            DataStorageOperation::Add(v) => SpecDataStorageOperation::Add(v@),
            DataStorageOperation::Mul(v) => SpecDataStorageOperation::Mul(v@),
            DataStorageOperation::Pow(v) => SpecDataStorageOperation::Pow(v@),
            DataStorageOperation::Mod(v) => SpecDataStorageOperation::Mod(v@),
            DataStorageOperation::Floor => SpecDataStorageOperation::Floor,
            DataStorageOperation::Ceil => SpecDataStorageOperation::Ceil,
            DataStorageOperation::Max(v) => SpecDataStorageOperation::Max(v@),
            DataStorageOperation::Min(v) => SpecDataStorageOperation::Min(v@),
            DataStorageOperation::And(v) => SpecDataStorageOperation::And(v@),
            DataStorageOperation::Or(v) => SpecDataStorageOperation::Or(v@),
            DataStorageOperation::Xor(v) => SpecDataStorageOperation::Xor(v@),
            DataStorageOperation::LeftShift(v) => SpecDataStorageOperation::LeftShift(v@),
            DataStorageOperation::RightShift(v) => SpecDataStorageOperation::RightShift(v@),
            DataStorageOperation::Remove(v) => SpecDataStorageOperation::Remove(v@),
            DataStorageOperation::Pop(v) => SpecDataStorageOperation::Pop(v@),
            DataStorageOperation::Update(v) => SpecDataStorageOperation::Update(v@),
        }
    }
}

/// A write to the server's data storage.
#[derive(Debug, Clone)]
pub struct SetRequest {
    pub key: String,
    pub default: JsonValue,
    pub want_reply: bool,
    pub operations: Vec<DataStorageOperation>,
}

#[verifier::ext_equal]
pub struct SpecSetRequest {
    pub key: Seq<char>,
    pub default: SpecJson,
    pub want_reply: bool,
    pub operations: Seq<SpecDataStorageOperation>,
}

impl View for SetRequest {
    type V = SpecSetRequest;

    open spec fn view(&self) -> SpecSetRequest {
        SpecSetRequest {
            key: self.key@,
            default: self.default@,
            want_reply: self.want_reply,
            operations: deep(self.operations@),
        }
    }
}

/// A subscription to `SetReply` notifications for the given keys.
#[derive(Debug, Clone)]
pub struct SetNotify {
    pub keys: Vec<String>,
}

#[verifier::ext_equal]
pub struct SpecSetNotify {
    pub keys: Seq<Seq<char>>,
}

impl View for SetNotify {
    type V = SpecSetNotify;

    open spec fn view(&self) -> SpecSetNotify {
        SpecSetNotify { keys: deep(self.keys@) }
    }
}

// ---------------------------------------------------------------------------
// The three message families
// ---------------------------------------------------------------------------
/// Every message the server may send to an authenticated client.
#[derive(Debug, Clone)]
pub enum ServerMessage {
    ReceivedItems(ReceivedItems),
    LocationInfo(LocationInfo),
    RoomUpdate(RoomUpdate),
    PrintJSON(PrintJSON),
    Bounced(Bounced),
    Retrieved(Retrieved),
    SetReply(SetReply),
    InvalidPacket(InvalidPacket),
}

#[verifier::ext_equal]
pub enum SpecServerMessage {
    ReceivedItems(SpecReceivedItems),
    LocationInfo(SpecLocationInfo),
    RoomUpdate(RoomUpdate),
    PrintJSON(SpecPrintJSON),
    Bounced(SpecBounced),
    Retrieved(SpecRetrieved),
    SetReply(SpecSetReply),
    InvalidPacket(SpecInvalidPacket),
}

impl View for ServerMessage {
    type V = SpecServerMessage;

    open spec fn view(&self) -> SpecServerMessage {
        match self {
            ServerMessage::ReceivedItems(p) => SpecServerMessage::ReceivedItems(p@),
            ServerMessage::LocationInfo(p) => SpecServerMessage::LocationInfo(p@),
            ServerMessage::RoomUpdate(p) => SpecServerMessage::RoomUpdate(p@),
            ServerMessage::PrintJSON(p) => SpecServerMessage::PrintJSON(p@),
            ServerMessage::Bounced(p) => SpecServerMessage::Bounced(p@),
            ServerMessage::Retrieved(p) => SpecServerMessage::Retrieved(p@),
            ServerMessage::SetReply(p) => SpecServerMessage::SetReply(p@),
            ServerMessage::InvalidPacket(p) => SpecServerMessage::InvalidPacket(p@),
        }
    }
}

/// The messages the server may send before authentication: a strict subset of
/// the protocol's server-to-client catalogue.
#[derive(Debug, Clone)]
pub enum AnonymousServerMessage {
    RoomInfo(RoomInfo),
    ConnectionRefused(ConnectionRefused),
    Connected(Connected),
    DataPackage(DataPackage),
    InvalidPacket(InvalidPacket),
}

#[verifier::ext_equal]
pub enum SpecAnonymousServerMessage {
    RoomInfo(SpecRoomInfo),
    ConnectionRefused(SpecConnectionRefused),
    Connected(SpecConnected),
    DataPackage(SpecDataPackage),
    InvalidPacket(SpecInvalidPacket),
}

impl View for AnonymousServerMessage {
    type V = SpecAnonymousServerMessage;

    open spec fn view(&self) -> SpecAnonymousServerMessage {
        match self {
            AnonymousServerMessage::RoomInfo(p) => SpecAnonymousServerMessage::RoomInfo(p@),
            AnonymousServerMessage::ConnectionRefused(p) => {
                SpecAnonymousServerMessage::ConnectionRefused(p@)
            }
            AnonymousServerMessage::Connected(p) => SpecAnonymousServerMessage::Connected(p@),
            AnonymousServerMessage::DataPackage(p) => SpecAnonymousServerMessage::DataPackage(p@),
            AnonymousServerMessage::InvalidPacket(p) => {
                SpecAnonymousServerMessage::InvalidPacket(p@)
            }
        }
    }
}

/// Every message this client may send to the server.
#[derive(Debug, Clone)]
pub enum ClientMessage {
    Connect(Connect),
    /// A request for a `ReceivedItems` resynchronisation; it carries no fields.
    Sync,
    LocationChecks(LocationChecks),
    LocationScouts(LocationScouts),
    StatusUpdate(StatusUpdate),
    Say(Say),
    GetDataPackage(GetDataPackage),
    Bounce(Bounce),
    Get(Get),
    SetRequest(SetRequest),
    SetNotify(SetNotify),
}

#[verifier::ext_equal]
pub enum SpecClientMessage {
    Connect(SpecConnect),
    Sync,
    LocationChecks(SpecLocationChecks),
    LocationScouts(SpecLocationScouts),
    StatusUpdate(StatusUpdate),
    Say(SpecSay),
    GetDataPackage(SpecGetDataPackage),
    Bounce(SpecBounce),
    Get(SpecGet),
    SetRequest(SpecSetRequest),
    SetNotify(SpecSetNotify),
}

impl View for ClientMessage {
    type V = SpecClientMessage;

    open spec fn view(&self) -> SpecClientMessage {
        match self {
            ClientMessage::Connect(p) => SpecClientMessage::Connect(p@),
            ClientMessage::Sync => SpecClientMessage::Sync,
            ClientMessage::LocationChecks(p) => SpecClientMessage::LocationChecks(p@),
            ClientMessage::LocationScouts(p) => SpecClientMessage::LocationScouts(p@),
            ClientMessage::StatusUpdate(p) => SpecClientMessage::StatusUpdate(p@),
            ClientMessage::Say(p) => SpecClientMessage::Say(p@),
            ClientMessage::GetDataPackage(p) => SpecClientMessage::GetDataPackage(p@),
            ClientMessage::Bounce(p) => SpecClientMessage::Bounce(p@),
            ClientMessage::Get(p) => SpecClientMessage::Get(p@),
            ClientMessage::SetRequest(p) => SpecClientMessage::SetRequest(p@),
            ClientMessage::SetNotify(p) => SpecClientMessage::SetNotify(p@),
        }
    }
}

} // verus!
