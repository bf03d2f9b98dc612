//! The packet schema of the protocol's first generation: fewer packets than
//! the current one, unsigned identifiers, and positions written out field by
//! field. Strings and booleans are those of the current generation.
//!
//! Floating-point fields are held as their IEEE 754 bits, in `u64` or `u32`.

use crate::primitive::{DiceBool, DiceString};
use vstd::prelude::*;

verus! {

/// A boolean field: the byte 0 or the byte 1.
pub type MinecraftBool = DiceBool;

/// A string field: at most 32767 UTF-16 code units and their count.
pub type MinecraftString = DiceString;

/// A packet as the program holds it.
#[derive(Clone, Debug, PartialEq, Eq)]
#[allow(inconsistent_fields)]
pub enum MinecraftPacket {
    /// Tag 0. Keeps an idle connection open.
    KeepAlive,
    /// Tag 1. Opens a game session.
    Login { version: u32, username: MinecraftString, seed: u32, dimension: u8 },
    /// Tag 2. The first packet of a connection.
    Handshake { username: MinecraftString },
    /// Tag 3. A line of chat.
    Chat { message: MinecraftString },
    /// Tag 7. A player acts on an entity.
    Interact { player_id: u32, target_id: u32, left_click: MinecraftBool },
    /// Tag 9. The player re-enters the world.
    Respawn { dimension: u8 },
    /// Tag 10. Whether the player stands on something.
    Flying { on_ground: MinecraftBool },
    /// Tag 11. Where the player is.
    Position { x: u64, y: u64, stance: u64, z: u64, on_ground: MinecraftBool },
    /// Tag 12. Where the player looks.
    Look { yaw: u32, pitch: u32, on_ground: MinecraftBool },
    /// Tag 13. Where the player is and looks.
    PositionLook { x: u64, y: u64, stance: u64, z: u64, yaw: u32, pitch: u32, on_ground: MinecraftBool },
    /// Tag 14. Digging at a block.
    BreakBlock { status: MinecraftBool, x: i32, y: u8, z: i32, face: u8 },
    /// Tag 15. Placing a block.
    PlaceBlock { x: i32, y: u8, z: i32, direction: u8 },
    /// Tag 16. Which slot the player holds.
    HandSlot { slot: i16 },
    /// Tag 18. An entity plays an animation.
    Animation { entity_id: i32, animate: MinecraftBool },
    /// Tag 19. An entity changes posture.
    Action { entity_id: i32, state: MinecraftBool },
    /// Tag 101. A window closes.
    WindowClose { window_id: u8 },
    /// Tag 102. A click in a window.
    WindowClick { window_id: u8, slot: i16, right_click: MinecraftBool, transaction_id: i32, shift_click: MinecraftBool },
    /// Tag 106. Whether a click was accepted.
    WindowTransaction { window_id: u8, transaction_id: i32, accepted: MinecraftBool },
    /// Tag 130. The four lines of a sign.
    UpdateSign { x: i32, y: i16, z: i32, lines: [MinecraftString; 4] },
    /// Tag 255. The connection ends.
    Disconnect { reason: MinecraftString },
}

/// A packet as a mathematical value: what a `MinecraftPacket` stands for.
#[allow(inconsistent_fields)]
pub enum MinecraftView {
    KeepAlive,
    Login { version: u32, username: Seq<u16>, seed: u32, dimension: u8 },
    Handshake { username: Seq<u16> },
    Chat { message: Seq<u16> },
    Interact { player_id: u32, target_id: u32, left_click: MinecraftBool },
    Respawn { dimension: u8 },
    Flying { on_ground: MinecraftBool },
    Position { x: u64, y: u64, stance: u64, z: u64, on_ground: MinecraftBool },
    Look { yaw: u32, pitch: u32, on_ground: MinecraftBool },
    PositionLook { x: u64, y: u64, stance: u64, z: u64, yaw: u32, pitch: u32, on_ground: MinecraftBool },
    BreakBlock { status: MinecraftBool, x: i32, y: u8, z: i32, face: u8 },
    PlaceBlock { x: i32, y: u8, z: i32, direction: u8 },
    HandSlot { slot: i16 },
    Animation { entity_id: i32, animate: MinecraftBool },
    Action { entity_id: i32, state: MinecraftBool },
    WindowClose { window_id: u8 },
    WindowClick { window_id: u8, slot: i16, right_click: MinecraftBool, transaction_id: i32, shift_click: MinecraftBool },
    WindowTransaction { window_id: u8, transaction_id: i32, accepted: MinecraftBool },
    UpdateSign { x: i32, y: i16, z: i32, lines: (Seq<u16>, Seq<u16>, Seq<u16>, Seq<u16>) },
    Disconnect { reason: Seq<u16> },
}

impl View for MinecraftPacket {
    type V = MinecraftView;

    open spec fn view(&self) -> MinecraftView {
        match *self {
            MinecraftPacket::KeepAlive => MinecraftView::KeepAlive,
            MinecraftPacket::Login { version, username, seed, dimension } => MinecraftView::Login { version, username: username@, seed, dimension },
            MinecraftPacket::Handshake { username } => MinecraftView::Handshake { username: username@ },
            MinecraftPacket::Chat { message } => MinecraftView::Chat { message: message@ },
            MinecraftPacket::Interact { player_id, target_id, left_click } => MinecraftView::Interact { player_id, target_id, left_click },
            MinecraftPacket::Respawn { dimension } => MinecraftView::Respawn { dimension },
            MinecraftPacket::Flying { on_ground } => MinecraftView::Flying { on_ground },
            MinecraftPacket::Position { x, y, stance, z, on_ground } => MinecraftView::Position { x, y, stance, z, on_ground },
            MinecraftPacket::Look { yaw, pitch, on_ground } => MinecraftView::Look { yaw, pitch, on_ground },
            MinecraftPacket::PositionLook { x, y, stance, z, yaw, pitch, on_ground } => MinecraftView::PositionLook { x, y, stance, z, yaw, pitch, on_ground },
            MinecraftPacket::BreakBlock { status, x, y, z, face } => MinecraftView::BreakBlock { status, x, y, z, face },
            MinecraftPacket::PlaceBlock { x, y, z, direction } => MinecraftView::PlaceBlock { x, y, z, direction },
            MinecraftPacket::HandSlot { slot } => MinecraftView::HandSlot { slot },
            MinecraftPacket::Animation { entity_id, animate } => MinecraftView::Animation { entity_id, animate },
            MinecraftPacket::Action { entity_id, state } => MinecraftView::Action { entity_id, state },
            MinecraftPacket::WindowClose { window_id } => MinecraftView::WindowClose { window_id },
            MinecraftPacket::WindowClick { window_id, slot, right_click, transaction_id, shift_click } => MinecraftView::WindowClick { window_id, slot, right_click, transaction_id, shift_click },
            MinecraftPacket::WindowTransaction { window_id, transaction_id, accepted } => MinecraftView::WindowTransaction { window_id, transaction_id, accepted },
            MinecraftPacket::UpdateSign { x, y, z, lines } => MinecraftView::UpdateSign { x, y, z, lines: (lines[0]@, lines[1]@, lines[2]@, lines[3]@) },
            MinecraftPacket::Disconnect { reason } => MinecraftView::Disconnect { reason: reason@ },
        }
    }
}

impl MinecraftView {
    /// The tag that names the variant on the wire.
    pub open spec fn tag(self) -> u8 {
        match self {
            MinecraftView::KeepAlive => 0,
            MinecraftView::Login { .. } => 1,
            MinecraftView::Handshake { .. } => 2,
            MinecraftView::Chat { .. } => 3,
            MinecraftView::Interact { .. } => 7,
            MinecraftView::Respawn { .. } => 9,
            MinecraftView::Flying { .. } => 10,
            MinecraftView::Position { .. } => 11,
            MinecraftView::Look { .. } => 12,
            MinecraftView::PositionLook { .. } => 13,
            MinecraftView::BreakBlock { .. } => 14,
            MinecraftView::PlaceBlock { .. } => 15,
            MinecraftView::HandSlot { .. } => 16,
            MinecraftView::Animation { .. } => 18,
            MinecraftView::Action { .. } => 19,
            MinecraftView::WindowClose { .. } => 101,
            MinecraftView::WindowClick { .. } => 102,
            MinecraftView::WindowTransaction { .. } => 106,
            MinecraftView::UpdateSign { .. } => 130,
            MinecraftView::Disconnect { .. } => 255,
        }
    }

    /// Whether the wire can carry the packet: its strings are short enough.
    pub open spec fn wf(self) -> bool {
        match self {
            MinecraftView::Login { username, .. } => username.len() <= 32767,
            MinecraftView::Handshake { username } => username.len() <= 32767,
            MinecraftView::Chat { message } => message.len() <= 32767,
            MinecraftView::UpdateSign { lines, .. } => {
                &&& lines.0.len() <= 32767
                &&& lines.1.len() <= 32767
                &&& lines.2.len() <= 32767
                &&& lines.3.len() <= 32767
            },
            MinecraftView::Disconnect { reason } => reason.len() <= 32767,
            _ => true,
        }
    }

    /// Whether two packets are of one variant.
    pub open spec fn same_variant(self, other: MinecraftView) -> bool {
        match self {
            MinecraftView::KeepAlive => other is KeepAlive,
            MinecraftView::Login { .. } => other is Login,
            MinecraftView::Handshake { .. } => other is Handshake,
            MinecraftView::Chat { .. } => other is Chat,
            MinecraftView::Interact { .. } => other is Interact,
            MinecraftView::Respawn { .. } => other is Respawn,
            MinecraftView::Flying { .. } => other is Flying,
            MinecraftView::Position { .. } => other is Position,
            MinecraftView::Look { .. } => other is Look,
            MinecraftView::PositionLook { .. } => other is PositionLook,
            MinecraftView::BreakBlock { .. } => other is BreakBlock,
            MinecraftView::PlaceBlock { .. } => other is PlaceBlock,
            MinecraftView::HandSlot { .. } => other is HandSlot,
            MinecraftView::Animation { .. } => other is Animation,
            MinecraftView::Action { .. } => other is Action,
            MinecraftView::WindowClose { .. } => other is WindowClose,
            MinecraftView::WindowClick { .. } => other is WindowClick,
            MinecraftView::WindowTransaction { .. } => other is WindowTransaction,
            MinecraftView::UpdateSign { .. } => other is UpdateSign,
            MinecraftView::Disconnect { .. } => other is Disconnect,
        }
    }
}

impl MinecraftPacket {
    /// Whether the wire can carry the packet.
    pub open spec fn wf(&self) -> bool {
        &&& self@.wf()
        &&& match *self {
            MinecraftPacket::Login { username, .. } => username.wf(),
            MinecraftPacket::Handshake { username } => username.wf(),
            MinecraftPacket::Chat { message } => message.wf(),
            MinecraftPacket::UpdateSign { lines, .. } => lines[0].wf() && lines[1].wf() && lines[2].wf() && lines[3].wf(),
            MinecraftPacket::Disconnect { reason } => reason.wf(),
            _ => true,
        }
    }

    /// The tag that names the variant on the wire.
    pub fn tag(&self) -> (r: u8)
        ensures
            r == self@.tag(),
    {
        match self {
            MinecraftPacket::KeepAlive => 0,
            MinecraftPacket::Login { .. } => 1,
            MinecraftPacket::Handshake { .. } => 2,
            MinecraftPacket::Chat { .. } => 3,
            MinecraftPacket::Interact { .. } => 7,
            MinecraftPacket::Respawn { .. } => 9,
            MinecraftPacket::Flying { .. } => 10,
            MinecraftPacket::Position { .. } => 11,
            MinecraftPacket::Look { .. } => 12,
            MinecraftPacket::PositionLook { .. } => 13,
            MinecraftPacket::BreakBlock { .. } => 14,
            MinecraftPacket::PlaceBlock { .. } => 15,
            MinecraftPacket::HandSlot { .. } => 16,
            MinecraftPacket::Animation { .. } => 18,
            MinecraftPacket::Action { .. } => 19,
            MinecraftPacket::WindowClose { .. } => 101,
            MinecraftPacket::WindowClick { .. } => 102,
            MinecraftPacket::WindowTransaction { .. } => 106,
            MinecraftPacket::UpdateSign { .. } => 130,
            MinecraftPacket::Disconnect { .. } => 255,
        }
    }

    /// Tests whether the wire can carry the packet.
    pub fn is_valid(&self) -> (r: bool)
        ensures
            r == self.wf(),
    {
        match self {
            MinecraftPacket::Login { username, .. } => {
                username.is_valid()
            },
            MinecraftPacket::Handshake { username } => {
                username.is_valid()
            },
            MinecraftPacket::Chat { message } => {
                message.is_valid()
            },
            MinecraftPacket::UpdateSign { lines, .. } => {
                lines[0].is_valid()
                    && lines[1].is_valid()
                    && lines[2].is_valid()
                    && lines[3].is_valid()
            },
            MinecraftPacket::Disconnect { reason } => {
                reason.is_valid()
            },
            _ => true,
        }
    }
}

} // verus!
