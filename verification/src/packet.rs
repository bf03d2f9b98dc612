//! The packet schema: every packet the protocol knows, its tag and its
//! fields in wire order.
//!
//! Floating-point fields are held as their IEEE 754 bits, in `u64` or `u32`:
//! the wire carries the bits, and nothing here computes with the numbers.

use crate::primitive::{DiceBool, DiceString};
use crate::wire::triples_of;
use vstd::prelude::*;

verus! {

/// Where a player stands: four IEEE 754 doubles, each held as its 64 bits.
#[derive(Clone, Copy, Debug, PartialEq, Eq, Structural)]
pub struct Position {
    pub x: u64,
    pub y: u64,
    pub stance: u64,
    pub z: u64,
}

/// Where a player looks: two IEEE 754 doubles, each held as its 64 bits.
#[derive(Clone, Copy, Debug, PartialEq, Eq, Structural)]
pub struct Look {
    pub yaw: u64,
    pub pitch: u64,
}

/// An entity's heading, in 256ths of a turn.
#[derive(Clone, Copy, Debug, PartialEq, Eq, Structural)]
pub struct EntityLook {
    pub yaw: i8,
    pub pitch: i8,
}

/// An entity's place, in 32nds of a block.
#[derive(Clone, Copy, Debug, PartialEq, Eq, Structural)]
pub struct EntityPosition {
    pub x: i32,
    pub y: i32,
    pub z: i32,
}

/// A small move of an entity, in 32nds of a block.
#[derive(Clone, Copy, Debug, PartialEq, Eq, Structural)]
pub struct EntityVelocity {
    pub x: i8,
    pub y: i8,
    pub z: i8,
}

/// An entity's velocity.
#[derive(Clone, Copy, Debug, PartialEq, Eq, Structural)]
pub struct EntityVelocity2 {
    pub x: i16,
    pub y: i16,
    pub z: i16,
}

/// The place of a block.
#[derive(Clone, Copy, Debug, PartialEq, Eq, Structural)]
pub struct BlockPosition {
    pub x: i32,
    pub y: i8,
    pub z: i32,
}

/// A packet as the program holds it.
#[derive(Clone, Debug, PartialEq, Eq)]
#[allow(inconsistent_fields)]
pub enum DicePacket {
    /// Tag 0. Keeps an idle connection open.
    KeepAlive,
    /// Tag 1. Opens a game session.
    Login { protocol_version: i32, username: DiceString, random_seed: i64, dimension: u8 },
    /// Tag 2. The first packet of a connection.
    Handshake { username: DiceString },
    /// Tag 3. A line of chat.
    Chat { message: DiceString },
    /// Tag 4. The world's clock.
    UpdateTime { time: i64 },
    /// Tag 5. What an entity holds in one slot.
    PlayerInventory { entity_id: i32, slot: i16, item_id: i16, item_damage: i16 },
    /// Tag 6. Where players enter the world.
    SpawnPosition { x: i32, y: i32, z: i32 },
    /// Tag 7. A player acts on an entity.
    Interact { player_id: i32, target_id: i32, left_click: DiceBool },
    /// Tag 8. The player's health.
    UpdateHealth { health: i16 },
    /// Tag 9. The player re-enters the world.
    Respawn { dimension: i8 },
    /// Tag 10. Whether the player stands on something.
    Flying { on_ground: DiceBool },
    /// Tag 11. Where the player is.
    Position { position: Position, on_ground: DiceBool },
    /// Tag 12. Where the player looks.
    Look { look: Look, on_ground: DiceBool },
    /// Tag 13. Where the player is and looks.
    PositionLook { position: Position, look: Look, on_ground: DiceBool },
    /// Tag 14. Digging at a block.
    BreakBlock { status: DiceBool, position: BlockPosition, face: u8 },
    /// Tag 15. Placing a block.
    PlaceBlock { position: BlockPosition, direction: u8 },
    /// Tag 16. Which slot the player holds.
    HandSlot { slot: i16 },
    /// Tag 17. An entity lies down in a bed.
    PlayerSleep { entity_id: i32, _unused: i8, block_position: BlockPosition },
    /// Tag 18. An entity plays an animation.
    EntityAnimation { entity_id: i32, animate: i8 },
    /// Tag 19. An entity changes posture.
    EntityAction { entity_id: i32, state: i8 },
    /// Tag 20. Another player comes into view.
    HumanSpawn { entity_id: i32, username: DiceString, position: EntityPosition, yaw: i8, pitch: i8, current_item: i16 },
    /// Tag 21. An item lies in the world.
    ItemSpawn { entity_id: i32, stack_id: i16, stack_size: i8, stack_damage: i16, position: EntityPosition, velocity: EntityVelocity },
    /// Tag 22. An entity collects an item.
    EntityPickup { target_entity_id: i32, entity_id: i32 },
    /// Tag 23. An object comes into view. Its velocity is on the wire only when `has_velocity` is true.
    ObjectSpawn { entity_id: i32, kind: i8, position: EntityPosition, has_velocity: DiceBool, velocity: Option<EntityVelocity2> },
    /// Tag 24. A creature comes into view.
    MobSpawn { entity_id: i32, kind: i8, position: EntityPosition, yaw: i8, pitch: i8 },
    /// Tag 25. A painting comes into view.
    PaintingSpawn { entity_id: i32, title: DiceString, position: EntityPosition, direction: i32 },
    /// Tag 28. How fast an entity moves.
    EntityVelocity { entity_id: i32, velocity: EntityVelocity2 },
    /// Tag 29. An entity is gone.
    EntityKill { entity_id: i32 },
    /// Tag 30. An entity exists and did nothing.
    Entity { entity_id: i32 },
    /// Tag 31. An entity moved a little.
    EntityMove { entity_id: i32, velocity: EntityVelocity },
    /// Tag 32. An entity turned.
    EntityLook { entity_id: i32, look: EntityLook },
    /// Tag 33. An entity moved a little and turned.
    EntityMoveAndLook { entity_id: i32, velocity: EntityVelocity, look: EntityLook },
    /// Tag 34. An entity moved far.
    EntityPositionAndLook { entity_id: i32, position: EntityPosition, look: EntityLook },
    /// Tag 38. Something happened to an entity.
    EntityStatus { entity_id: i32, status: i8 },
    /// Tag 39. An entity mounts another.
    EntityRide { entity_id: i32, vehicle_entity_id: i32 },
    /// Tag 40. An entity's metadata; none is carried.
    EntityMetadata { entity_id: i32 },
    /// Tag 50. A chunk is loaded or dropped.
    ChunkState { chunk_x: i32, chunk_z: i32, init: DiceBool },
    /// Tag 51. A region of blocks; `data_len` counts `data`.
    ChunkData { x: i32, y: i16, z: i32, x_size: i8, y_size: i8, z_size: i8, data_len: i32, data: Vec<u8> },
    /// Tag 52. Several blocks of one chunk change; `blocks_len` counts each of the three lists.
    ChunkBlockSet { chunk_x: i32, chunk_y: i32, blocks_len: i16, blocks_position: Vec<i16>, blocks_id: Vec<u8>, blocks_metadata: Vec<u8> },
    /// Tag 53. One block changes.
    BlockSet { position: BlockPosition, block: i8, metadata: i8 },
    /// Tag 54. A block does something.
    BlockAction { position: BlockPosition, data0: i8, data1: i8 },
    /// Tag 60. An explosion; `blocks_len` counts `blocks`.
    Explosion { x: u64, y: u64, z: u64, size: u32, blocks_len: i32, blocks: Vec<[i8; 3]> },
    /// Tag 101. A window closes.
    WindowClose { window_id: u8 },
    /// Tag 102. A click in a window.
    WindowClick { window_id: u8, slot: i16, right_click: DiceBool, transaction_id: i32, shift_click: DiceBool },
    /// Tag 106. Whether a click was accepted.
    WindowTransaction { window_id: u8, transaction_id: i32, accepted: DiceBool },
    /// Tag 130. The four lines of a sign.
    UpdateSign { x: i32, y: i16, z: i32, lines: [DiceString; 4] },
    /// Tag 255. The connection ends.
    Disconnect { reason: DiceString },
}

/// A packet as a mathematical value: what a `DicePacket` stands for.
#[allow(inconsistent_fields)]
pub enum PacketView {
    KeepAlive,
    Login { protocol_version: i32, username: Seq<u16>, random_seed: i64, dimension: u8 },
    Handshake { username: Seq<u16> },
    Chat { message: Seq<u16> },
    UpdateTime { time: i64 },
    PlayerInventory { entity_id: i32, slot: i16, item_id: i16, item_damage: i16 },
    SpawnPosition { x: i32, y: i32, z: i32 },
    Interact { player_id: i32, target_id: i32, left_click: DiceBool },
    UpdateHealth { health: i16 },
    Respawn { dimension: i8 },
    Flying { on_ground: DiceBool },
    Position { position: Position, on_ground: DiceBool },
    Look { look: Look, on_ground: DiceBool },
    PositionLook { position: Position, look: Look, on_ground: DiceBool },
    BreakBlock { status: DiceBool, position: BlockPosition, face: u8 },
    PlaceBlock { position: BlockPosition, direction: u8 },
    HandSlot { slot: i16 },
    PlayerSleep { entity_id: i32, _unused: i8, block_position: BlockPosition },
    EntityAnimation { entity_id: i32, animate: i8 },
    EntityAction { entity_id: i32, state: i8 },
    HumanSpawn { entity_id: i32, username: Seq<u16>, position: EntityPosition, yaw: i8, pitch: i8, current_item: i16 },
    ItemSpawn { entity_id: i32, stack_id: i16, stack_size: i8, stack_damage: i16, position: EntityPosition, velocity: EntityVelocity },
    EntityPickup { target_entity_id: i32, entity_id: i32 },
    ObjectSpawn { entity_id: i32, kind: i8, position: EntityPosition, has_velocity: DiceBool, velocity: Option<EntityVelocity2> },
    MobSpawn { entity_id: i32, kind: i8, position: EntityPosition, yaw: i8, pitch: i8 },
    PaintingSpawn { entity_id: i32, title: Seq<u16>, position: EntityPosition, direction: i32 },
    EntityVelocity { entity_id: i32, velocity: EntityVelocity2 },
    EntityKill { entity_id: i32 },
    Entity { entity_id: i32 },
    EntityMove { entity_id: i32, velocity: EntityVelocity },
    EntityLook { entity_id: i32, look: EntityLook },
    EntityMoveAndLook { entity_id: i32, velocity: EntityVelocity, look: EntityLook },
    EntityPositionAndLook { entity_id: i32, position: EntityPosition, look: EntityLook },
    EntityStatus { entity_id: i32, status: i8 },
    EntityRide { entity_id: i32, vehicle_entity_id: i32 },
    EntityMetadata { entity_id: i32 },
    ChunkState { chunk_x: i32, chunk_z: i32, init: DiceBool },
    ChunkData { x: i32, y: i16, z: i32, x_size: i8, y_size: i8, z_size: i8, data_len: i32, data: Seq<u8> },
    ChunkBlockSet { chunk_x: i32, chunk_y: i32, blocks_len: i16, blocks_position: Seq<i16>, blocks_id: Seq<u8>, blocks_metadata: Seq<u8> },
    BlockSet { position: BlockPosition, block: i8, metadata: i8 },
    BlockAction { position: BlockPosition, data0: i8, data1: i8 },
    Explosion { x: u64, y: u64, z: u64, size: u32, blocks_len: i32, blocks: Seq<(i8, i8, i8)> },
    WindowClose { window_id: u8 },
    WindowClick { window_id: u8, slot: i16, right_click: DiceBool, transaction_id: i32, shift_click: DiceBool },
    WindowTransaction { window_id: u8, transaction_id: i32, accepted: DiceBool },
    UpdateSign { x: i32, y: i16, z: i32, lines: (Seq<u16>, Seq<u16>, Seq<u16>, Seq<u16>) },
    Disconnect { reason: Seq<u16> },
}

impl View for DicePacket {
    type V = PacketView;

    open spec fn view(&self) -> PacketView {
        match *self {
            DicePacket::KeepAlive => PacketView::KeepAlive,
            DicePacket::Login { protocol_version, username, random_seed, dimension } => PacketView::Login { protocol_version, username: username@, random_seed, dimension },
            DicePacket::Handshake { username } => PacketView::Handshake { username: username@ },
            DicePacket::Chat { message } => PacketView::Chat { message: message@ },
            DicePacket::UpdateTime { time } => PacketView::UpdateTime { time },
            DicePacket::PlayerInventory { entity_id, slot, item_id, item_damage } => PacketView::PlayerInventory { entity_id, slot, item_id, item_damage },
            DicePacket::SpawnPosition { x, y, z } => PacketView::SpawnPosition { x, y, z },
            DicePacket::Interact { player_id, target_id, left_click } => PacketView::Interact { player_id, target_id, left_click },
            DicePacket::UpdateHealth { health } => PacketView::UpdateHealth { health },
            DicePacket::Respawn { dimension } => PacketView::Respawn { dimension },
            DicePacket::Flying { on_ground } => PacketView::Flying { on_ground },
            DicePacket::Position { position, on_ground } => PacketView::Position { position, on_ground },
            DicePacket::Look { look, on_ground } => PacketView::Look { look, on_ground },
            DicePacket::PositionLook { position, look, on_ground } => PacketView::PositionLook { position, look, on_ground },
            DicePacket::BreakBlock { status, position, face } => PacketView::BreakBlock { status, position, face },
            DicePacket::PlaceBlock { position, direction } => PacketView::PlaceBlock { position, direction },
            DicePacket::HandSlot { slot } => PacketView::HandSlot { slot },
            DicePacket::PlayerSleep { entity_id, _unused, block_position } => PacketView::PlayerSleep { entity_id, _unused, block_position },
            DicePacket::EntityAnimation { entity_id, animate } => PacketView::EntityAnimation { entity_id, animate },
            DicePacket::EntityAction { entity_id, state } => PacketView::EntityAction { entity_id, state },
            DicePacket::HumanSpawn { entity_id, username, position, yaw, pitch, current_item } => PacketView::HumanSpawn { entity_id, username: username@, position, yaw, pitch, current_item },
            DicePacket::ItemSpawn { entity_id, stack_id, stack_size, stack_damage, position, velocity } => PacketView::ItemSpawn { entity_id, stack_id, stack_size, stack_damage, position, velocity },
            DicePacket::EntityPickup { target_entity_id, entity_id } => PacketView::EntityPickup { target_entity_id, entity_id },
            DicePacket::ObjectSpawn { entity_id, kind, position, has_velocity, velocity } => PacketView::ObjectSpawn { entity_id, kind, position, has_velocity, velocity },
            DicePacket::MobSpawn { entity_id, kind, position, yaw, pitch } => PacketView::MobSpawn { entity_id, kind, position, yaw, pitch },
            DicePacket::PaintingSpawn { entity_id, title, position, direction } => PacketView::PaintingSpawn { entity_id, title: title@, position, direction },
            DicePacket::EntityVelocity { entity_id, velocity } => PacketView::EntityVelocity { entity_id, velocity },
            DicePacket::EntityKill { entity_id } => PacketView::EntityKill { entity_id },
            DicePacket::Entity { entity_id } => PacketView::Entity { entity_id },
            DicePacket::EntityMove { entity_id, velocity } => PacketView::EntityMove { entity_id, velocity },
            DicePacket::EntityLook { entity_id, look } => PacketView::EntityLook { entity_id, look },
            DicePacket::EntityMoveAndLook { entity_id, velocity, look } => PacketView::EntityMoveAndLook { entity_id, velocity, look },
            DicePacket::EntityPositionAndLook { entity_id, position, look } => PacketView::EntityPositionAndLook { entity_id, position, look },
            DicePacket::EntityStatus { entity_id, status } => PacketView::EntityStatus { entity_id, status },
            DicePacket::EntityRide { entity_id, vehicle_entity_id } => PacketView::EntityRide { entity_id, vehicle_entity_id },
            DicePacket::EntityMetadata { entity_id } => PacketView::EntityMetadata { entity_id },
            DicePacket::ChunkState { chunk_x, chunk_z, init } => PacketView::ChunkState { chunk_x, chunk_z, init },
            DicePacket::ChunkData { x, y, z, x_size, y_size, z_size, data_len, data } => PacketView::ChunkData { x, y, z, x_size, y_size, z_size, data_len, data: data@ },
            DicePacket::ChunkBlockSet { chunk_x, chunk_y, blocks_len, blocks_position, blocks_id, blocks_metadata } => PacketView::ChunkBlockSet { chunk_x, chunk_y, blocks_len, blocks_position: blocks_position@, blocks_id: blocks_id@, blocks_metadata: blocks_metadata@ },
            DicePacket::BlockSet { position, block, metadata } => PacketView::BlockSet { position, block, metadata },
            DicePacket::BlockAction { position, data0, data1 } => PacketView::BlockAction { position, data0, data1 },
            DicePacket::Explosion { x, y, z, size, blocks_len, blocks } => PacketView::Explosion { x, y, z, size, blocks_len, blocks: triples_of(blocks@) },
            DicePacket::WindowClose { window_id } => PacketView::WindowClose { window_id },
            DicePacket::WindowClick { window_id, slot, right_click, transaction_id, shift_click } => PacketView::WindowClick { window_id, slot, right_click, transaction_id, shift_click },
            DicePacket::WindowTransaction { window_id, transaction_id, accepted } => PacketView::WindowTransaction { window_id, transaction_id, accepted },
            DicePacket::UpdateSign { x, y, z, lines } => PacketView::UpdateSign { x, y, z, lines: (lines[0]@, lines[1]@, lines[2]@, lines[3]@) },
            DicePacket::Disconnect { reason } => PacketView::Disconnect { reason: reason@ },
        }
    }
}

impl PacketView {
    /// The tag that names the variant on the wire.
    pub open spec fn tag(self) -> u8 {
        match self {
            PacketView::KeepAlive => 0,
            PacketView::Login { .. } => 1,
            PacketView::Handshake { .. } => 2,
            PacketView::Chat { .. } => 3,
            PacketView::UpdateTime { .. } => 4,
            PacketView::PlayerInventory { .. } => 5,
            PacketView::SpawnPosition { .. } => 6,
            PacketView::Interact { .. } => 7,
            PacketView::UpdateHealth { .. } => 8,
            PacketView::Respawn { .. } => 9,
            PacketView::Flying { .. } => 10,
            PacketView::Position { .. } => 11,
            PacketView::Look { .. } => 12,
            PacketView::PositionLook { .. } => 13,
            PacketView::BreakBlock { .. } => 14,
            PacketView::PlaceBlock { .. } => 15,
            PacketView::HandSlot { .. } => 16,
            PacketView::PlayerSleep { .. } => 17,
            PacketView::EntityAnimation { .. } => 18,
            PacketView::EntityAction { .. } => 19,
            PacketView::HumanSpawn { .. } => 20,
            PacketView::ItemSpawn { .. } => 21,
            PacketView::EntityPickup { .. } => 22,
            PacketView::ObjectSpawn { .. } => 23,
            PacketView::MobSpawn { .. } => 24,
            PacketView::PaintingSpawn { .. } => 25,
            PacketView::EntityVelocity { .. } => 28,
            PacketView::EntityKill { .. } => 29,
            PacketView::Entity { .. } => 30,
            PacketView::EntityMove { .. } => 31,
            PacketView::EntityLook { .. } => 32,
            PacketView::EntityMoveAndLook { .. } => 33,
            PacketView::EntityPositionAndLook { .. } => 34,
            PacketView::EntityStatus { .. } => 38,
            PacketView::EntityRide { .. } => 39,
            PacketView::EntityMetadata { .. } => 40,
            PacketView::ChunkState { .. } => 50,
            PacketView::ChunkData { .. } => 51,
            PacketView::ChunkBlockSet { .. } => 52,
            PacketView::BlockSet { .. } => 53,
            PacketView::BlockAction { .. } => 54,
            PacketView::Explosion { .. } => 60,
            PacketView::WindowClose { .. } => 101,
            PacketView::WindowClick { .. } => 102,
            PacketView::WindowTransaction { .. } => 106,
            PacketView::UpdateSign { .. } => 130,
            PacketView::Disconnect { .. } => 255,
        }
    }

    /// Whether the wire can carry the packet: strings are short enough, each
    /// count is the length of what it counts, and a velocity is there exactly
    /// when its flag says so.
    pub open spec fn wf(self) -> bool {
        match self {
            PacketView::Login { username, .. } => username.len() <= 32767,
            PacketView::Handshake { username } => username.len() <= 32767,
            PacketView::Chat { message } => message.len() <= 32767,
            PacketView::HumanSpawn { username, .. } => username.len() <= 32767,
            PacketView::ObjectSpawn { has_velocity, velocity, .. } => (has_velocity is True) <==> (velocity is Some),
            PacketView::PaintingSpawn { title, .. } => title.len() <= 32767,
            PacketView::ChunkData { data_len, data, .. } => data_len == data.len(),
            PacketView::ChunkBlockSet { blocks_len, blocks_position, blocks_id, blocks_metadata, .. } => {
                &&& blocks_len == blocks_position.len()
                &&& blocks_len == blocks_id.len()
                &&& blocks_len == blocks_metadata.len()
            },
            PacketView::Explosion { blocks_len, blocks, .. } => blocks_len == blocks.len(),
            PacketView::UpdateSign { lines, .. } => {
                &&& lines.0.len() <= 32767
                &&& lines.1.len() <= 32767
                &&& lines.2.len() <= 32767
                &&& lines.3.len() <= 32767
            },
            PacketView::Disconnect { reason } => reason.len() <= 32767,
            _ => true,
        }
    }

    /// Whether two packets are of one variant.
    pub open spec fn same_variant(self, other: PacketView) -> bool {
        match self {
            PacketView::KeepAlive => other is KeepAlive,
            PacketView::Login { .. } => other is Login,
            PacketView::Handshake { .. } => other is Handshake,
            PacketView::Chat { .. } => other is Chat,
            PacketView::UpdateTime { .. } => other is UpdateTime,
            PacketView::PlayerInventory { .. } => other is PlayerInventory,
            PacketView::SpawnPosition { .. } => other is SpawnPosition,
            PacketView::Interact { .. } => other is Interact,
            PacketView::UpdateHealth { .. } => other is UpdateHealth,
            PacketView::Respawn { .. } => other is Respawn,
            PacketView::Flying { .. } => other is Flying,
            PacketView::Position { .. } => other is Position,
            PacketView::Look { .. } => other is Look,
            PacketView::PositionLook { .. } => other is PositionLook,
            PacketView::BreakBlock { .. } => other is BreakBlock,
            PacketView::PlaceBlock { .. } => other is PlaceBlock,
            PacketView::HandSlot { .. } => other is HandSlot,
            PacketView::PlayerSleep { .. } => other is PlayerSleep,
            PacketView::EntityAnimation { .. } => other is EntityAnimation,
            PacketView::EntityAction { .. } => other is EntityAction,
            PacketView::HumanSpawn { .. } => other is HumanSpawn,
            PacketView::ItemSpawn { .. } => other is ItemSpawn,
            PacketView::EntityPickup { .. } => other is EntityPickup,
            PacketView::ObjectSpawn { .. } => other is ObjectSpawn,
            PacketView::MobSpawn { .. } => other is MobSpawn,
            PacketView::PaintingSpawn { .. } => other is PaintingSpawn,
            PacketView::EntityVelocity { .. } => other is EntityVelocity,
            PacketView::EntityKill { .. } => other is EntityKill,
            PacketView::Entity { .. } => other is Entity,
            PacketView::EntityMove { .. } => other is EntityMove,
            PacketView::EntityLook { .. } => other is EntityLook,
            PacketView::EntityMoveAndLook { .. } => other is EntityMoveAndLook,
            PacketView::EntityPositionAndLook { .. } => other is EntityPositionAndLook,
            PacketView::EntityStatus { .. } => other is EntityStatus,
            PacketView::EntityRide { .. } => other is EntityRide,
            PacketView::EntityMetadata { .. } => other is EntityMetadata,
            PacketView::ChunkState { .. } => other is ChunkState,
            PacketView::ChunkData { .. } => other is ChunkData,
            PacketView::ChunkBlockSet { .. } => other is ChunkBlockSet,
            PacketView::BlockSet { .. } => other is BlockSet,
            PacketView::BlockAction { .. } => other is BlockAction,
            PacketView::Explosion { .. } => other is Explosion,
            PacketView::WindowClose { .. } => other is WindowClose,
            PacketView::WindowClick { .. } => other is WindowClick,
            PacketView::WindowTransaction { .. } => other is WindowTransaction,
            PacketView::UpdateSign { .. } => other is UpdateSign,
            PacketView::Disconnect { .. } => other is Disconnect,
        }
    }
}

impl DicePacket {
    /// Whether the wire can carry the packet.
    pub open spec fn wf(&self) -> bool {
        &&& self@.wf()
        &&& match *self {
            DicePacket::Login { username, .. } => username.wf(),
            DicePacket::Handshake { username } => username.wf(),
            DicePacket::Chat { message } => message.wf(),
            DicePacket::HumanSpawn { username, .. } => username.wf(),
            DicePacket::PaintingSpawn { title, .. } => title.wf(),
            DicePacket::UpdateSign { lines, .. } => lines[0].wf() && lines[1].wf() && lines[2].wf() && lines[3].wf(),
            DicePacket::Disconnect { reason } => reason.wf(),
            _ => true,
        }
    }

    /// The tag that names the variant on the wire.
    pub fn tag(&self) -> (r: u8)
        ensures
            r == self@.tag(),
    {
        match self {
            DicePacket::KeepAlive => 0,
            DicePacket::Login { .. } => 1,
            DicePacket::Handshake { .. } => 2,
            DicePacket::Chat { .. } => 3,
            DicePacket::UpdateTime { .. } => 4,
            DicePacket::PlayerInventory { .. } => 5,
            DicePacket::SpawnPosition { .. } => 6,
            DicePacket::Interact { .. } => 7,
            DicePacket::UpdateHealth { .. } => 8,
            DicePacket::Respawn { .. } => 9,
            DicePacket::Flying { .. } => 10,
            DicePacket::Position { .. } => 11,
            DicePacket::Look { .. } => 12,
            DicePacket::PositionLook { .. } => 13,
            DicePacket::BreakBlock { .. } => 14,
            DicePacket::PlaceBlock { .. } => 15,
            DicePacket::HandSlot { .. } => 16,
            DicePacket::PlayerSleep { .. } => 17,
            DicePacket::EntityAnimation { .. } => 18,
            DicePacket::EntityAction { .. } => 19,
            DicePacket::HumanSpawn { .. } => 20,
            DicePacket::ItemSpawn { .. } => 21,
            DicePacket::EntityPickup { .. } => 22,
            DicePacket::ObjectSpawn { .. } => 23,
            DicePacket::MobSpawn { .. } => 24,
            DicePacket::PaintingSpawn { .. } => 25,
            DicePacket::EntityVelocity { .. } => 28,
            DicePacket::EntityKill { .. } => 29,
            DicePacket::Entity { .. } => 30,
            DicePacket::EntityMove { .. } => 31,
            DicePacket::EntityLook { .. } => 32,
            DicePacket::EntityMoveAndLook { .. } => 33,
            DicePacket::EntityPositionAndLook { .. } => 34,
            DicePacket::EntityStatus { .. } => 38,
            DicePacket::EntityRide { .. } => 39,
            DicePacket::EntityMetadata { .. } => 40,
            DicePacket::ChunkState { .. } => 50,
            DicePacket::ChunkData { .. } => 51,
            DicePacket::ChunkBlockSet { .. } => 52,
            DicePacket::BlockSet { .. } => 53,
            DicePacket::BlockAction { .. } => 54,
            DicePacket::Explosion { .. } => 60,
            DicePacket::WindowClose { .. } => 101,
            DicePacket::WindowClick { .. } => 102,
            DicePacket::WindowTransaction { .. } => 106,
            DicePacket::UpdateSign { .. } => 130,
            DicePacket::Disconnect { .. } => 255,
        }
    }

    /// Tests whether the wire can carry the packet.
    pub fn is_valid(&self) -> (r: bool)
        ensures
            r == self.wf(),
    {
        match self {
            DicePacket::Login { username, .. } => {
                username.is_valid()
            },
            DicePacket::Handshake { username } => {
                username.is_valid()
            },
            DicePacket::Chat { message } => {
                message.is_valid()
            },
            DicePacket::HumanSpawn { username, .. } => {
                username.is_valid()
            },
            DicePacket::ObjectSpawn { has_velocity, velocity, .. } => {
                (*has_velocity == DiceBool::True) == velocity.is_some()
            },
            DicePacket::PaintingSpawn { title, .. } => {
                title.is_valid()
            },
            DicePacket::ChunkData { data_len, data, .. } => {
                count_is(*data_len as i64, data.len())
            },
            DicePacket::ChunkBlockSet { blocks_len, blocks_position, blocks_id, blocks_metadata, .. } => {
                count_is(*blocks_len as i64, blocks_position.len())
                    && count_is(*blocks_len as i64, blocks_id.len())
                    && count_is(*blocks_len as i64, blocks_metadata.len())
            },
            DicePacket::Explosion { blocks_len, blocks, .. } => {
                count_is(*blocks_len as i64, blocks.len())
            },
            DicePacket::UpdateSign { lines, .. } => {
                lines[0].is_valid()
                    && lines[1].is_valid()
                    && lines[2].is_valid()
                    && lines[3].is_valid()
            },
            DicePacket::Disconnect { reason } => {
                reason.is_valid()
            },
            _ => true,
        }
    }
}

/// Whether a count field holds the length of what it counts.
fn count_is(count: i64, len: usize) -> (r: bool)
    ensures
        r == (count == len),
{
    count >= 0 && (count as u64) == (len as u64)
}

} // verus!
