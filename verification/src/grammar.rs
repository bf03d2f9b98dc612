//! The frame grammar: a tag byte, then the fields of the variant it names,
//! in order, with nothing between frames.
//!
//! `spec_encode` says what a packet is on the wire and `spec_decode` what
//! the front of a byte sequence holds; the executable pair below meets them.

use crate::packet::{
    BlockPosition, DicePacket, EntityLook, EntityPosition, EntityVelocity, EntityVelocity2, Look,
    PacketView, Position,
};
use crate::primitive::{DiceBool, DiceString};
use crate::wire::{
    be_bool, be_i16, be_i32, be_i64, be_i8, be_shorts, be_string, be_triples, be_u32, be_u64,
    be_u8, lemma_concat_assoc, next_bool, next_bytes, next_count16, next_count32, next_string,
    next_triples, next_u16, triples_of, next_u32, next_u64, next_u8, next_units, val_bool,
    val_bytes, val_i16, val_i32, val_i64, val_i8, val_shorts, val_string, val_triples, val_u32,
    val_u64, val_u8, write_bool, write_bytes, write_i16, write_i32, write_i64, write_i8,
    write_shorts, write_string, write_triples, write_u32, write_u64, write_u8, Cursor, Fault,
    Reader,
};
use vstd::prelude::*;

verus! {

/// What the front of a byte sequence holds.
pub enum Parsed {
    /// One whole frame, and the bytes behind it.
    Frame(PacketView, Seq<u8>),
    /// The beginning of a frame: more bytes may complete it.
    Incomplete,
    /// No frame, whatever bytes follow.
    Malformed,
}

/// The packet read, if the reader came through all its fields.
pub open spec fn finish(c: Cursor, packet: PacketView) -> Parsed {
    match c {
        Cursor::At(rest) => Parsed::Frame(packet, rest),
        Cursor::Incomplete => Parsed::Incomplete,
        Cursor::Malformed => Parsed::Malformed,
    }
}

/// The fields of a packet, in wire order, before `tail`.
pub open spec fn fields_before(packet: PacketView, tail: Seq<u8>) -> Seq<u8> {
    match packet {
        PacketView::KeepAlive => {
            tail
        },
        PacketView::Login { protocol_version, username, random_seed, dimension } => {
            be_i32(protocol_version) + (be_string(username) + (be_i64(random_seed) + (be_u8(dimension) + tail)))
        },
        PacketView::Handshake { username } => {
            be_string(username) + tail
        },
        PacketView::Chat { message } => {
            be_string(message) + tail
        },
        PacketView::UpdateTime { time } => {
            be_i64(time) + tail
        },
        PacketView::PlayerInventory { entity_id, slot, item_id, item_damage } => {
            be_i32(entity_id) + (be_i16(slot) + (be_i16(item_id) + (be_i16(item_damage) + tail)))
        },
        PacketView::SpawnPosition { x, y, z } => {
            be_i32(x) + (be_i32(y) + (be_i32(z) + tail))
        },
        PacketView::Interact { player_id, target_id, left_click } => {
            be_i32(player_id) + (be_i32(target_id) + (be_bool(left_click) + tail))
        },
        PacketView::UpdateHealth { health } => {
            be_i16(health) + tail
        },
        PacketView::Respawn { dimension } => {
            be_i8(dimension) + tail
        },
        PacketView::Flying { on_ground } => {
            be_bool(on_ground) + tail
        },
        PacketView::Position { position, on_ground } => {
            be_u64(position.x) + (be_u64(position.y) + (be_u64(position.stance) + (be_u64(position.z) + (be_bool(on_ground) + tail))))
        },
        PacketView::Look { look, on_ground } => {
            be_u64(look.yaw) + (be_u64(look.pitch) + (be_bool(on_ground) + tail))
        },
        PacketView::PositionLook { position, look, on_ground } => {
            be_u64(position.x) + (be_u64(position.y) + (be_u64(position.stance) + (be_u64(position.z) + (be_u64(look.yaw) + (be_u64(look.pitch) + (be_bool(on_ground) + tail))))))
        },
        PacketView::BreakBlock { status, position, face } => {
            be_bool(status) + (be_i32(position.x) + (be_i8(position.y) + (be_i32(position.z) + (be_u8(face) + tail))))
        },
        PacketView::PlaceBlock { position, direction } => {
            be_i32(position.x) + (be_i8(position.y) + (be_i32(position.z) + (be_u8(direction) + tail)))
        },
        PacketView::HandSlot { slot } => {
            be_i16(slot) + tail
        },
        PacketView::PlayerSleep { entity_id, _unused, block_position } => {
            be_i32(entity_id) + (be_i8(_unused) + (be_i32(block_position.x) + (be_i8(block_position.y) + (be_i32(block_position.z) + tail))))
        },
        PacketView::EntityAnimation { entity_id, animate } => {
            be_i32(entity_id) + (be_i8(animate) + tail)
        },
        PacketView::EntityAction { entity_id, state } => {
            be_i32(entity_id) + (be_i8(state) + tail)
        },
        PacketView::HumanSpawn { entity_id, username, position, yaw, pitch, current_item } => {
            be_i32(entity_id) + (be_string(username) + (be_i32(position.x) + (be_i32(position.y) + (be_i32(position.z) + (be_i8(yaw) + (be_i8(pitch) + (be_i16(current_item) + tail)))))))
        },
        PacketView::ItemSpawn { entity_id, stack_id, stack_size, stack_damage, position, velocity } => {
            be_i32(entity_id) + (be_i16(stack_id) + (be_i8(stack_size) + (be_i16(stack_damage) + (be_i32(position.x) + (be_i32(position.y) + (be_i32(position.z) + (be_i8(velocity.x) + (be_i8(velocity.y) + (be_i8(velocity.z) + tail)))))))))
        },
        PacketView::EntityPickup { target_entity_id, entity_id } => {
            be_i32(target_entity_id) + (be_i32(entity_id) + tail)
        },
        PacketView::ObjectSpawn { entity_id, kind, position, has_velocity, velocity } => {
            be_i32(entity_id) + (be_i8(kind) + (be_i32(position.x) + (be_i32(position.y) + (be_i32(position.z) + (be_bool(has_velocity) + (match velocity { Some(v) => be_i16(v.x) + (be_i16(v.y) + (be_i16(v.z) + tail)), None => tail }))))))
        },
        PacketView::MobSpawn { entity_id, kind, position, yaw, pitch } => {
            be_i32(entity_id) + (be_i8(kind) + (be_i32(position.x) + (be_i32(position.y) + (be_i32(position.z) + (be_i8(yaw) + (be_i8(pitch) + tail))))))
        },
        PacketView::PaintingSpawn { entity_id, title, position, direction } => {
            be_i32(entity_id) + (be_string(title) + (be_i32(position.x) + (be_i32(position.y) + (be_i32(position.z) + (be_i32(direction) + tail)))))
        },
        PacketView::EntityVelocity { entity_id, velocity } => {
            be_i32(entity_id) + (be_i16(velocity.x) + (be_i16(velocity.y) + (be_i16(velocity.z) + tail)))
        },
        PacketView::EntityKill { entity_id } => {
            be_i32(entity_id) + tail
        },
        PacketView::Entity { entity_id } => {
            be_i32(entity_id) + tail
        },
        PacketView::EntityMove { entity_id, velocity } => {
            be_i32(entity_id) + (be_i8(velocity.x) + (be_i8(velocity.y) + (be_i8(velocity.z) + tail)))
        },
        PacketView::EntityLook { entity_id, look } => {
            be_i32(entity_id) + (be_i8(look.yaw) + (be_i8(look.pitch) + tail))
        },
        PacketView::EntityMoveAndLook { entity_id, velocity, look } => {
            be_i32(entity_id) + (be_i8(velocity.x) + (be_i8(velocity.y) + (be_i8(velocity.z) + (be_i8(look.yaw) + (be_i8(look.pitch) + tail)))))
        },
        PacketView::EntityPositionAndLook { entity_id, position, look } => {
            be_i32(entity_id) + (be_i32(position.x) + (be_i32(position.y) + (be_i32(position.z) + (be_i8(look.yaw) + (be_i8(look.pitch) + tail)))))
        },
        PacketView::EntityStatus { entity_id, status } => {
            be_i32(entity_id) + (be_i8(status) + tail)
        },
        PacketView::EntityRide { entity_id, vehicle_entity_id } => {
            be_i32(entity_id) + (be_i32(vehicle_entity_id) + tail)
        },
        PacketView::EntityMetadata { entity_id } => {
            be_i32(entity_id) + tail
        },
        PacketView::ChunkState { chunk_x, chunk_z, init } => {
            be_i32(chunk_x) + (be_i32(chunk_z) + (be_bool(init) + tail))
        },
        PacketView::ChunkData { x, y, z, x_size, y_size, z_size, data_len, data } => {
            be_i32(x) + (be_i16(y) + (be_i32(z) + (be_i8(x_size) + (be_i8(y_size) + (be_i8(z_size) + (be_i32(data_len) + (data + tail)))))))
        },
        PacketView::ChunkBlockSet { chunk_x, chunk_y, blocks_len, blocks_position, blocks_id, blocks_metadata } => {
            be_i32(chunk_x) + (be_i32(chunk_y) + (be_i16(blocks_len) + (be_shorts(blocks_position) + (blocks_id + (blocks_metadata + tail)))))
        },
        PacketView::BlockSet { position, block, metadata } => {
            be_i32(position.x) + (be_i8(position.y) + (be_i32(position.z) + (be_i8(block) + (be_i8(metadata) + tail))))
        },
        PacketView::BlockAction { position, data0, data1 } => {
            be_i32(position.x) + (be_i8(position.y) + (be_i32(position.z) + (be_i8(data0) + (be_i8(data1) + tail))))
        },
        PacketView::Explosion { x, y, z, size, blocks_len, blocks } => {
            be_u64(x) + (be_u64(y) + (be_u64(z) + (be_u32(size) + (be_i32(blocks_len) + (be_triples(blocks) + tail)))))
        },
        PacketView::WindowClose { window_id } => {
            be_u8(window_id) + tail
        },
        PacketView::WindowClick { window_id, slot, right_click, transaction_id, shift_click } => {
            be_u8(window_id) + (be_i16(slot) + (be_bool(right_click) + (be_i32(transaction_id) + (be_bool(shift_click) + tail))))
        },
        PacketView::WindowTransaction { window_id, transaction_id, accepted } => {
            be_u8(window_id) + (be_i32(transaction_id) + (be_bool(accepted) + tail))
        },
        PacketView::UpdateSign { x, y, z, lines } => {
            be_i32(x) + (be_i16(y) + (be_i32(z) + (be_string(lines.0) + (be_string(lines.1) + (be_string(lines.2) + (be_string(lines.3) + tail))))))
        },
        PacketView::Disconnect { reason } => {
            be_string(reason) + tail
        },
    }
}

/// A packet's frame before `tail`: its tag, then its fields.
pub open spec fn frame_before(packet: PacketView, tail: Seq<u8>) -> Seq<u8> {
    be_u8(packet.tag()) + fields_before(packet, tail)
}

/// A packet's frame: what `encode` writes for it.
pub open spec fn spec_encode(packet: PacketView) -> Seq<u8> {
    frame_before(packet, Seq::empty())
}

/// The fields of `Login`, read from `c0`.
#[verifier::opaque]
pub open spec fn decode_login(c0: Cursor) -> Parsed {
    let c1 = next_u32(c0);
    let c2 = next_string(c1);
    let c3 = next_u64(c2);
    let c4 = next_u8(c3);
    finish(
        c4,
        PacketView::Login {
            protocol_version: val_i32(c0),
            username: val_string(c1),
            random_seed: val_i64(c2),
            dimension: val_u8(c3),
        },
    )
}

/// The fields of `Handshake`, read from `c0`.
#[verifier::opaque]
pub open spec fn decode_handshake(c0: Cursor) -> Parsed {
    let c1 = next_string(c0);
    finish(
        c1,
        PacketView::Handshake {
            username: val_string(c0),
        },
    )
}

/// The fields of `Chat`, read from `c0`.
#[verifier::opaque]
pub open spec fn decode_chat(c0: Cursor) -> Parsed {
    let c1 = next_string(c0);
    finish(
        c1,
        PacketView::Chat {
            message: val_string(c0),
        },
    )
}

/// The fields of `UpdateTime`, read from `c0`.
#[verifier::opaque]
pub open spec fn decode_update_time(c0: Cursor) -> Parsed {
    let c1 = next_u64(c0);
    finish(
        c1,
        PacketView::UpdateTime {
            time: val_i64(c0),
        },
    )
}

/// The fields of `PlayerInventory`, read from `c0`.
#[verifier::opaque]
pub open spec fn decode_player_inventory(c0: Cursor) -> Parsed {
    let c1 = next_u32(c0);
    let c2 = next_u16(c1);
    let c3 = next_u16(c2);
    let c4 = next_u16(c3);
    finish(
        c4,
        PacketView::PlayerInventory {
            entity_id: val_i32(c0),
            slot: val_i16(c1),
            item_id: val_i16(c2),
            item_damage: val_i16(c3),
        },
    )
}

/// The fields of `SpawnPosition`, read from `c0`.
#[verifier::opaque]
pub open spec fn decode_spawn_position(c0: Cursor) -> Parsed {
    let c1 = next_u32(c0);
    let c2 = next_u32(c1);
    let c3 = next_u32(c2);
    finish(
        c3,
        PacketView::SpawnPosition {
            x: val_i32(c0),
            y: val_i32(c1),
            z: val_i32(c2),
        },
    )
}

/// The fields of `Interact`, read from `c0`.
#[verifier::opaque]
pub open spec fn decode_interact(c0: Cursor) -> Parsed {
    let c1 = next_u32(c0);
    let c2 = next_u32(c1);
    let c3 = next_bool(c2);
    finish(
        c3,
        PacketView::Interact {
            player_id: val_i32(c0),
            target_id: val_i32(c1),
            left_click: val_bool(c2),
        },
    )
}

/// The fields of `UpdateHealth`, read from `c0`.
#[verifier::opaque]
pub open spec fn decode_update_health(c0: Cursor) -> Parsed {
    let c1 = next_u16(c0);
    finish(
        c1,
        PacketView::UpdateHealth {
            health: val_i16(c0),
        },
    )
}

/// The fields of `Respawn`, read from `c0`.
#[verifier::opaque]
pub open spec fn decode_respawn(c0: Cursor) -> Parsed {
    let c1 = next_u8(c0);
    finish(
        c1,
        PacketView::Respawn {
            dimension: val_i8(c0),
        },
    )
}

/// The fields of `Flying`, read from `c0`.
#[verifier::opaque]
pub open spec fn decode_flying(c0: Cursor) -> Parsed {
    let c1 = next_bool(c0);
    finish(
        c1,
        PacketView::Flying {
            on_ground: val_bool(c0),
        },
    )
}

/// The fields of `Position`, read from `c0`.
#[verifier::opaque]
pub open spec fn decode_position(c0: Cursor) -> Parsed {
    let c1 = next_u64(c0);
    let c2 = next_u64(c1);
    let c3 = next_u64(c2);
    let c4 = next_u64(c3);
    let c5 = next_bool(c4);
    finish(
        c5,
        PacketView::Position {
            position: Position { x: val_u64(c0), y: val_u64(c1), stance: val_u64(c2), z: val_u64(c3) },
            on_ground: val_bool(c4),
        },
    )
}

/// The fields of `Look`, read from `c0`.
#[verifier::opaque]
pub open spec fn decode_look(c0: Cursor) -> Parsed {
    let c1 = next_u64(c0);
    let c2 = next_u64(c1);
    let c3 = next_bool(c2);
    finish(
        c3,
        PacketView::Look {
            look: Look { yaw: val_u64(c0), pitch: val_u64(c1) },
            on_ground: val_bool(c2),
        },
    )
}

/// The fields of `PositionLook`, read from `c0`.
#[verifier::opaque]
pub open spec fn decode_position_look(c0: Cursor) -> Parsed {
    let c1 = next_u64(c0);
    let c2 = next_u64(c1);
    let c3 = next_u64(c2);
    let c4 = next_u64(c3);
    let c5 = next_u64(c4);
    let c6 = next_u64(c5);
    let c7 = next_bool(c6);
    finish(
        c7,
        PacketView::PositionLook {
            position: Position { x: val_u64(c0), y: val_u64(c1), stance: val_u64(c2), z: val_u64(c3) },
            look: Look { yaw: val_u64(c4), pitch: val_u64(c5) },
            on_ground: val_bool(c6),
        },
    )
}

/// The fields of `BreakBlock`, read from `c0`.
#[verifier::opaque]
pub open spec fn decode_break_block(c0: Cursor) -> Parsed {
    let c1 = next_bool(c0);
    let c2 = next_u32(c1);
    let c3 = next_u8(c2);
    let c4 = next_u32(c3);
    let c5 = next_u8(c4);
    finish(
        c5,
        PacketView::BreakBlock {
            status: val_bool(c0),
            position: BlockPosition { x: val_i32(c1), y: val_i8(c2), z: val_i32(c3) },
            face: val_u8(c4),
        },
    )
}

/// The fields of `PlaceBlock`, read from `c0`.
#[verifier::opaque]
pub open spec fn decode_place_block(c0: Cursor) -> Parsed {
    let c1 = next_u32(c0);
    let c2 = next_u8(c1);
    let c3 = next_u32(c2);
    let c4 = next_u8(c3);
    finish(
        c4,
        PacketView::PlaceBlock {
            position: BlockPosition { x: val_i32(c0), y: val_i8(c1), z: val_i32(c2) },
            direction: val_u8(c3),
        },
    )
}

/// The fields of `HandSlot`, read from `c0`.
#[verifier::opaque]
pub open spec fn decode_hand_slot(c0: Cursor) -> Parsed {
    let c1 = next_u16(c0);
    finish(
        c1,
        PacketView::HandSlot {
            slot: val_i16(c0),
        },
    )
}

/// The fields of `PlayerSleep`, read from `c0`.
#[verifier::opaque]
pub open spec fn decode_player_sleep(c0: Cursor) -> Parsed {
    let c1 = next_u32(c0);
    let c2 = next_u8(c1);
    let c3 = next_u32(c2);
    let c4 = next_u8(c3);
    let c5 = next_u32(c4);
    finish(
        c5,
        PacketView::PlayerSleep {
            entity_id: val_i32(c0),
            _unused: val_i8(c1),
            block_position: BlockPosition { x: val_i32(c2), y: val_i8(c3), z: val_i32(c4) },
        },
    )
}

/// The fields of `EntityAnimation`, read from `c0`.
#[verifier::opaque]
pub open spec fn decode_entity_animation(c0: Cursor) -> Parsed {
    let c1 = next_u32(c0);
    let c2 = next_u8(c1);
    finish(
        c2,
        PacketView::EntityAnimation {
            entity_id: val_i32(c0),
            animate: val_i8(c1),
        },
    )
}

/// The fields of `EntityAction`, read from `c0`.
#[verifier::opaque]
pub open spec fn decode_entity_action(c0: Cursor) -> Parsed {
    let c1 = next_u32(c0);
    let c2 = next_u8(c1);
    finish(
        c2,
        PacketView::EntityAction {
            entity_id: val_i32(c0),
            state: val_i8(c1),
        },
    )
}

/// The fields of `HumanSpawn`, read from `c0`.
#[verifier::opaque]
pub open spec fn decode_human_spawn(c0: Cursor) -> Parsed {
    let c1 = next_u32(c0);
    let c2 = next_string(c1);
    let c3 = next_u32(c2);
    let c4 = next_u32(c3);
    let c5 = next_u32(c4);
    let c6 = next_u8(c5);
    let c7 = next_u8(c6);
    let c8 = next_u16(c7);
    finish(
        c8,
        PacketView::HumanSpawn {
            entity_id: val_i32(c0),
            username: val_string(c1),
            position: EntityPosition { x: val_i32(c2), y: val_i32(c3), z: val_i32(c4) },
            yaw: val_i8(c5),
            pitch: val_i8(c6),
            current_item: val_i16(c7),
        },
    )
}

/// The fields of `ItemSpawn`, read from `c0`.
#[verifier::opaque]
pub open spec fn decode_item_spawn(c0: Cursor) -> Parsed {
    let c1 = next_u32(c0);
    let c2 = next_u16(c1);
    let c3 = next_u8(c2);
    let c4 = next_u16(c3);
    let c5 = next_u32(c4);
    let c6 = next_u32(c5);
    let c7 = next_u32(c6);
    let c8 = next_u8(c7);
    let c9 = next_u8(c8);
    let c10 = next_u8(c9);
    finish(
        c10,
        PacketView::ItemSpawn {
            entity_id: val_i32(c0),
            stack_id: val_i16(c1),
            stack_size: val_i8(c2),
            stack_damage: val_i16(c3),
            position: EntityPosition { x: val_i32(c4), y: val_i32(c5), z: val_i32(c6) },
            velocity: EntityVelocity { x: val_i8(c7), y: val_i8(c8), z: val_i8(c9) },
        },
    )
}

/// The fields of `EntityPickup`, read from `c0`.
#[verifier::opaque]
pub open spec fn decode_entity_pickup(c0: Cursor) -> Parsed {
    let c1 = next_u32(c0);
    let c2 = next_u32(c1);
    finish(
        c2,
        PacketView::EntityPickup {
            target_entity_id: val_i32(c0),
            entity_id: val_i32(c1),
        },
    )
}

/// The fields of `ObjectSpawn`, read from `c0`.
#[verifier::opaque]
pub open spec fn decode_object_spawn(c0: Cursor) -> Parsed {
    let c1 = next_u32(c0);
    let c2 = next_u8(c1);
    let c3 = next_u32(c2);
    let c4 = next_u32(c3);
    let c5 = next_u32(c4);
    let c6 = next_bool(c5);
    let c7 = if val_bool(c5) is True { next_u16(c6) } else { c6 };
    let c8 = if val_bool(c5) is True { next_u16(c7) } else { c7 };
    let c9 = if val_bool(c5) is True { next_u16(c8) } else { c8 };
    finish(
        c9,
        PacketView::ObjectSpawn {
            entity_id: val_i32(c0),
            kind: val_i8(c1),
            position: EntityPosition { x: val_i32(c2), y: val_i32(c3), z: val_i32(c4) },
            has_velocity: val_bool(c5),
            velocity: if val_bool(c5) is True {
                Some(EntityVelocity2 { x: val_i16(c6), y: val_i16(c7), z: val_i16(c8) })
            } else {
                None
            },
        },
    )
}

/// The fields of `MobSpawn`, read from `c0`.
#[verifier::opaque]
pub open spec fn decode_mob_spawn(c0: Cursor) -> Parsed {
    let c1 = next_u32(c0);
    let c2 = next_u8(c1);
    let c3 = next_u32(c2);
    let c4 = next_u32(c3);
    let c5 = next_u32(c4);
    let c6 = next_u8(c5);
    let c7 = next_u8(c6);
    finish(
        c7,
        PacketView::MobSpawn {
            entity_id: val_i32(c0),
            kind: val_i8(c1),
            position: EntityPosition { x: val_i32(c2), y: val_i32(c3), z: val_i32(c4) },
            yaw: val_i8(c5),
            pitch: val_i8(c6),
        },
    )
}

/// The fields of `PaintingSpawn`, read from `c0`.
#[verifier::opaque]
pub open spec fn decode_painting_spawn(c0: Cursor) -> Parsed {
    let c1 = next_u32(c0);
    let c2 = next_string(c1);
    let c3 = next_u32(c2);
    let c4 = next_u32(c3);
    let c5 = next_u32(c4);
    let c6 = next_u32(c5);
    finish(
        c6,
        PacketView::PaintingSpawn {
            entity_id: val_i32(c0),
            title: val_string(c1),
            position: EntityPosition { x: val_i32(c2), y: val_i32(c3), z: val_i32(c4) },
            direction: val_i32(c5),
        },
    )
}

/// The fields of `EntityVelocity`, read from `c0`.
#[verifier::opaque]
pub open spec fn decode_entity_velocity(c0: Cursor) -> Parsed {
    let c1 = next_u32(c0);
    let c2 = next_u16(c1);
    let c3 = next_u16(c2);
    let c4 = next_u16(c3);
    finish(
        c4,
        PacketView::EntityVelocity {
            entity_id: val_i32(c0),
            velocity: EntityVelocity2 { x: val_i16(c1), y: val_i16(c2), z: val_i16(c3) },
        },
    )
}

/// The fields of `EntityKill`, read from `c0`.
#[verifier::opaque]
pub open spec fn decode_entity_kill(c0: Cursor) -> Parsed {
    let c1 = next_u32(c0);
    finish(
        c1,
        PacketView::EntityKill {
            entity_id: val_i32(c0),
        },
    )
}

/// The fields of `Entity`, read from `c0`.
#[verifier::opaque]
pub open spec fn decode_entity(c0: Cursor) -> Parsed {
    let c1 = next_u32(c0);
    finish(
        c1,
        PacketView::Entity {
            entity_id: val_i32(c0),
        },
    )
}

/// The fields of `EntityMove`, read from `c0`.
#[verifier::opaque]
pub open spec fn decode_entity_move(c0: Cursor) -> Parsed {
    let c1 = next_u32(c0);
    let c2 = next_u8(c1);
    let c3 = next_u8(c2);
    let c4 = next_u8(c3);
    finish(
        c4,
        PacketView::EntityMove {
            entity_id: val_i32(c0),
            velocity: EntityVelocity { x: val_i8(c1), y: val_i8(c2), z: val_i8(c3) },
        },
    )
}

/// The fields of `EntityLook`, read from `c0`.
#[verifier::opaque]
pub open spec fn decode_entity_look(c0: Cursor) -> Parsed {
    let c1 = next_u32(c0);
    let c2 = next_u8(c1);
    let c3 = next_u8(c2);
    finish(
        c3,
        PacketView::EntityLook {
            entity_id: val_i32(c0),
            look: EntityLook { yaw: val_i8(c1), pitch: val_i8(c2) },
        },
    )
}

/// The fields of `EntityMoveAndLook`, read from `c0`.
#[verifier::opaque]
pub open spec fn decode_entity_move_and_look(c0: Cursor) -> Parsed {
    let c1 = next_u32(c0);
    let c2 = next_u8(c1);
    let c3 = next_u8(c2);
    let c4 = next_u8(c3);
    let c5 = next_u8(c4);
    let c6 = next_u8(c5);
    finish(
        c6,
        PacketView::EntityMoveAndLook {
            entity_id: val_i32(c0),
            velocity: EntityVelocity { x: val_i8(c1), y: val_i8(c2), z: val_i8(c3) },
            look: EntityLook { yaw: val_i8(c4), pitch: val_i8(c5) },
        },
    )
}

/// The fields of `EntityPositionAndLook`, read from `c0`.
#[verifier::opaque]
pub open spec fn decode_entity_position_and_look(c0: Cursor) -> Parsed {
    let c1 = next_u32(c0);
    let c2 = next_u32(c1);
    let c3 = next_u32(c2);
    let c4 = next_u32(c3);
    let c5 = next_u8(c4);
    let c6 = next_u8(c5);
    finish(
        c6,
        PacketView::EntityPositionAndLook {
            entity_id: val_i32(c0),
            position: EntityPosition { x: val_i32(c1), y: val_i32(c2), z: val_i32(c3) },
            look: EntityLook { yaw: val_i8(c4), pitch: val_i8(c5) },
        },
    )
}

/// The fields of `EntityStatus`, read from `c0`.
#[verifier::opaque]
pub open spec fn decode_entity_status(c0: Cursor) -> Parsed {
    let c1 = next_u32(c0);
    let c2 = next_u8(c1);
    finish(
        c2,
        PacketView::EntityStatus {
            entity_id: val_i32(c0),
            status: val_i8(c1),
        },
    )
}

/// The fields of `EntityRide`, read from `c0`.
#[verifier::opaque]
pub open spec fn decode_entity_ride(c0: Cursor) -> Parsed {
    let c1 = next_u32(c0);
    let c2 = next_u32(c1);
    finish(
        c2,
        PacketView::EntityRide {
            entity_id: val_i32(c0),
            vehicle_entity_id: val_i32(c1),
        },
    )
}

/// The fields of `EntityMetadata`, read from `c0`.
#[verifier::opaque]
pub open spec fn decode_entity_metadata(c0: Cursor) -> Parsed {
    let c1 = next_u32(c0);
    finish(
        c1,
        PacketView::EntityMetadata {
            entity_id: val_i32(c0),
        },
    )
}

/// The fields of `ChunkState`, read from `c0`.
#[verifier::opaque]
pub open spec fn decode_chunk_state(c0: Cursor) -> Parsed {
    let c1 = next_u32(c0);
    let c2 = next_u32(c1);
    let c3 = next_bool(c2);
    finish(
        c3,
        PacketView::ChunkState {
            chunk_x: val_i32(c0),
            chunk_z: val_i32(c1),
            init: val_bool(c2),
        },
    )
}

/// The fields of `ChunkData`, read from `c0`.
#[verifier::opaque]
pub open spec fn decode_chunk_data(c0: Cursor) -> Parsed {
    let c1 = next_u32(c0);
    let c2 = next_u16(c1);
    let c3 = next_u32(c2);
    let c4 = next_u8(c3);
    let c5 = next_u8(c4);
    let c6 = next_u8(c5);
    let c7 = next_count32(c6);
    let c8 = next_bytes(c7, val_i32(c6) as int);
    finish(
        c8,
        PacketView::ChunkData {
            x: val_i32(c0),
            y: val_i16(c1),
            z: val_i32(c2),
            x_size: val_i8(c3),
            y_size: val_i8(c4),
            z_size: val_i8(c5),
            data_len: val_i32(c6),
            data: val_bytes(c7, val_i32(c6) as int),
        },
    )
}

/// The fields of `ChunkBlockSet`, read from `c0`.
#[verifier::opaque]
pub open spec fn decode_chunk_block_set(c0: Cursor) -> Parsed {
    let c1 = next_u32(c0);
    let c2 = next_u32(c1);
    let c3 = next_count16(c2);
    let c4 = next_units(c3, val_i16(c2) as int);
    let c5 = next_bytes(c4, val_i16(c2) as int);
    let c6 = next_bytes(c5, val_i16(c2) as int);
    finish(
        c6,
        PacketView::ChunkBlockSet {
            chunk_x: val_i32(c0),
            chunk_y: val_i32(c1),
            blocks_len: val_i16(c2),
            blocks_position: val_shorts(c3, val_i16(c2) as int),
            blocks_id: val_bytes(c4, val_i16(c2) as int),
            blocks_metadata: val_bytes(c5, val_i16(c2) as int),
        },
    )
}

/// The fields of `BlockSet`, read from `c0`.
#[verifier::opaque]
pub open spec fn decode_block_set(c0: Cursor) -> Parsed {
    let c1 = next_u32(c0);
    let c2 = next_u8(c1);
    let c3 = next_u32(c2);
    let c4 = next_u8(c3);
    let c5 = next_u8(c4);
    finish(
        c5,
        PacketView::BlockSet {
            position: BlockPosition { x: val_i32(c0), y: val_i8(c1), z: val_i32(c2) },
            block: val_i8(c3),
            metadata: val_i8(c4),
        },
    )
}

/// The fields of `BlockAction`, read from `c0`.
#[verifier::opaque]
pub open spec fn decode_block_action(c0: Cursor) -> Parsed {
    let c1 = next_u32(c0);
    let c2 = next_u8(c1);
    let c3 = next_u32(c2);
    let c4 = next_u8(c3);
    let c5 = next_u8(c4);
    finish(
        c5,
        PacketView::BlockAction {
            position: BlockPosition { x: val_i32(c0), y: val_i8(c1), z: val_i32(c2) },
            data0: val_i8(c3),
            data1: val_i8(c4),
        },
    )
}

/// The fields of `Explosion`, read from `c0`.
#[verifier::opaque]
pub open spec fn decode_explosion(c0: Cursor) -> Parsed {
    let c1 = next_u64(c0);
    let c2 = next_u64(c1);
    let c3 = next_u64(c2);
    let c4 = next_u32(c3);
    let c5 = next_count32(c4);
    let c6 = next_triples(c5, val_i32(c4) as int);
    finish(
        c6,
        PacketView::Explosion {
            x: val_u64(c0),
            y: val_u64(c1),
            z: val_u64(c2),
            size: val_u32(c3),
            blocks_len: val_i32(c4),
            blocks: val_triples(c5, val_i32(c4) as int),
        },
    )
}

/// The fields of `WindowClose`, read from `c0`.
#[verifier::opaque]
pub open spec fn decode_window_close(c0: Cursor) -> Parsed {
    let c1 = next_u8(c0);
    finish(
        c1,
        PacketView::WindowClose {
            window_id: val_u8(c0),
        },
    )
}

/// The fields of `WindowClick`, read from `c0`.
#[verifier::opaque]
pub open spec fn decode_window_click(c0: Cursor) -> Parsed {
    let c1 = next_u8(c0);
    let c2 = next_u16(c1);
    let c3 = next_bool(c2);
    let c4 = next_u32(c3);
    let c5 = next_bool(c4);
    finish(
        c5,
        PacketView::WindowClick {
            window_id: val_u8(c0),
            slot: val_i16(c1),
            right_click: val_bool(c2),
            transaction_id: val_i32(c3),
            shift_click: val_bool(c4),
        },
    )
}

/// The fields of `WindowTransaction`, read from `c0`.
#[verifier::opaque]
pub open spec fn decode_window_transaction(c0: Cursor) -> Parsed {
    let c1 = next_u8(c0);
    let c2 = next_u32(c1);
    let c3 = next_bool(c2);
    finish(
        c3,
        PacketView::WindowTransaction {
            window_id: val_u8(c0),
            transaction_id: val_i32(c1),
            accepted: val_bool(c2),
        },
    )
}

/// The fields of `UpdateSign`, read from `c0`.
#[verifier::opaque]
pub open spec fn decode_update_sign(c0: Cursor) -> Parsed {
    let c1 = next_u32(c0);
    let c2 = next_u16(c1);
    let c3 = next_u32(c2);
    let c4 = next_string(c3);
    let c5 = next_string(c4);
    let c6 = next_string(c5);
    let c7 = next_string(c6);
    finish(
        c7,
        PacketView::UpdateSign {
            x: val_i32(c0),
            y: val_i16(c1),
            z: val_i32(c2),
            lines: (val_string(c3), val_string(c4), val_string(c5), val_string(c6)),
        },
    )
}

/// The fields of `Disconnect`, read from `c0`.
#[verifier::opaque]
pub open spec fn decode_disconnect(c0: Cursor) -> Parsed {
    let c1 = next_string(c0);
    finish(
        c1,
        PacketView::Disconnect {
            reason: val_string(c0),
        },
    )
}

/// The fields that follow the tag, read from `c`. A tag that names no
/// variant is malformed at once.
#[verifier::opaque]
pub open spec fn decode_fields(tag: u8, c: Cursor) -> Parsed {
    if tag == 0 {
        finish(c, PacketView::KeepAlive)
    } else if tag == 1 {
        decode_login(c)
    } else if tag == 2 {
        decode_handshake(c)
    } else if tag == 3 {
        decode_chat(c)
    } else if tag == 4 {
        decode_update_time(c)
    } else if tag == 5 {
        decode_player_inventory(c)
    } else if tag == 6 {
        decode_spawn_position(c)
    } else if tag == 7 {
        decode_interact(c)
    } else if tag == 8 {
        decode_update_health(c)
    } else if tag == 9 {
        decode_respawn(c)
    } else if tag == 10 {
        decode_flying(c)
    } else if tag == 11 {
        decode_position(c)
    } else if tag == 12 {
        decode_look(c)
    } else if tag == 13 {
        decode_position_look(c)
    } else if tag == 14 {
        decode_break_block(c)
    } else if tag == 15 {
        decode_place_block(c)
    } else if tag == 16 {
        decode_hand_slot(c)
    } else if tag == 17 {
        decode_player_sleep(c)
    } else if tag == 18 {
        decode_entity_animation(c)
    } else if tag == 19 {
        decode_entity_action(c)
    } else if tag == 20 {
        decode_human_spawn(c)
    } else if tag == 21 {
        decode_item_spawn(c)
    } else if tag == 22 {
        decode_entity_pickup(c)
    } else if tag == 23 {
        decode_object_spawn(c)
    } else if tag == 24 {
        decode_mob_spawn(c)
    } else if tag == 25 {
        decode_painting_spawn(c)
    } else if tag == 28 {
        decode_entity_velocity(c)
    } else if tag == 29 {
        decode_entity_kill(c)
    } else if tag == 30 {
        decode_entity(c)
    } else if tag == 31 {
        decode_entity_move(c)
    } else if tag == 32 {
        decode_entity_look(c)
    } else if tag == 33 {
        decode_entity_move_and_look(c)
    } else if tag == 34 {
        decode_entity_position_and_look(c)
    } else if tag == 38 {
        decode_entity_status(c)
    } else if tag == 39 {
        decode_entity_ride(c)
    } else if tag == 40 {
        decode_entity_metadata(c)
    } else if tag == 50 {
        decode_chunk_state(c)
    } else if tag == 51 {
        decode_chunk_data(c)
    } else if tag == 52 {
        decode_chunk_block_set(c)
    } else if tag == 53 {
        decode_block_set(c)
    } else if tag == 54 {
        decode_block_action(c)
    } else if tag == 60 {
        decode_explosion(c)
    } else if tag == 101 {
        decode_window_close(c)
    } else if tag == 102 {
        decode_window_click(c)
    } else if tag == 106 {
        decode_window_transaction(c)
    } else if tag == 130 {
        decode_update_sign(c)
    } else if tag == 255 {
        decode_disconnect(c)
    } else {
        Parsed::Malformed
    }
}

/// What the front of `s` holds: the frame that its first byte names, read
/// field by field. The first field that cannot be read decides between
/// `Incomplete` and `Malformed`.
pub open spec fn spec_decode(s: Seq<u8>) -> Parsed {
    if s.len() == 0 {
        Parsed::Incomplete
    } else {
        decode_fields(s[0], Cursor::At(s.skip(1)))
    }
}

/// Whether a tag names a variant.
pub open spec fn known_tag(tag: u8) -> bool {
    ||| tag <= 25
    ||| 28 <= tag <= 34
    ||| 38 <= tag <= 40
    ||| 50 <= tag <= 54
    ||| tag == 60
    ||| 101 <= tag <= 102
    ||| tag == 106
    ||| tag == 130
    ||| tag == 255
}

/// What a parse reports, held against what the bytes hold.
pub open spec fn reported(out: Result<DicePacket, Fault>, parsed: Parsed, now: Cursor) -> bool {
    match out {
        Ok(packet) => packet.wf() && now is At && parsed == Parsed::Frame(packet@, now->At_0),
        Err(Fault::Incomplete) => parsed is Incomplete,
        Err(Fault::Malformed) => parsed is Malformed,
    }
}

fn parse_login(r: &mut Reader) -> (out: Result<DicePacket, Fault>)
    requires
        old(r).wf(),
    ensures
        final(r).wf(),
        final(r).bytes() == old(r).bytes(),
        old(r).offset() <= final(r).offset(),
        reported(out, decode_login(old(r).cursor()), final(r).cursor()),
{
    reveal(decode_login);
    let protocol_version: i32 = r.read_i32()?;
    let username: DiceString = r.read_string()?;
    let random_seed: i64 = r.read_i64()?;
    let dimension: u8 = r.read_u8()?;
    Ok(DicePacket::Login { protocol_version, username, random_seed, dimension })
}

fn parse_handshake(r: &mut Reader) -> (out: Result<DicePacket, Fault>)
    requires
        old(r).wf(),
    ensures
        final(r).wf(),
        final(r).bytes() == old(r).bytes(),
        old(r).offset() <= final(r).offset(),
        reported(out, decode_handshake(old(r).cursor()), final(r).cursor()),
{
    reveal(decode_handshake);
    let username: DiceString = r.read_string()?;
    Ok(DicePacket::Handshake { username })
}

fn parse_chat(r: &mut Reader) -> (out: Result<DicePacket, Fault>)
    requires
        old(r).wf(),
    ensures
        final(r).wf(),
        final(r).bytes() == old(r).bytes(),
        old(r).offset() <= final(r).offset(),
        reported(out, decode_chat(old(r).cursor()), final(r).cursor()),
{
    reveal(decode_chat);
    let message: DiceString = r.read_string()?;
    Ok(DicePacket::Chat { message })
}

fn parse_update_time(r: &mut Reader) -> (out: Result<DicePacket, Fault>)
    requires
        old(r).wf(),
    ensures
        final(r).wf(),
        final(r).bytes() == old(r).bytes(),
        old(r).offset() <= final(r).offset(),
        reported(out, decode_update_time(old(r).cursor()), final(r).cursor()),
{
    reveal(decode_update_time);
    let time: i64 = r.read_i64()?;
    Ok(DicePacket::UpdateTime { time })
}

fn parse_player_inventory(r: &mut Reader) -> (out: Result<DicePacket, Fault>)
    requires
        old(r).wf(),
    ensures
        final(r).wf(),
        final(r).bytes() == old(r).bytes(),
        old(r).offset() <= final(r).offset(),
        reported(out, decode_player_inventory(old(r).cursor()), final(r).cursor()),
{
    reveal(decode_player_inventory);
    let entity_id: i32 = r.read_i32()?;
    let slot: i16 = r.read_i16()?;
    let item_id: i16 = r.read_i16()?;
    let item_damage: i16 = r.read_i16()?;
    Ok(DicePacket::PlayerInventory { entity_id, slot, item_id, item_damage })
}

fn parse_spawn_position(r: &mut Reader) -> (out: Result<DicePacket, Fault>)
    requires
        old(r).wf(),
    ensures
        final(r).wf(),
        final(r).bytes() == old(r).bytes(),
        old(r).offset() <= final(r).offset(),
        reported(out, decode_spawn_position(old(r).cursor()), final(r).cursor()),
{
    reveal(decode_spawn_position);
    let x: i32 = r.read_i32()?;
    let y: i32 = r.read_i32()?;
    let z: i32 = r.read_i32()?;
    Ok(DicePacket::SpawnPosition { x, y, z })
}

fn parse_interact(r: &mut Reader) -> (out: Result<DicePacket, Fault>)
    requires
        old(r).wf(),
    ensures
        final(r).wf(),
        final(r).bytes() == old(r).bytes(),
        old(r).offset() <= final(r).offset(),
        reported(out, decode_interact(old(r).cursor()), final(r).cursor()),
{
    reveal(decode_interact);
    let player_id: i32 = r.read_i32()?;
    let target_id: i32 = r.read_i32()?;
    let left_click: DiceBool = r.read_bool()?;
    Ok(DicePacket::Interact { player_id, target_id, left_click })
}

fn parse_update_health(r: &mut Reader) -> (out: Result<DicePacket, Fault>)
    requires
        old(r).wf(),
    ensures
        final(r).wf(),
        final(r).bytes() == old(r).bytes(),
        old(r).offset() <= final(r).offset(),
        reported(out, decode_update_health(old(r).cursor()), final(r).cursor()),
{
    reveal(decode_update_health);
    let health: i16 = r.read_i16()?;
    Ok(DicePacket::UpdateHealth { health })
}

fn parse_respawn(r: &mut Reader) -> (out: Result<DicePacket, Fault>)
    requires
        old(r).wf(),
    ensures
        final(r).wf(),
        final(r).bytes() == old(r).bytes(),
        old(r).offset() <= final(r).offset(),
        reported(out, decode_respawn(old(r).cursor()), final(r).cursor()),
{
    reveal(decode_respawn);
    let dimension: i8 = r.read_i8()?;
    Ok(DicePacket::Respawn { dimension })
}

fn parse_flying(r: &mut Reader) -> (out: Result<DicePacket, Fault>)
    requires
        old(r).wf(),
    ensures
        final(r).wf(),
        final(r).bytes() == old(r).bytes(),
        old(r).offset() <= final(r).offset(),
        reported(out, decode_flying(old(r).cursor()), final(r).cursor()),
{
    reveal(decode_flying);
    let on_ground: DiceBool = r.read_bool()?;
    Ok(DicePacket::Flying { on_ground })
}

fn parse_position(r: &mut Reader) -> (out: Result<DicePacket, Fault>)
    requires
        old(r).wf(),
    ensures
        final(r).wf(),
        final(r).bytes() == old(r).bytes(),
        old(r).offset() <= final(r).offset(),
        reported(out, decode_position(old(r).cursor()), final(r).cursor()),
{
    reveal(decode_position);
    let position_x: u64 = r.read_u64()?;
    let position_y: u64 = r.read_u64()?;
    let position_stance: u64 = r.read_u64()?;
    let position_z: u64 = r.read_u64()?;
    let on_ground: DiceBool = r.read_bool()?;
    Ok(
        DicePacket::Position {
            position: Position { x: position_x, y: position_y, stance: position_stance, z: position_z },
            on_ground,
        },
    )
}

fn parse_look(r: &mut Reader) -> (out: Result<DicePacket, Fault>)
    requires
        old(r).wf(),
    ensures
        final(r).wf(),
        final(r).bytes() == old(r).bytes(),
        old(r).offset() <= final(r).offset(),
        reported(out, decode_look(old(r).cursor()), final(r).cursor()),
{
    reveal(decode_look);
    let look_yaw: u64 = r.read_u64()?;
    let look_pitch: u64 = r.read_u64()?;
    let on_ground: DiceBool = r.read_bool()?;
    Ok(DicePacket::Look { look: Look { yaw: look_yaw, pitch: look_pitch }, on_ground })
}

fn parse_position_look(r: &mut Reader) -> (out: Result<DicePacket, Fault>)
    requires
        old(r).wf(),
    ensures
        final(r).wf(),
        final(r).bytes() == old(r).bytes(),
        old(r).offset() <= final(r).offset(),
        reported(out, decode_position_look(old(r).cursor()), final(r).cursor()),
{
    reveal(decode_position_look);
    let position_x: u64 = r.read_u64()?;
    let position_y: u64 = r.read_u64()?;
    let position_stance: u64 = r.read_u64()?;
    let position_z: u64 = r.read_u64()?;
    let look_yaw: u64 = r.read_u64()?;
    let look_pitch: u64 = r.read_u64()?;
    let on_ground: DiceBool = r.read_bool()?;
    Ok(
        DicePacket::PositionLook {
            position: Position { x: position_x, y: position_y, stance: position_stance, z: position_z },
            look: Look { yaw: look_yaw, pitch: look_pitch },
            on_ground,
        },
    )
}

fn parse_break_block(r: &mut Reader) -> (out: Result<DicePacket, Fault>)
    requires
        old(r).wf(),
    ensures
        final(r).wf(),
        final(r).bytes() == old(r).bytes(),
        old(r).offset() <= final(r).offset(),
        reported(out, decode_break_block(old(r).cursor()), final(r).cursor()),
{
    reveal(decode_break_block);
    let status: DiceBool = r.read_bool()?;
    let position_x: i32 = r.read_i32()?;
    let position_y: i8 = r.read_i8()?;
    let position_z: i32 = r.read_i32()?;
    let face: u8 = r.read_u8()?;
    Ok(
        DicePacket::BreakBlock {
            status,
            position: BlockPosition { x: position_x, y: position_y, z: position_z },
            face,
        },
    )
}

fn parse_place_block(r: &mut Reader) -> (out: Result<DicePacket, Fault>)
    requires
        old(r).wf(),
    ensures
        final(r).wf(),
        final(r).bytes() == old(r).bytes(),
        old(r).offset() <= final(r).offset(),
        reported(out, decode_place_block(old(r).cursor()), final(r).cursor()),
{
    reveal(decode_place_block);
    let position_x: i32 = r.read_i32()?;
    let position_y: i8 = r.read_i8()?;
    let position_z: i32 = r.read_i32()?;
    let direction: u8 = r.read_u8()?;
    Ok(
        DicePacket::PlaceBlock {
            position: BlockPosition { x: position_x, y: position_y, z: position_z },
            direction,
        },
    )
}

fn parse_hand_slot(r: &mut Reader) -> (out: Result<DicePacket, Fault>)
    requires
        old(r).wf(),
    ensures
        final(r).wf(),
        final(r).bytes() == old(r).bytes(),
        old(r).offset() <= final(r).offset(),
        reported(out, decode_hand_slot(old(r).cursor()), final(r).cursor()),
{
    reveal(decode_hand_slot);
    let slot: i16 = r.read_i16()?;
    Ok(DicePacket::HandSlot { slot })
}

fn parse_player_sleep(r: &mut Reader) -> (out: Result<DicePacket, Fault>)
    requires
        old(r).wf(),
    ensures
        final(r).wf(),
        final(r).bytes() == old(r).bytes(),
        old(r).offset() <= final(r).offset(),
        reported(out, decode_player_sleep(old(r).cursor()), final(r).cursor()),
{
    reveal(decode_player_sleep);
    let entity_id: i32 = r.read_i32()?;
    let _unused: i8 = r.read_i8()?;
    let block_position_x: i32 = r.read_i32()?;
    let block_position_y: i8 = r.read_i8()?;
    let block_position_z: i32 = r.read_i32()?;
    Ok(
        DicePacket::PlayerSleep {
            entity_id,
            _unused,
            block_position: BlockPosition { x: block_position_x, y: block_position_y, z: block_position_z },
        },
    )
}

fn parse_entity_animation(r: &mut Reader) -> (out: Result<DicePacket, Fault>)
    requires
        old(r).wf(),
    ensures
        final(r).wf(),
        final(r).bytes() == old(r).bytes(),
        old(r).offset() <= final(r).offset(),
        reported(out, decode_entity_animation(old(r).cursor()), final(r).cursor()),
{
    reveal(decode_entity_animation);
    let entity_id: i32 = r.read_i32()?;
    let animate: i8 = r.read_i8()?;
    Ok(DicePacket::EntityAnimation { entity_id, animate })
}

fn parse_entity_action(r: &mut Reader) -> (out: Result<DicePacket, Fault>)
    requires
        old(r).wf(),
    ensures
        final(r).wf(),
        final(r).bytes() == old(r).bytes(),
        old(r).offset() <= final(r).offset(),
        reported(out, decode_entity_action(old(r).cursor()), final(r).cursor()),
{
    reveal(decode_entity_action);
    let entity_id: i32 = r.read_i32()?;
    let state: i8 = r.read_i8()?;
    Ok(DicePacket::EntityAction { entity_id, state })
}

fn parse_human_spawn(r: &mut Reader) -> (out: Result<DicePacket, Fault>)
    requires
        old(r).wf(),
    ensures
        final(r).wf(),
        final(r).bytes() == old(r).bytes(),
        old(r).offset() <= final(r).offset(),
        reported(out, decode_human_spawn(old(r).cursor()), final(r).cursor()),
{
    reveal(decode_human_spawn);
    let entity_id: i32 = r.read_i32()?;
    let username: DiceString = r.read_string()?;
    let position_x: i32 = r.read_i32()?;
    let position_y: i32 = r.read_i32()?;
    let position_z: i32 = r.read_i32()?;
    let yaw: i8 = r.read_i8()?;
    let pitch: i8 = r.read_i8()?;
    let current_item: i16 = r.read_i16()?;
    Ok(
        DicePacket::HumanSpawn {
            entity_id,
            username,
            position: EntityPosition { x: position_x, y: position_y, z: position_z },
            yaw,
            pitch,
            current_item,
        },
    )
}

fn parse_item_spawn(r: &mut Reader) -> (out: Result<DicePacket, Fault>)
    requires
        old(r).wf(),
    ensures
        final(r).wf(),
        final(r).bytes() == old(r).bytes(),
        old(r).offset() <= final(r).offset(),
        reported(out, decode_item_spawn(old(r).cursor()), final(r).cursor()),
{
    reveal(decode_item_spawn);
    let entity_id: i32 = r.read_i32()?;
    let stack_id: i16 = r.read_i16()?;
    let stack_size: i8 = r.read_i8()?;
    let stack_damage: i16 = r.read_i16()?;
    let position_x: i32 = r.read_i32()?;
    let position_y: i32 = r.read_i32()?;
    let position_z: i32 = r.read_i32()?;
    let velocity_x: i8 = r.read_i8()?;
    let velocity_y: i8 = r.read_i8()?;
    let velocity_z: i8 = r.read_i8()?;
    Ok(
        DicePacket::ItemSpawn {
            entity_id,
            stack_id,
            stack_size,
            stack_damage,
            position: EntityPosition { x: position_x, y: position_y, z: position_z },
            velocity: EntityVelocity { x: velocity_x, y: velocity_y, z: velocity_z },
        },
    )
}

fn parse_entity_pickup(r: &mut Reader) -> (out: Result<DicePacket, Fault>)
    requires
        old(r).wf(),
    ensures
        final(r).wf(),
        final(r).bytes() == old(r).bytes(),
        old(r).offset() <= final(r).offset(),
        reported(out, decode_entity_pickup(old(r).cursor()), final(r).cursor()),
{
    reveal(decode_entity_pickup);
    let target_entity_id: i32 = r.read_i32()?;
    let entity_id: i32 = r.read_i32()?;
    Ok(DicePacket::EntityPickup { target_entity_id, entity_id })
}

fn parse_object_spawn(r: &mut Reader) -> (out: Result<DicePacket, Fault>)
    requires
        old(r).wf(),
    ensures
        final(r).wf(),
        final(r).bytes() == old(r).bytes(),
        old(r).offset() <= final(r).offset(),
        reported(out, decode_object_spawn(old(r).cursor()), final(r).cursor()),
{
    reveal(decode_object_spawn);
    let entity_id: i32 = r.read_i32()?;
    let kind: i8 = r.read_i8()?;
    let position_x: i32 = r.read_i32()?;
    let position_y: i32 = r.read_i32()?;
    let position_z: i32 = r.read_i32()?;
    let has_velocity: DiceBool = r.read_bool()?;
    let velocity: Option<EntityVelocity2> = match has_velocity {
        DiceBool::True => {
            let x: i16 = r.read_i16()?;
            let y: i16 = r.read_i16()?;
            let z: i16 = r.read_i16()?;
            Some(EntityVelocity2 { x, y, z })
        },
        DiceBool::False => None,
    };
    Ok(
        DicePacket::ObjectSpawn {
            entity_id,
            kind,
            position: EntityPosition { x: position_x, y: position_y, z: position_z },
            has_velocity,
            velocity,
        },
    )
}

fn parse_mob_spawn(r: &mut Reader) -> (out: Result<DicePacket, Fault>)
    requires
        old(r).wf(),
    ensures
        final(r).wf(),
        final(r).bytes() == old(r).bytes(),
        old(r).offset() <= final(r).offset(),
        reported(out, decode_mob_spawn(old(r).cursor()), final(r).cursor()),
{
    reveal(decode_mob_spawn);
    let entity_id: i32 = r.read_i32()?;
    let kind: i8 = r.read_i8()?;
    let position_x: i32 = r.read_i32()?;
    let position_y: i32 = r.read_i32()?;
    let position_z: i32 = r.read_i32()?;
    let yaw: i8 = r.read_i8()?;
    let pitch: i8 = r.read_i8()?;
    Ok(
        DicePacket::MobSpawn {
            entity_id,
            kind,
            position: EntityPosition { x: position_x, y: position_y, z: position_z },
            yaw,
            pitch,
        },
    )
}

fn parse_painting_spawn(r: &mut Reader) -> (out: Result<DicePacket, Fault>)
    requires
        old(r).wf(),
    ensures
        final(r).wf(),
        final(r).bytes() == old(r).bytes(),
        old(r).offset() <= final(r).offset(),
        reported(out, decode_painting_spawn(old(r).cursor()), final(r).cursor()),
{
    reveal(decode_painting_spawn);
    let entity_id: i32 = r.read_i32()?;
    let title: DiceString = r.read_string()?;
    let position_x: i32 = r.read_i32()?;
    let position_y: i32 = r.read_i32()?;
    let position_z: i32 = r.read_i32()?;
    let direction: i32 = r.read_i32()?;
    Ok(
        DicePacket::PaintingSpawn {
            entity_id,
            title,
            position: EntityPosition { x: position_x, y: position_y, z: position_z },
            direction,
        },
    )
}

fn parse_entity_velocity(r: &mut Reader) -> (out: Result<DicePacket, Fault>)
    requires
        old(r).wf(),
    ensures
        final(r).wf(),
        final(r).bytes() == old(r).bytes(),
        old(r).offset() <= final(r).offset(),
        reported(out, decode_entity_velocity(old(r).cursor()), final(r).cursor()),
{
    reveal(decode_entity_velocity);
    let entity_id: i32 = r.read_i32()?;
    let velocity_x: i16 = r.read_i16()?;
    let velocity_y: i16 = r.read_i16()?;
    let velocity_z: i16 = r.read_i16()?;
    Ok(
        DicePacket::EntityVelocity {
            entity_id,
            velocity: EntityVelocity2 { x: velocity_x, y: velocity_y, z: velocity_z },
        },
    )
}

fn parse_entity_kill(r: &mut Reader) -> (out: Result<DicePacket, Fault>)
    requires
        old(r).wf(),
    ensures
        final(r).wf(),
        final(r).bytes() == old(r).bytes(),
        old(r).offset() <= final(r).offset(),
        reported(out, decode_entity_kill(old(r).cursor()), final(r).cursor()),
{
    reveal(decode_entity_kill);
    let entity_id: i32 = r.read_i32()?;
    Ok(DicePacket::EntityKill { entity_id })
}

fn parse_entity(r: &mut Reader) -> (out: Result<DicePacket, Fault>)
    requires
        old(r).wf(),
    ensures
        final(r).wf(),
        final(r).bytes() == old(r).bytes(),
        old(r).offset() <= final(r).offset(),
        reported(out, decode_entity(old(r).cursor()), final(r).cursor()),
{
    reveal(decode_entity);
    let entity_id: i32 = r.read_i32()?;
    Ok(DicePacket::Entity { entity_id })
}

fn parse_entity_move(r: &mut Reader) -> (out: Result<DicePacket, Fault>)
    requires
        old(r).wf(),
    ensures
        final(r).wf(),
        final(r).bytes() == old(r).bytes(),
        old(r).offset() <= final(r).offset(),
        reported(out, decode_entity_move(old(r).cursor()), final(r).cursor()),
{
    reveal(decode_entity_move);
    let entity_id: i32 = r.read_i32()?;
    let velocity_x: i8 = r.read_i8()?;
    let velocity_y: i8 = r.read_i8()?;
    let velocity_z: i8 = r.read_i8()?;
    Ok(
        DicePacket::EntityMove {
            entity_id,
            velocity: EntityVelocity { x: velocity_x, y: velocity_y, z: velocity_z },
        },
    )
}

fn parse_entity_look(r: &mut Reader) -> (out: Result<DicePacket, Fault>)
    requires
        old(r).wf(),
    ensures
        final(r).wf(),
        final(r).bytes() == old(r).bytes(),
        old(r).offset() <= final(r).offset(),
        reported(out, decode_entity_look(old(r).cursor()), final(r).cursor()),
{
    reveal(decode_entity_look);
    let entity_id: i32 = r.read_i32()?;
    let look_yaw: i8 = r.read_i8()?;
    let look_pitch: i8 = r.read_i8()?;
    Ok(DicePacket::EntityLook { entity_id, look: EntityLook { yaw: look_yaw, pitch: look_pitch } })
}

fn parse_entity_move_and_look(r: &mut Reader) -> (out: Result<DicePacket, Fault>)
    requires
        old(r).wf(),
    ensures
        final(r).wf(),
        final(r).bytes() == old(r).bytes(),
        old(r).offset() <= final(r).offset(),
        reported(out, decode_entity_move_and_look(old(r).cursor()), final(r).cursor()),
{
    reveal(decode_entity_move_and_look);
    let entity_id: i32 = r.read_i32()?;
    let velocity_x: i8 = r.read_i8()?;
    let velocity_y: i8 = r.read_i8()?;
    let velocity_z: i8 = r.read_i8()?;
    let look_yaw: i8 = r.read_i8()?;
    let look_pitch: i8 = r.read_i8()?;
    Ok(
        DicePacket::EntityMoveAndLook {
            entity_id,
            velocity: EntityVelocity { x: velocity_x, y: velocity_y, z: velocity_z },
            look: EntityLook { yaw: look_yaw, pitch: look_pitch },
        },
    )
}

fn parse_entity_position_and_look(r: &mut Reader) -> (out: Result<DicePacket, Fault>)
    requires
        old(r).wf(),
    ensures
        final(r).wf(),
        final(r).bytes() == old(r).bytes(),
        old(r).offset() <= final(r).offset(),
        reported(out, decode_entity_position_and_look(old(r).cursor()), final(r).cursor()),
{
    reveal(decode_entity_position_and_look);
    let entity_id: i32 = r.read_i32()?;
    let position_x: i32 = r.read_i32()?;
    let position_y: i32 = r.read_i32()?;
    let position_z: i32 = r.read_i32()?;
    let look_yaw: i8 = r.read_i8()?;
    let look_pitch: i8 = r.read_i8()?;
    Ok(
        DicePacket::EntityPositionAndLook {
            entity_id,
            position: EntityPosition { x: position_x, y: position_y, z: position_z },
            look: EntityLook { yaw: look_yaw, pitch: look_pitch },
        },
    )
}

fn parse_entity_status(r: &mut Reader) -> (out: Result<DicePacket, Fault>)
    requires
        old(r).wf(),
    ensures
        final(r).wf(),
        final(r).bytes() == old(r).bytes(),
        old(r).offset() <= final(r).offset(),
        reported(out, decode_entity_status(old(r).cursor()), final(r).cursor()),
{
    reveal(decode_entity_status);
    let entity_id: i32 = r.read_i32()?;
    let status: i8 = r.read_i8()?;
    Ok(DicePacket::EntityStatus { entity_id, status })
}

fn parse_entity_ride(r: &mut Reader) -> (out: Result<DicePacket, Fault>)
    requires
        old(r).wf(),
    ensures
        final(r).wf(),
        final(r).bytes() == old(r).bytes(),
        old(r).offset() <= final(r).offset(),
        reported(out, decode_entity_ride(old(r).cursor()), final(r).cursor()),
{
    reveal(decode_entity_ride);
    let entity_id: i32 = r.read_i32()?;
    let vehicle_entity_id: i32 = r.read_i32()?;
    Ok(DicePacket::EntityRide { entity_id, vehicle_entity_id })
}

fn parse_entity_metadata(r: &mut Reader) -> (out: Result<DicePacket, Fault>)
    requires
        old(r).wf(),
    ensures
        final(r).wf(),
        final(r).bytes() == old(r).bytes(),
        old(r).offset() <= final(r).offset(),
        reported(out, decode_entity_metadata(old(r).cursor()), final(r).cursor()),
{
    reveal(decode_entity_metadata);
    let entity_id: i32 = r.read_i32()?;
    Ok(DicePacket::EntityMetadata { entity_id })
}

fn parse_chunk_state(r: &mut Reader) -> (out: Result<DicePacket, Fault>)
    requires
        old(r).wf(),
    ensures
        final(r).wf(),
        final(r).bytes() == old(r).bytes(),
        old(r).offset() <= final(r).offset(),
        reported(out, decode_chunk_state(old(r).cursor()), final(r).cursor()),
{
    reveal(decode_chunk_state);
    let chunk_x: i32 = r.read_i32()?;
    let chunk_z: i32 = r.read_i32()?;
    let init: DiceBool = r.read_bool()?;
    Ok(DicePacket::ChunkState { chunk_x, chunk_z, init })
}

fn parse_chunk_data(r: &mut Reader) -> (out: Result<DicePacket, Fault>)
    requires
        old(r).wf(),
    ensures
        final(r).wf(),
        final(r).bytes() == old(r).bytes(),
        old(r).offset() <= final(r).offset(),
        reported(out, decode_chunk_data(old(r).cursor()), final(r).cursor()),
{
    reveal(decode_chunk_data);
    let x: i32 = r.read_i32()?;
    let y: i16 = r.read_i16()?;
    let z: i32 = r.read_i32()?;
    let x_size: i8 = r.read_i8()?;
    let y_size: i8 = r.read_i8()?;
    let z_size: i8 = r.read_i8()?;
    let data_len: i32 = r.read_count32()?;
    let data: Vec<u8> = r.read_bytes(data_len as u32)?;
    Ok(DicePacket::ChunkData { x, y, z, x_size, y_size, z_size, data_len, data })
}

fn parse_chunk_block_set(r: &mut Reader) -> (out: Result<DicePacket, Fault>)
    requires
        old(r).wf(),
    ensures
        final(r).wf(),
        final(r).bytes() == old(r).bytes(),
        old(r).offset() <= final(r).offset(),
        reported(out, decode_chunk_block_set(old(r).cursor()), final(r).cursor()),
{
    reveal(decode_chunk_block_set);
    let chunk_x: i32 = r.read_i32()?;
    let chunk_y: i32 = r.read_i32()?;
    let blocks_len: i16 = r.read_count16()?;
    let blocks_position: Vec<i16> = r.read_shorts(blocks_len as u16)?;
    let blocks_id: Vec<u8> = r.read_bytes(blocks_len as u32)?;
    let blocks_metadata: Vec<u8> = r.read_bytes(blocks_len as u32)?;
    Ok(
        DicePacket::ChunkBlockSet {
            chunk_x,
            chunk_y,
            blocks_len,
            blocks_position,
            blocks_id,
            blocks_metadata,
        },
    )
}

fn parse_block_set(r: &mut Reader) -> (out: Result<DicePacket, Fault>)
    requires
        old(r).wf(),
    ensures
        final(r).wf(),
        final(r).bytes() == old(r).bytes(),
        old(r).offset() <= final(r).offset(),
        reported(out, decode_block_set(old(r).cursor()), final(r).cursor()),
{
    reveal(decode_block_set);
    let position_x: i32 = r.read_i32()?;
    let position_y: i8 = r.read_i8()?;
    let position_z: i32 = r.read_i32()?;
    let block: i8 = r.read_i8()?;
    let metadata: i8 = r.read_i8()?;
    Ok(
        DicePacket::BlockSet {
            position: BlockPosition { x: position_x, y: position_y, z: position_z },
            block,
            metadata,
        },
    )
}

fn parse_block_action(r: &mut Reader) -> (out: Result<DicePacket, Fault>)
    requires
        old(r).wf(),
    ensures
        final(r).wf(),
        final(r).bytes() == old(r).bytes(),
        old(r).offset() <= final(r).offset(),
        reported(out, decode_block_action(old(r).cursor()), final(r).cursor()),
{
    reveal(decode_block_action);
    let position_x: i32 = r.read_i32()?;
    let position_y: i8 = r.read_i8()?;
    let position_z: i32 = r.read_i32()?;
    let data0: i8 = r.read_i8()?;
    let data1: i8 = r.read_i8()?;
    Ok(
        DicePacket::BlockAction {
            position: BlockPosition { x: position_x, y: position_y, z: position_z },
            data0,
            data1,
        },
    )
}

fn parse_explosion(r: &mut Reader) -> (out: Result<DicePacket, Fault>)
    requires
        old(r).wf(),
    ensures
        final(r).wf(),
        final(r).bytes() == old(r).bytes(),
        old(r).offset() <= final(r).offset(),
        reported(out, decode_explosion(old(r).cursor()), final(r).cursor()),
{
    reveal(decode_explosion);
    let x: u64 = r.read_u64()?;
    let y: u64 = r.read_u64()?;
    let z: u64 = r.read_u64()?;
    let size: u32 = r.read_u32()?;
    let blocks_len: i32 = r.read_count32()?;
    let blocks: Vec<[i8; 3]> = r.read_triples(blocks_len as u32)?;
    Ok(DicePacket::Explosion { x, y, z, size, blocks_len, blocks })
}

fn parse_window_close(r: &mut Reader) -> (out: Result<DicePacket, Fault>)
    requires
        old(r).wf(),
    ensures
        final(r).wf(),
        final(r).bytes() == old(r).bytes(),
        old(r).offset() <= final(r).offset(),
        reported(out, decode_window_close(old(r).cursor()), final(r).cursor()),
{
    reveal(decode_window_close);
    let window_id: u8 = r.read_u8()?;
    Ok(DicePacket::WindowClose { window_id })
}

fn parse_window_click(r: &mut Reader) -> (out: Result<DicePacket, Fault>)
    requires
        old(r).wf(),
    ensures
        final(r).wf(),
        final(r).bytes() == old(r).bytes(),
        old(r).offset() <= final(r).offset(),
        reported(out, decode_window_click(old(r).cursor()), final(r).cursor()),
{
    reveal(decode_window_click);
    let window_id: u8 = r.read_u8()?;
    let slot: i16 = r.read_i16()?;
    let right_click: DiceBool = r.read_bool()?;
    let transaction_id: i32 = r.read_i32()?;
    let shift_click: DiceBool = r.read_bool()?;
    Ok(DicePacket::WindowClick { window_id, slot, right_click, transaction_id, shift_click })
}

fn parse_window_transaction(r: &mut Reader) -> (out: Result<DicePacket, Fault>)
    requires
        old(r).wf(),
    ensures
        final(r).wf(),
        final(r).bytes() == old(r).bytes(),
        old(r).offset() <= final(r).offset(),
        reported(out, decode_window_transaction(old(r).cursor()), final(r).cursor()),
{
    reveal(decode_window_transaction);
    let window_id: u8 = r.read_u8()?;
    let transaction_id: i32 = r.read_i32()?;
    let accepted: DiceBool = r.read_bool()?;
    Ok(DicePacket::WindowTransaction { window_id, transaction_id, accepted })
}

fn parse_update_sign(r: &mut Reader) -> (out: Result<DicePacket, Fault>)
    requires
        old(r).wf(),
    ensures
        final(r).wf(),
        final(r).bytes() == old(r).bytes(),
        old(r).offset() <= final(r).offset(),
        reported(out, decode_update_sign(old(r).cursor()), final(r).cursor()),
{
    reveal(decode_update_sign);
    let x: i32 = r.read_i32()?;
    let y: i16 = r.read_i16()?;
    let z: i32 = r.read_i32()?;
    let line0: DiceString = r.read_string()?;
    let line1: DiceString = r.read_string()?;
    let line2: DiceString = r.read_string()?;
    let line3: DiceString = r.read_string()?;
    Ok(DicePacket::UpdateSign { x, y, z, lines: [line0, line1, line2, line3] })
}

fn parse_disconnect(r: &mut Reader) -> (out: Result<DicePacket, Fault>)
    requires
        old(r).wf(),
    ensures
        final(r).wf(),
        final(r).bytes() == old(r).bytes(),
        old(r).offset() <= final(r).offset(),
        reported(out, decode_disconnect(old(r).cursor()), final(r).cursor()),
{
    reveal(decode_disconnect);
    let reason: DiceString = r.read_string()?;
    Ok(DicePacket::Disconnect { reason })
}

/// Reads the fields that follow the tag.
fn parse_fields(tag: u8, r: &mut Reader) -> (out: Result<DicePacket, Fault>)
    requires
        old(r).wf(),
    ensures
        final(r).wf(),
        final(r).bytes() == old(r).bytes(),
        old(r).offset() <= final(r).offset(),
        reported(out, decode_fields(tag, old(r).cursor()), final(r).cursor()),
{
    reveal(decode_fields);
    match tag {
        0 => Ok(DicePacket::KeepAlive),
        1 => parse_login(r),
        2 => parse_handshake(r),
        3 => parse_chat(r),
        4 => parse_update_time(r),
        5 => parse_player_inventory(r),
        6 => parse_spawn_position(r),
        7 => parse_interact(r),
        8 => parse_update_health(r),
        9 => parse_respawn(r),
        10 => parse_flying(r),
        11 => parse_position(r),
        12 => parse_look(r),
        13 => parse_position_look(r),
        14 => parse_break_block(r),
        15 => parse_place_block(r),
        16 => parse_hand_slot(r),
        17 => parse_player_sleep(r),
        18 => parse_entity_animation(r),
        19 => parse_entity_action(r),
        20 => parse_human_spawn(r),
        21 => parse_item_spawn(r),
        22 => parse_entity_pickup(r),
        23 => parse_object_spawn(r),
        24 => parse_mob_spawn(r),
        25 => parse_painting_spawn(r),
        28 => parse_entity_velocity(r),
        29 => parse_entity_kill(r),
        30 => parse_entity(r),
        31 => parse_entity_move(r),
        32 => parse_entity_look(r),
        33 => parse_entity_move_and_look(r),
        34 => parse_entity_position_and_look(r),
        38 => parse_entity_status(r),
        39 => parse_entity_ride(r),
        40 => parse_entity_metadata(r),
        50 => parse_chunk_state(r),
        51 => parse_chunk_data(r),
        52 => parse_chunk_block_set(r),
        53 => parse_block_set(r),
        54 => parse_block_action(r),
        60 => parse_explosion(r),
        101 => parse_window_close(r),
        102 => parse_window_click(r),
        106 => parse_window_transaction(r),
        130 => parse_update_sign(r),
        255 => parse_disconnect(r),
        _ => Err(Fault::Malformed),
    }
}

/// Reads one frame from the front of `data`. Returns the packet and how
/// many bytes its frame took, or why there is none.
pub fn parse_packet(data: &[u8]) -> (out: Result<(DicePacket, usize), Fault>)
    ensures
        match out {
            Ok((packet, used)) => {
                &&& packet.wf()
                &&& 0 < used <= data@.len()
                &&& spec_decode(data@) == Parsed::Frame(packet@, data@.skip(used as int))
            },
            Err(Fault::Incomplete) => spec_decode(data@) is Incomplete,
            Err(Fault::Malformed) => spec_decode(data@) is Malformed,
        },
{
    let mut reader = Reader::new(data);
    let tag: u8 = match reader.read_u8() {
        Ok(tag) => tag,
        Err(fault) => {
            return Err(fault);
        },
    };
    assert(reader.cursor() == Cursor::At(data@.skip(1)));
    match parse_fields(tag, &mut reader) {
        Ok(packet) => {
            let used: usize = reader.position();
            Ok((packet, used))
        },
        Err(fault) => Err(fault),
    }
}

fn write_login(
    out: &mut Vec<u8>,
    protocol_version: i32,
    username: &DiceString,
    random_seed: i64,
    dimension: u8,
)
    requires
        username.wf(),
    ensures
        final(out)@ == old(out)@ + fields_before(
            PacketView::Login { protocol_version, username: username@, random_seed, dimension },
            Seq::empty(),
        ),
{
    write_i32(out, protocol_version);
    write_string(out, username);
    write_i64(out, random_seed);
    write_u8(out, dimension);
    assert(out@ + Seq::<u8>::empty() =~= out@);
}

fn write_handshake(
    out: &mut Vec<u8>,
    username: &DiceString,
)
    requires
        username.wf(),
    ensures
        final(out)@ == old(out)@ + fields_before(
            PacketView::Handshake { username: username@ },
            Seq::empty(),
        ),
{
    write_string(out, username);
    assert(out@ + Seq::<u8>::empty() =~= out@);
}

fn write_chat(
    out: &mut Vec<u8>,
    message: &DiceString,
)
    requires
        message.wf(),
    ensures
        final(out)@ == old(out)@ + fields_before(
            PacketView::Chat { message: message@ },
            Seq::empty(),
        ),
{
    write_string(out, message);
    assert(out@ + Seq::<u8>::empty() =~= out@);
}

fn write_update_time(
    out: &mut Vec<u8>,
    time: i64,
)
    ensures
        final(out)@ == old(out)@ + fields_before(
            PacketView::UpdateTime { time },
            Seq::empty(),
        ),
{
    write_i64(out, time);
    assert(out@ + Seq::<u8>::empty() =~= out@);
}

fn write_player_inventory(
    out: &mut Vec<u8>,
    entity_id: i32,
    slot: i16,
    item_id: i16,
    item_damage: i16,
)
    ensures
        final(out)@ == old(out)@ + fields_before(
            PacketView::PlayerInventory { entity_id, slot, item_id, item_damage },
            Seq::empty(),
        ),
{
    write_i32(out, entity_id);
    write_i16(out, slot);
    write_i16(out, item_id);
    write_i16(out, item_damage);
    assert(out@ + Seq::<u8>::empty() =~= out@);
}

fn write_spawn_position(
    out: &mut Vec<u8>,
    x: i32,
    y: i32,
    z: i32,
)
    ensures
        final(out)@ == old(out)@ + fields_before(
            PacketView::SpawnPosition { x, y, z },
            Seq::empty(),
        ),
{
    write_i32(out, x);
    write_i32(out, y);
    write_i32(out, z);
    assert(out@ + Seq::<u8>::empty() =~= out@);
}

fn write_interact(
    out: &mut Vec<u8>,
    player_id: i32,
    target_id: i32,
    left_click: DiceBool,
)
    ensures
        final(out)@ == old(out)@ + fields_before(
            PacketView::Interact { player_id, target_id, left_click },
            Seq::empty(),
        ),
{
    write_i32(out, player_id);
    write_i32(out, target_id);
    write_bool(out, left_click);
    assert(out@ + Seq::<u8>::empty() =~= out@);
}

fn write_update_health(
    out: &mut Vec<u8>,
    health: i16,
)
    ensures
        final(out)@ == old(out)@ + fields_before(
            PacketView::UpdateHealth { health },
            Seq::empty(),
        ),
{
    write_i16(out, health);
    assert(out@ + Seq::<u8>::empty() =~= out@);
}

fn write_respawn(
    out: &mut Vec<u8>,
    dimension: i8,
)
    ensures
        final(out)@ == old(out)@ + fields_before(
            PacketView::Respawn { dimension },
            Seq::empty(),
        ),
{
    write_i8(out, dimension);
    assert(out@ + Seq::<u8>::empty() =~= out@);
}

fn write_flying(
    out: &mut Vec<u8>,
    on_ground: DiceBool,
)
    ensures
        final(out)@ == old(out)@ + fields_before(
            PacketView::Flying { on_ground },
            Seq::empty(),
        ),
{
    write_bool(out, on_ground);
    assert(out@ + Seq::<u8>::empty() =~= out@);
}

fn write_position(
    out: &mut Vec<u8>,
    position: Position,
    on_ground: DiceBool,
)
    ensures
        final(out)@ == old(out)@ + fields_before(
            PacketView::Position { position, on_ground },
            Seq::empty(),
        ),
{
    write_u64(out, position.x);
    write_u64(out, position.y);
    write_u64(out, position.stance);
    write_u64(out, position.z);
    write_bool(out, on_ground);
    assert(out@ + Seq::<u8>::empty() =~= out@);
}

fn write_look(
    out: &mut Vec<u8>,
    look: Look,
    on_ground: DiceBool,
)
    ensures
        final(out)@ == old(out)@ + fields_before(
            PacketView::Look { look, on_ground },
            Seq::empty(),
        ),
{
    write_u64(out, look.yaw);
    write_u64(out, look.pitch);
    write_bool(out, on_ground);
    assert(out@ + Seq::<u8>::empty() =~= out@);
}

fn write_position_look(
    out: &mut Vec<u8>,
    position: Position,
    look: Look,
    on_ground: DiceBool,
)
    ensures
        final(out)@ == old(out)@ + fields_before(
            PacketView::PositionLook { position, look, on_ground },
            Seq::empty(),
        ),
{
    write_u64(out, position.x);
    write_u64(out, position.y);
    write_u64(out, position.stance);
    write_u64(out, position.z);
    write_u64(out, look.yaw);
    write_u64(out, look.pitch);
    write_bool(out, on_ground);
    assert(out@ + Seq::<u8>::empty() =~= out@);
}

fn write_break_block(
    out: &mut Vec<u8>,
    status: DiceBool,
    position: BlockPosition,
    face: u8,
)
    ensures
        final(out)@ == old(out)@ + fields_before(
            PacketView::BreakBlock { status, position, face },
            Seq::empty(),
        ),
{
    write_bool(out, status);
    write_i32(out, position.x);
    write_i8(out, position.y);
    write_i32(out, position.z);
    write_u8(out, face);
    assert(out@ + Seq::<u8>::empty() =~= out@);
}

fn write_place_block(
    out: &mut Vec<u8>,
    position: BlockPosition,
    direction: u8,
)
    ensures
        final(out)@ == old(out)@ + fields_before(
            PacketView::PlaceBlock { position, direction },
            Seq::empty(),
        ),
{
    write_i32(out, position.x);
    write_i8(out, position.y);
    write_i32(out, position.z);
    write_u8(out, direction);
    assert(out@ + Seq::<u8>::empty() =~= out@);
}

fn write_hand_slot(
    out: &mut Vec<u8>,
    slot: i16,
)
    ensures
        final(out)@ == old(out)@ + fields_before(
            PacketView::HandSlot { slot },
            Seq::empty(),
        ),
{
    write_i16(out, slot);
    assert(out@ + Seq::<u8>::empty() =~= out@);
}

fn write_player_sleep(
    out: &mut Vec<u8>,
    entity_id: i32,
    _unused: i8,
    block_position: BlockPosition,
)
    ensures
        final(out)@ == old(out)@ + fields_before(
            PacketView::PlayerSleep { entity_id, _unused, block_position },
            Seq::empty(),
        ),
{
    write_i32(out, entity_id);
    write_i8(out, _unused);
    write_i32(out, block_position.x);
    write_i8(out, block_position.y);
    write_i32(out, block_position.z);
    assert(out@ + Seq::<u8>::empty() =~= out@);
}

fn write_entity_animation(
    out: &mut Vec<u8>,
    entity_id: i32,
    animate: i8,
)
    ensures
        final(out)@ == old(out)@ + fields_before(
            PacketView::EntityAnimation { entity_id, animate },
            Seq::empty(),
        ),
{
    write_i32(out, entity_id);
    write_i8(out, animate);
    assert(out@ + Seq::<u8>::empty() =~= out@);
}

fn write_entity_action(
    out: &mut Vec<u8>,
    entity_id: i32,
    state: i8,
)
    ensures
        final(out)@ == old(out)@ + fields_before(
            PacketView::EntityAction { entity_id, state },
            Seq::empty(),
        ),
{
    write_i32(out, entity_id);
    write_i8(out, state);
    assert(out@ + Seq::<u8>::empty() =~= out@);
}

fn write_human_spawn(
    out: &mut Vec<u8>,
    entity_id: i32,
    username: &DiceString,
    position: EntityPosition,
    yaw: i8,
    pitch: i8,
    current_item: i16,
)
    requires
        username.wf(),
    ensures
        final(out)@ == old(out)@ + fields_before(
            PacketView::HumanSpawn { entity_id, username: username@, position, yaw, pitch, current_item },
            Seq::empty(),
        ),
{
    write_i32(out, entity_id);
    write_string(out, username);
    write_i32(out, position.x);
    write_i32(out, position.y);
    write_i32(out, position.z);
    write_i8(out, yaw);
    write_i8(out, pitch);
    write_i16(out, current_item);
    assert(out@ + Seq::<u8>::empty() =~= out@);
}

fn write_item_spawn(
    out: &mut Vec<u8>,
    entity_id: i32,
    stack_id: i16,
    stack_size: i8,
    stack_damage: i16,
    position: EntityPosition,
    velocity: EntityVelocity,
)
    ensures
        final(out)@ == old(out)@ + fields_before(
            PacketView::ItemSpawn { entity_id, stack_id, stack_size, stack_damage, position, velocity },
            Seq::empty(),
        ),
{
    write_i32(out, entity_id);
    write_i16(out, stack_id);
    write_i8(out, stack_size);
    write_i16(out, stack_damage);
    write_i32(out, position.x);
    write_i32(out, position.y);
    write_i32(out, position.z);
    write_i8(out, velocity.x);
    write_i8(out, velocity.y);
    write_i8(out, velocity.z);
    assert(out@ + Seq::<u8>::empty() =~= out@);
}

fn write_entity_pickup(
    out: &mut Vec<u8>,
    target_entity_id: i32,
    entity_id: i32,
)
    ensures
        final(out)@ == old(out)@ + fields_before(
            PacketView::EntityPickup { target_entity_id, entity_id },
            Seq::empty(),
        ),
{
    write_i32(out, target_entity_id);
    write_i32(out, entity_id);
    assert(out@ + Seq::<u8>::empty() =~= out@);
}

fn write_object_spawn(
    out: &mut Vec<u8>,
    entity_id: i32,
    kind: i8,
    position: EntityPosition,
    has_velocity: DiceBool,
    velocity: Option<EntityVelocity2>,
)
    ensures
        final(out)@ == old(out)@ + fields_before(
            PacketView::ObjectSpawn { entity_id, kind, position, has_velocity, velocity },
            Seq::empty(),
        ),
{
    write_i32(out, entity_id);
    write_i8(out, kind);
    write_i32(out, position.x);
    write_i32(out, position.y);
    write_i32(out, position.z);
    write_bool(out, has_velocity);
    match velocity {
        Some(v) => {
            write_i16(out, v.x);
            write_i16(out, v.y);
            write_i16(out, v.z);
        },
        None => {},
    }
    assert(out@ + Seq::<u8>::empty() =~= out@);
}

fn write_mob_spawn(
    out: &mut Vec<u8>,
    entity_id: i32,
    kind: i8,
    position: EntityPosition,
    yaw: i8,
    pitch: i8,
)
    ensures
        final(out)@ == old(out)@ + fields_before(
            PacketView::MobSpawn { entity_id, kind, position, yaw, pitch },
            Seq::empty(),
        ),
{
    write_i32(out, entity_id);
    write_i8(out, kind);
    write_i32(out, position.x);
    write_i32(out, position.y);
    write_i32(out, position.z);
    write_i8(out, yaw);
    write_i8(out, pitch);
    assert(out@ + Seq::<u8>::empty() =~= out@);
}

fn write_painting_spawn(
    out: &mut Vec<u8>,
    entity_id: i32,
    title: &DiceString,
    position: EntityPosition,
    direction: i32,
)
    requires
        title.wf(),
    ensures
        final(out)@ == old(out)@ + fields_before(
            PacketView::PaintingSpawn { entity_id, title: title@, position, direction },
            Seq::empty(),
        ),
{
    write_i32(out, entity_id);
    write_string(out, title);
    write_i32(out, position.x);
    write_i32(out, position.y);
    write_i32(out, position.z);
    write_i32(out, direction);
    assert(out@ + Seq::<u8>::empty() =~= out@);
}

fn write_entity_velocity(
    out: &mut Vec<u8>,
    entity_id: i32,
    velocity: EntityVelocity2,
)
    ensures
        final(out)@ == old(out)@ + fields_before(
            PacketView::EntityVelocity { entity_id, velocity },
            Seq::empty(),
        ),
{
    write_i32(out, entity_id);
    write_i16(out, velocity.x);
    write_i16(out, velocity.y);
    write_i16(out, velocity.z);
    assert(out@ + Seq::<u8>::empty() =~= out@);
}

fn write_entity_kill(
    out: &mut Vec<u8>,
    entity_id: i32,
)
    ensures
        final(out)@ == old(out)@ + fields_before(
            PacketView::EntityKill { entity_id },
            Seq::empty(),
        ),
{
    write_i32(out, entity_id);
    assert(out@ + Seq::<u8>::empty() =~= out@);
}

fn write_entity(
    out: &mut Vec<u8>,
    entity_id: i32,
)
    ensures
        final(out)@ == old(out)@ + fields_before(
            PacketView::Entity { entity_id },
            Seq::empty(),
        ),
{
    write_i32(out, entity_id);
    assert(out@ + Seq::<u8>::empty() =~= out@);
}

fn write_entity_move(
    out: &mut Vec<u8>,
    entity_id: i32,
    velocity: EntityVelocity,
)
    ensures
        final(out)@ == old(out)@ + fields_before(
            PacketView::EntityMove { entity_id, velocity },
            Seq::empty(),
        ),
{
    write_i32(out, entity_id);
    write_i8(out, velocity.x);
    write_i8(out, velocity.y);
    write_i8(out, velocity.z);
    assert(out@ + Seq::<u8>::empty() =~= out@);
}

fn write_entity_look(
    out: &mut Vec<u8>,
    entity_id: i32,
    look: EntityLook,
)
    ensures
        final(out)@ == old(out)@ + fields_before(
            PacketView::EntityLook { entity_id, look },
            Seq::empty(),
        ),
{
    write_i32(out, entity_id);
    write_i8(out, look.yaw);
    write_i8(out, look.pitch);
    assert(out@ + Seq::<u8>::empty() =~= out@);
}

fn write_entity_move_and_look(
    out: &mut Vec<u8>,
    entity_id: i32,
    velocity: EntityVelocity,
    look: EntityLook,
)
    ensures
        final(out)@ == old(out)@ + fields_before(
            PacketView::EntityMoveAndLook { entity_id, velocity, look },
            Seq::empty(),
        ),
{
    write_i32(out, entity_id);
    write_i8(out, velocity.x);
    write_i8(out, velocity.y);
    write_i8(out, velocity.z);
    write_i8(out, look.yaw);
    write_i8(out, look.pitch);
    assert(out@ + Seq::<u8>::empty() =~= out@);
}

fn write_entity_position_and_look(
    out: &mut Vec<u8>,
    entity_id: i32,
    position: EntityPosition,
    look: EntityLook,
)
    ensures
        final(out)@ == old(out)@ + fields_before(
            PacketView::EntityPositionAndLook { entity_id, position, look },
            Seq::empty(),
        ),
{
    write_i32(out, entity_id);
    write_i32(out, position.x);
    write_i32(out, position.y);
    write_i32(out, position.z);
    write_i8(out, look.yaw);
    write_i8(out, look.pitch);
    assert(out@ + Seq::<u8>::empty() =~= out@);
}

fn write_entity_status(
    out: &mut Vec<u8>,
    entity_id: i32,
    status: i8,
)
    ensures
        final(out)@ == old(out)@ + fields_before(
            PacketView::EntityStatus { entity_id, status },
            Seq::empty(),
        ),
{
    write_i32(out, entity_id);
    write_i8(out, status);
    assert(out@ + Seq::<u8>::empty() =~= out@);
}

fn write_entity_ride(
    out: &mut Vec<u8>,
    entity_id: i32,
    vehicle_entity_id: i32,
)
    ensures
        final(out)@ == old(out)@ + fields_before(
            PacketView::EntityRide { entity_id, vehicle_entity_id },
            Seq::empty(),
        ),
{
    write_i32(out, entity_id);
    write_i32(out, vehicle_entity_id);
    assert(out@ + Seq::<u8>::empty() =~= out@);
}

fn write_entity_metadata(
    out: &mut Vec<u8>,
    entity_id: i32,
)
    ensures
        final(out)@ == old(out)@ + fields_before(
            PacketView::EntityMetadata { entity_id },
            Seq::empty(),
        ),
{
    write_i32(out, entity_id);
    assert(out@ + Seq::<u8>::empty() =~= out@);
}

fn write_chunk_state(
    out: &mut Vec<u8>,
    chunk_x: i32,
    chunk_z: i32,
    init: DiceBool,
)
    ensures
        final(out)@ == old(out)@ + fields_before(
            PacketView::ChunkState { chunk_x, chunk_z, init },
            Seq::empty(),
        ),
{
    write_i32(out, chunk_x);
    write_i32(out, chunk_z);
    write_bool(out, init);
    assert(out@ + Seq::<u8>::empty() =~= out@);
}

fn write_chunk_data(
    out: &mut Vec<u8>,
    x: i32,
    y: i16,
    z: i32,
    x_size: i8,
    y_size: i8,
    z_size: i8,
    data_len: i32,
    data: &Vec<u8>,
)
    ensures
        final(out)@ == old(out)@ + fields_before(
            PacketView::ChunkData { x, y, z, x_size, y_size, z_size, data_len, data: data@ },
            Seq::empty(),
        ),
{
    write_i32(out, x);
    write_i16(out, y);
    write_i32(out, z);
    write_i8(out, x_size);
    write_i8(out, y_size);
    write_i8(out, z_size);
    write_i32(out, data_len);
    write_bytes(out, data);
    assert(out@ + Seq::<u8>::empty() =~= out@);
}

fn write_chunk_block_set(
    out: &mut Vec<u8>,
    chunk_x: i32,
    chunk_y: i32,
    blocks_len: i16,
    blocks_position: &Vec<i16>,
    blocks_id: &Vec<u8>,
    blocks_metadata: &Vec<u8>,
)
    ensures
        final(out)@ == old(out)@ + fields_before(
            PacketView::ChunkBlockSet { chunk_x, chunk_y, blocks_len, blocks_position: blocks_position@, blocks_id: blocks_id@, blocks_metadata: blocks_metadata@ },
            Seq::empty(),
        ),
{
    write_i32(out, chunk_x);
    write_i32(out, chunk_y);
    write_i16(out, blocks_len);
    write_shorts(out, blocks_position);
    write_bytes(out, blocks_id);
    write_bytes(out, blocks_metadata);
    assert(out@ + Seq::<u8>::empty() =~= out@);
}

fn write_block_set(
    out: &mut Vec<u8>,
    position: BlockPosition,
    block: i8,
    metadata: i8,
)
    ensures
        final(out)@ == old(out)@ + fields_before(
            PacketView::BlockSet { position, block, metadata },
            Seq::empty(),
        ),
{
    write_i32(out, position.x);
    write_i8(out, position.y);
    write_i32(out, position.z);
    write_i8(out, block);
    write_i8(out, metadata);
    assert(out@ + Seq::<u8>::empty() =~= out@);
}

fn write_block_action(
    out: &mut Vec<u8>,
    position: BlockPosition,
    data0: i8,
    data1: i8,
)
    ensures
        final(out)@ == old(out)@ + fields_before(
            PacketView::BlockAction { position, data0, data1 },
            Seq::empty(),
        ),
{
    write_i32(out, position.x);
    write_i8(out, position.y);
    write_i32(out, position.z);
    write_i8(out, data0);
    write_i8(out, data1);
    assert(out@ + Seq::<u8>::empty() =~= out@);
}

fn write_explosion(
    out: &mut Vec<u8>,
    x: u64,
    y: u64,
    z: u64,
    size: u32,
    blocks_len: i32,
    blocks: &Vec<[i8; 3]>,
)
    ensures
        final(out)@ == old(out)@ + fields_before(
            PacketView::Explosion { x, y, z, size, blocks_len, blocks: triples_of(blocks@) },
            Seq::empty(),
        ),
{
    write_u64(out, x);
    write_u64(out, y);
    write_u64(out, z);
    write_u32(out, size);
    write_i32(out, blocks_len);
    write_triples(out, blocks);
    assert(out@ + Seq::<u8>::empty() =~= out@);
}

fn write_window_close(
    out: &mut Vec<u8>,
    window_id: u8,
)
    ensures
        final(out)@ == old(out)@ + fields_before(
            PacketView::WindowClose { window_id },
            Seq::empty(),
        ),
{
    write_u8(out, window_id);
    assert(out@ + Seq::<u8>::empty() =~= out@);
}

fn write_window_click(
    out: &mut Vec<u8>,
    window_id: u8,
    slot: i16,
    right_click: DiceBool,
    transaction_id: i32,
    shift_click: DiceBool,
)
    ensures
        final(out)@ == old(out)@ + fields_before(
            PacketView::WindowClick { window_id, slot, right_click, transaction_id, shift_click },
            Seq::empty(),
        ),
{
    write_u8(out, window_id);
    write_i16(out, slot);
    write_bool(out, right_click);
    write_i32(out, transaction_id);
    write_bool(out, shift_click);
    assert(out@ + Seq::<u8>::empty() =~= out@);
}

fn write_window_transaction(
    out: &mut Vec<u8>,
    window_id: u8,
    transaction_id: i32,
    accepted: DiceBool,
)
    ensures
        final(out)@ == old(out)@ + fields_before(
            PacketView::WindowTransaction { window_id, transaction_id, accepted },
            Seq::empty(),
        ),
{
    write_u8(out, window_id);
    write_i32(out, transaction_id);
    write_bool(out, accepted);
    assert(out@ + Seq::<u8>::empty() =~= out@);
}

fn write_update_sign(
    out: &mut Vec<u8>,
    x: i32,
    y: i16,
    z: i32,
    lines: &[DiceString; 4],
)
    requires
        lines[0].wf(),
        lines[1].wf(),
        lines[2].wf(),
        lines[3].wf(),
    ensures
        final(out)@ == old(out)@ + fields_before(
            PacketView::UpdateSign { x, y, z, lines: (lines[0]@, lines[1]@, lines[2]@, lines[3]@) },
            Seq::empty(),
        ),
{
    write_i32(out, x);
    write_i16(out, y);
    write_i32(out, z);
    write_string(out, &lines[0]);
    write_string(out, &lines[1]);
    write_string(out, &lines[2]);
    write_string(out, &lines[3]);
    assert(out@ + Seq::<u8>::empty() =~= out@);
}

fn write_disconnect(
    out: &mut Vec<u8>,
    reason: &DiceString,
)
    requires
        reason.wf(),
    ensures
        final(out)@ == old(out)@ + fields_before(
            PacketView::Disconnect { reason: reason@ },
            Seq::empty(),
        ),
{
    write_string(out, reason);
    assert(out@ + Seq::<u8>::empty() =~= out@);
}

/// Appends a packet's frame to `out`.
pub fn write_packet(packet: &DicePacket, out: &mut Vec<u8>)
    requires
        packet.wf(),
    ensures
        final(out)@ == old(out)@ + spec_encode(packet@),
{
    write_u8(out, packet.tag());
    match packet {
        DicePacket::KeepAlive => {
            assert(out@ + Seq::<u8>::empty() =~= out@);
        },
        DicePacket::Login { protocol_version, username, random_seed, dimension } => {
            write_login(out, *protocol_version, username, *random_seed, *dimension);
        },
        DicePacket::Handshake { username } => {
            write_handshake(out, username);
        },
        DicePacket::Chat { message } => {
            write_chat(out, message);
        },
        DicePacket::UpdateTime { time } => {
            write_update_time(out, *time);
        },
        DicePacket::PlayerInventory { entity_id, slot, item_id, item_damage } => {
            write_player_inventory(out, *entity_id, *slot, *item_id, *item_damage);
        },
        DicePacket::SpawnPosition { x, y, z } => {
            write_spawn_position(out, *x, *y, *z);
        },
        DicePacket::Interact { player_id, target_id, left_click } => {
            write_interact(out, *player_id, *target_id, *left_click);
        },
        DicePacket::UpdateHealth { health } => {
            write_update_health(out, *health);
        },
        DicePacket::Respawn { dimension } => {
            write_respawn(out, *dimension);
        },
        DicePacket::Flying { on_ground } => {
            write_flying(out, *on_ground);
        },
        DicePacket::Position { position, on_ground } => {
            write_position(out, *position, *on_ground);
        },
        DicePacket::Look { look, on_ground } => {
            write_look(out, *look, *on_ground);
        },
        DicePacket::PositionLook { position, look, on_ground } => {
            write_position_look(out, *position, *look, *on_ground);
        },
        DicePacket::BreakBlock { status, position, face } => {
            write_break_block(out, *status, *position, *face);
        },
        DicePacket::PlaceBlock { position, direction } => {
            write_place_block(out, *position, *direction);
        },
        DicePacket::HandSlot { slot } => {
            write_hand_slot(out, *slot);
        },
        DicePacket::PlayerSleep { entity_id, _unused, block_position } => {
            write_player_sleep(out, *entity_id, *_unused, *block_position);
        },
        DicePacket::EntityAnimation { entity_id, animate } => {
            write_entity_animation(out, *entity_id, *animate);
        },
        DicePacket::EntityAction { entity_id, state } => {
            write_entity_action(out, *entity_id, *state);
        },
        DicePacket::HumanSpawn { entity_id, username, position, yaw, pitch, current_item } => {
            write_human_spawn(out, *entity_id, username, *position, *yaw, *pitch, *current_item);
        },
        DicePacket::ItemSpawn { entity_id, stack_id, stack_size, stack_damage, position, velocity } => {
            write_item_spawn(out, *entity_id, *stack_id, *stack_size, *stack_damage, *position, *velocity);
        },
        DicePacket::EntityPickup { target_entity_id, entity_id } => {
            write_entity_pickup(out, *target_entity_id, *entity_id);
        },
        DicePacket::ObjectSpawn { entity_id, kind, position, has_velocity, velocity } => {
            write_object_spawn(out, *entity_id, *kind, *position, *has_velocity, *velocity);
        },
        DicePacket::MobSpawn { entity_id, kind, position, yaw, pitch } => {
            write_mob_spawn(out, *entity_id, *kind, *position, *yaw, *pitch);
        },
        DicePacket::PaintingSpawn { entity_id, title, position, direction } => {
            write_painting_spawn(out, *entity_id, title, *position, *direction);
        },
        DicePacket::EntityVelocity { entity_id, velocity } => {
            write_entity_velocity(out, *entity_id, *velocity);
        },
        DicePacket::EntityKill { entity_id } => {
            write_entity_kill(out, *entity_id);
        },
        DicePacket::Entity { entity_id } => {
            write_entity(out, *entity_id);
        },
        DicePacket::EntityMove { entity_id, velocity } => {
            write_entity_move(out, *entity_id, *velocity);
        },
        DicePacket::EntityLook { entity_id, look } => {
            write_entity_look(out, *entity_id, *look);
        },
        DicePacket::EntityMoveAndLook { entity_id, velocity, look } => {
            write_entity_move_and_look(out, *entity_id, *velocity, *look);
        },
        DicePacket::EntityPositionAndLook { entity_id, position, look } => {
            write_entity_position_and_look(out, *entity_id, *position, *look);
        },
        DicePacket::EntityStatus { entity_id, status } => {
            write_entity_status(out, *entity_id, *status);
        },
        DicePacket::EntityRide { entity_id, vehicle_entity_id } => {
            write_entity_ride(out, *entity_id, *vehicle_entity_id);
        },
        DicePacket::EntityMetadata { entity_id } => {
            write_entity_metadata(out, *entity_id);
        },
        DicePacket::ChunkState { chunk_x, chunk_z, init } => {
            write_chunk_state(out, *chunk_x, *chunk_z, *init);
        },
        DicePacket::ChunkData { x, y, z, x_size, y_size, z_size, data_len, data } => {
            write_chunk_data(out, *x, *y, *z, *x_size, *y_size, *z_size, *data_len, data);
        },
        DicePacket::ChunkBlockSet { chunk_x, chunk_y, blocks_len, blocks_position, blocks_id, blocks_metadata } => {
            write_chunk_block_set(out, *chunk_x, *chunk_y, *blocks_len, blocks_position, blocks_id, blocks_metadata);
        },
        DicePacket::BlockSet { position, block, metadata } => {
            write_block_set(out, *position, *block, *metadata);
        },
        DicePacket::BlockAction { position, data0, data1 } => {
            write_block_action(out, *position, *data0, *data1);
        },
        DicePacket::Explosion { x, y, z, size, blocks_len, blocks } => {
            write_explosion(out, *x, *y, *z, *size, *blocks_len, blocks);
        },
        DicePacket::WindowClose { window_id } => {
            write_window_close(out, *window_id);
        },
        DicePacket::WindowClick { window_id, slot, right_click, transaction_id, shift_click } => {
            write_window_click(out, *window_id, *slot, *right_click, *transaction_id, *shift_click);
        },
        DicePacket::WindowTransaction { window_id, transaction_id, accepted } => {
            write_window_transaction(out, *window_id, *transaction_id, *accepted);
        },
        DicePacket::UpdateSign { x, y, z, lines } => {
            write_update_sign(out, *x, *y, *z, lines);
        },
        DicePacket::Disconnect { reason } => {
            write_disconnect(out, reason);
        },
    }
    proof {
        lemma_concat_assoc(
            old(out)@,
            be_u8(packet@.tag()),
            fields_before(packet@, Seq::empty()),
        );
    }
}

/// A packet's frame.
pub fn encode_packet(packet: &DicePacket) -> (out: Vec<u8>)
    requires
        packet.wf(),
    ensures
        out@ == spec_encode(packet@),
{
    let mut out: Vec<u8> = Vec::new();
    write_packet(packet, &mut out);
    assert(Seq::<u8>::empty() + spec_encode(packet@) =~= spec_encode(packet@));
    out
}

} // verus!
