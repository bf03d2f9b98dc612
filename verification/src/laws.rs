//! What holds of the grammar as a whole: a frame reads back as the packet
//! it was written from, a frame cut short is incomplete and never
//! malformed, and a tag names one variant.

use crate::grammar::{
    decode_fields, fields_before, frame_before, known_tag, spec_decode, spec_encode, Parsed,
    decode_block_action, decode_block_set, decode_break_block, decode_chat,
    decode_chunk_block_set, decode_chunk_data, decode_chunk_state, decode_disconnect,
    decode_entity, decode_entity_action, decode_entity_animation, decode_entity_kill,
    decode_entity_look, decode_entity_metadata, decode_entity_move, decode_entity_move_and_look,
    decode_entity_pickup, decode_entity_position_and_look, decode_entity_ride,
    decode_entity_status, decode_entity_velocity, decode_explosion, decode_flying,
    decode_hand_slot, decode_handshake, decode_human_spawn, decode_interact, decode_item_spawn,
    decode_login, decode_look, decode_mob_spawn, decode_object_spawn, decode_painting_spawn,
    decode_place_block, decode_player_inventory, decode_player_sleep, decode_position,
    decode_position_look, decode_respawn, decode_spawn_position, decode_update_health,
    decode_update_sign, decode_update_time, decode_window_click, decode_window_close,
    decode_window_transaction,
};
use crate::packet::PacketView;
use crate::wire::{be_u8, group_forth, group_wire, lemma_concat_assoc, Cursor};
use vstd::prelude::*;

verus! {

proof fn lemma_back_login(packet: PacketView, tail: Seq<u8>)
    requires
        packet is Login,
        packet.wf(),
    ensures
        decode_login(Cursor::At(fields_before(packet, tail))) == Parsed::Frame(packet, tail),
{
    broadcast use group_wire;

    reveal(decode_login);
}

proof fn lemma_back_handshake(packet: PacketView, tail: Seq<u8>)
    requires
        packet is Handshake,
        packet.wf(),
    ensures
        decode_handshake(Cursor::At(fields_before(packet, tail))) == Parsed::Frame(packet, tail),
{
    broadcast use group_wire;

    reveal(decode_handshake);
}

proof fn lemma_back_chat(packet: PacketView, tail: Seq<u8>)
    requires
        packet is Chat,
        packet.wf(),
    ensures
        decode_chat(Cursor::At(fields_before(packet, tail))) == Parsed::Frame(packet, tail),
{
    broadcast use group_wire;

    reveal(decode_chat);
}

proof fn lemma_back_update_time(packet: PacketView, tail: Seq<u8>)
    requires
        packet is UpdateTime,
        packet.wf(),
    ensures
        decode_update_time(Cursor::At(fields_before(packet, tail))) == Parsed::Frame(packet, tail),
{
    broadcast use group_wire;

    reveal(decode_update_time);
}

proof fn lemma_back_player_inventory(packet: PacketView, tail: Seq<u8>)
    requires
        packet is PlayerInventory,
        packet.wf(),
    ensures
        decode_player_inventory(Cursor::At(fields_before(packet, tail))) == Parsed::Frame(packet, tail),
{
    broadcast use group_wire;

    reveal(decode_player_inventory);
}

proof fn lemma_back_spawn_position(packet: PacketView, tail: Seq<u8>)
    requires
        packet is SpawnPosition,
        packet.wf(),
    ensures
        decode_spawn_position(Cursor::At(fields_before(packet, tail))) == Parsed::Frame(packet, tail),
{
    broadcast use group_wire;

    reveal(decode_spawn_position);
}

proof fn lemma_back_interact(packet: PacketView, tail: Seq<u8>)
    requires
        packet is Interact,
        packet.wf(),
    ensures
        decode_interact(Cursor::At(fields_before(packet, tail))) == Parsed::Frame(packet, tail),
{
    broadcast use group_wire;

    reveal(decode_interact);
}

proof fn lemma_back_update_health(packet: PacketView, tail: Seq<u8>)
    requires
        packet is UpdateHealth,
        packet.wf(),
    ensures
        decode_update_health(Cursor::At(fields_before(packet, tail))) == Parsed::Frame(packet, tail),
{
    broadcast use group_wire;

    reveal(decode_update_health);
}

proof fn lemma_back_respawn(packet: PacketView, tail: Seq<u8>)
    requires
        packet is Respawn,
        packet.wf(),
    ensures
        decode_respawn(Cursor::At(fields_before(packet, tail))) == Parsed::Frame(packet, tail),
{
    broadcast use group_wire;

    reveal(decode_respawn);
}

proof fn lemma_back_flying(packet: PacketView, tail: Seq<u8>)
    requires
        packet is Flying,
        packet.wf(),
    ensures
        decode_flying(Cursor::At(fields_before(packet, tail))) == Parsed::Frame(packet, tail),
{
    broadcast use group_wire;

    reveal(decode_flying);
}

proof fn lemma_back_position(packet: PacketView, tail: Seq<u8>)
    requires
        packet is Position,
        packet.wf(),
    ensures
        decode_position(Cursor::At(fields_before(packet, tail))) == Parsed::Frame(packet, tail),
{
    broadcast use group_wire;

    reveal(decode_position);
}

proof fn lemma_back_look(packet: PacketView, tail: Seq<u8>)
    requires
        packet is Look,
        packet.wf(),
    ensures
        decode_look(Cursor::At(fields_before(packet, tail))) == Parsed::Frame(packet, tail),
{
    broadcast use group_wire;

    reveal(decode_look);
}

proof fn lemma_back_position_look(packet: PacketView, tail: Seq<u8>)
    requires
        packet is PositionLook,
        packet.wf(),
    ensures
        decode_position_look(Cursor::At(fields_before(packet, tail))) == Parsed::Frame(packet, tail),
{
    broadcast use group_wire;

    reveal(decode_position_look);
}

proof fn lemma_back_break_block(packet: PacketView, tail: Seq<u8>)
    requires
        packet is BreakBlock,
        packet.wf(),
    ensures
        decode_break_block(Cursor::At(fields_before(packet, tail))) == Parsed::Frame(packet, tail),
{
    broadcast use group_wire;

    reveal(decode_break_block);
}

proof fn lemma_back_place_block(packet: PacketView, tail: Seq<u8>)
    requires
        packet is PlaceBlock,
        packet.wf(),
    ensures
        decode_place_block(Cursor::At(fields_before(packet, tail))) == Parsed::Frame(packet, tail),
{
    broadcast use group_wire;

    reveal(decode_place_block);
}

proof fn lemma_back_hand_slot(packet: PacketView, tail: Seq<u8>)
    requires
        packet is HandSlot,
        packet.wf(),
    ensures
        decode_hand_slot(Cursor::At(fields_before(packet, tail))) == Parsed::Frame(packet, tail),
{
    broadcast use group_wire;

    reveal(decode_hand_slot);
}

proof fn lemma_back_player_sleep(packet: PacketView, tail: Seq<u8>)
    requires
        packet is PlayerSleep,
        packet.wf(),
    ensures
        decode_player_sleep(Cursor::At(fields_before(packet, tail))) == Parsed::Frame(packet, tail),
{
    broadcast use group_wire;

    reveal(decode_player_sleep);
}

proof fn lemma_back_entity_animation(packet: PacketView, tail: Seq<u8>)
    requires
        packet is EntityAnimation,
        packet.wf(),
    ensures
        decode_entity_animation(Cursor::At(fields_before(packet, tail))) == Parsed::Frame(packet, tail),
{
    broadcast use group_wire;

    reveal(decode_entity_animation);
}

proof fn lemma_back_entity_action(packet: PacketView, tail: Seq<u8>)
    requires
        packet is EntityAction,
        packet.wf(),
    ensures
        decode_entity_action(Cursor::At(fields_before(packet, tail))) == Parsed::Frame(packet, tail),
{
    broadcast use group_wire;

    reveal(decode_entity_action);
}

proof fn lemma_back_human_spawn(packet: PacketView, tail: Seq<u8>)
    requires
        packet is HumanSpawn,
        packet.wf(),
    ensures
        decode_human_spawn(Cursor::At(fields_before(packet, tail))) == Parsed::Frame(packet, tail),
{
    broadcast use group_wire;

    reveal(decode_human_spawn);
}

proof fn lemma_back_item_spawn(packet: PacketView, tail: Seq<u8>)
    requires
        packet is ItemSpawn,
        packet.wf(),
    ensures
        decode_item_spawn(Cursor::At(fields_before(packet, tail))) == Parsed::Frame(packet, tail),
{
    broadcast use group_wire;

    reveal(decode_item_spawn);
}

proof fn lemma_back_entity_pickup(packet: PacketView, tail: Seq<u8>)
    requires
        packet is EntityPickup,
        packet.wf(),
    ensures
        decode_entity_pickup(Cursor::At(fields_before(packet, tail))) == Parsed::Frame(packet, tail),
{
    broadcast use group_wire;

    reveal(decode_entity_pickup);
}

proof fn lemma_back_object_spawn(packet: PacketView, tail: Seq<u8>)
    requires
        packet is ObjectSpawn,
        packet.wf(),
    ensures
        decode_object_spawn(Cursor::At(fields_before(packet, tail))) == Parsed::Frame(packet, tail),
{
    broadcast use group_wire;

    reveal(decode_object_spawn);
}

proof fn lemma_back_mob_spawn(packet: PacketView, tail: Seq<u8>)
    requires
        packet is MobSpawn,
        packet.wf(),
    ensures
        decode_mob_spawn(Cursor::At(fields_before(packet, tail))) == Parsed::Frame(packet, tail),
{
    broadcast use group_wire;

    reveal(decode_mob_spawn);
}

proof fn lemma_back_painting_spawn(packet: PacketView, tail: Seq<u8>)
    requires
        packet is PaintingSpawn,
        packet.wf(),
    ensures
        decode_painting_spawn(Cursor::At(fields_before(packet, tail))) == Parsed::Frame(packet, tail),
{
    broadcast use group_wire;

    reveal(decode_painting_spawn);
}

proof fn lemma_back_entity_velocity(packet: PacketView, tail: Seq<u8>)
    requires
        packet is EntityVelocity,
        packet.wf(),
    ensures
        decode_entity_velocity(Cursor::At(fields_before(packet, tail))) == Parsed::Frame(packet, tail),
{
    broadcast use group_wire;

    reveal(decode_entity_velocity);
}

proof fn lemma_back_entity_kill(packet: PacketView, tail: Seq<u8>)
    requires
        packet is EntityKill,
        packet.wf(),
    ensures
        decode_entity_kill(Cursor::At(fields_before(packet, tail))) == Parsed::Frame(packet, tail),
{
    broadcast use group_wire;

    reveal(decode_entity_kill);
}

proof fn lemma_back_entity(packet: PacketView, tail: Seq<u8>)
    requires
        packet is Entity,
        packet.wf(),
    ensures
        decode_entity(Cursor::At(fields_before(packet, tail))) == Parsed::Frame(packet, tail),
{
    broadcast use group_wire;

    reveal(decode_entity);
}

proof fn lemma_back_entity_move(packet: PacketView, tail: Seq<u8>)
    requires
        packet is EntityMove,
        packet.wf(),
    ensures
        decode_entity_move(Cursor::At(fields_before(packet, tail))) == Parsed::Frame(packet, tail),
{
    broadcast use group_wire;

    reveal(decode_entity_move);
}

proof fn lemma_back_entity_look(packet: PacketView, tail: Seq<u8>)
    requires
        packet is EntityLook,
        packet.wf(),
    ensures
        decode_entity_look(Cursor::At(fields_before(packet, tail))) == Parsed::Frame(packet, tail),
{
    broadcast use group_wire;

    reveal(decode_entity_look);
}

proof fn lemma_back_entity_move_and_look(packet: PacketView, tail: Seq<u8>)
    requires
        packet is EntityMoveAndLook,
        packet.wf(),
    ensures
        decode_entity_move_and_look(Cursor::At(fields_before(packet, tail))) == Parsed::Frame(packet, tail),
{
    broadcast use group_wire;

    reveal(decode_entity_move_and_look);
}

proof fn lemma_back_entity_position_and_look(packet: PacketView, tail: Seq<u8>)
    requires
        packet is EntityPositionAndLook,
        packet.wf(),
    ensures
        decode_entity_position_and_look(Cursor::At(fields_before(packet, tail))) == Parsed::Frame(packet, tail),
{
    broadcast use group_wire;

    reveal(decode_entity_position_and_look);
}

proof fn lemma_back_entity_status(packet: PacketView, tail: Seq<u8>)
    requires
        packet is EntityStatus,
        packet.wf(),
    ensures
        decode_entity_status(Cursor::At(fields_before(packet, tail))) == Parsed::Frame(packet, tail),
{
    broadcast use group_wire;

    reveal(decode_entity_status);
}

proof fn lemma_back_entity_ride(packet: PacketView, tail: Seq<u8>)
    requires
        packet is EntityRide,
        packet.wf(),
    ensures
        decode_entity_ride(Cursor::At(fields_before(packet, tail))) == Parsed::Frame(packet, tail),
{
    broadcast use group_wire;

    reveal(decode_entity_ride);
}

proof fn lemma_back_entity_metadata(packet: PacketView, tail: Seq<u8>)
    requires
        packet is EntityMetadata,
        packet.wf(),
    ensures
        decode_entity_metadata(Cursor::At(fields_before(packet, tail))) == Parsed::Frame(packet, tail),
{
    broadcast use group_wire;

    reveal(decode_entity_metadata);
}

proof fn lemma_back_chunk_state(packet: PacketView, tail: Seq<u8>)
    requires
        packet is ChunkState,
        packet.wf(),
    ensures
        decode_chunk_state(Cursor::At(fields_before(packet, tail))) == Parsed::Frame(packet, tail),
{
    broadcast use group_wire;

    reveal(decode_chunk_state);
}

proof fn lemma_back_chunk_data(packet: PacketView, tail: Seq<u8>)
    requires
        packet is ChunkData,
        packet.wf(),
    ensures
        decode_chunk_data(Cursor::At(fields_before(packet, tail))) == Parsed::Frame(packet, tail),
{
    broadcast use group_wire;

    reveal(decode_chunk_data);
}

proof fn lemma_back_chunk_block_set(packet: PacketView, tail: Seq<u8>)
    requires
        packet is ChunkBlockSet,
        packet.wf(),
    ensures
        decode_chunk_block_set(Cursor::At(fields_before(packet, tail))) == Parsed::Frame(packet, tail),
{
    broadcast use group_wire;

    reveal(decode_chunk_block_set);
}

proof fn lemma_back_block_set(packet: PacketView, tail: Seq<u8>)
    requires
        packet is BlockSet,
        packet.wf(),
    ensures
        decode_block_set(Cursor::At(fields_before(packet, tail))) == Parsed::Frame(packet, tail),
{
    broadcast use group_wire;

    reveal(decode_block_set);
}

proof fn lemma_back_block_action(packet: PacketView, tail: Seq<u8>)
    requires
        packet is BlockAction,
        packet.wf(),
    ensures
        decode_block_action(Cursor::At(fields_before(packet, tail))) == Parsed::Frame(packet, tail),
{
    broadcast use group_wire;

    reveal(decode_block_action);
}

proof fn lemma_back_explosion(packet: PacketView, tail: Seq<u8>)
    requires
        packet is Explosion,
        packet.wf(),
    ensures
        decode_explosion(Cursor::At(fields_before(packet, tail))) == Parsed::Frame(packet, tail),
{
    broadcast use group_wire;

    reveal(decode_explosion);
}

proof fn lemma_back_window_close(packet: PacketView, tail: Seq<u8>)
    requires
        packet is WindowClose,
        packet.wf(),
    ensures
        decode_window_close(Cursor::At(fields_before(packet, tail))) == Parsed::Frame(packet, tail),
{
    broadcast use group_wire;

    reveal(decode_window_close);
}

proof fn lemma_back_window_click(packet: PacketView, tail: Seq<u8>)
    requires
        packet is WindowClick,
        packet.wf(),
    ensures
        decode_window_click(Cursor::At(fields_before(packet, tail))) == Parsed::Frame(packet, tail),
{
    broadcast use group_wire;

    reveal(decode_window_click);
}

proof fn lemma_back_window_transaction(packet: PacketView, tail: Seq<u8>)
    requires
        packet is WindowTransaction,
        packet.wf(),
    ensures
        decode_window_transaction(Cursor::At(fields_before(packet, tail))) == Parsed::Frame(packet, tail),
{
    broadcast use group_wire;

    reveal(decode_window_transaction);
}

proof fn lemma_back_update_sign(packet: PacketView, tail: Seq<u8>)
    requires
        packet is UpdateSign,
        packet.wf(),
    ensures
        decode_update_sign(Cursor::At(fields_before(packet, tail))) == Parsed::Frame(packet, tail),
{
    broadcast use group_wire;

    reveal(decode_update_sign);
}

proof fn lemma_back_disconnect(packet: PacketView, tail: Seq<u8>)
    requires
        packet is Disconnect,
        packet.wf(),
    ensures
        decode_disconnect(Cursor::At(fields_before(packet, tail))) == Parsed::Frame(packet, tail),
{
    broadcast use group_wire;

    reveal(decode_disconnect);
}

/// Decoding a valid packet's frame gives the packet back and leaves what
/// follows the frame untouched.
pub proof fn lemma_round_trip(packet: PacketView, tail: Seq<u8>)
    requires
        packet.wf(),
    ensures
        spec_decode(frame_before(packet, tail)) == Parsed::Frame(packet, tail),
{
    let s = frame_before(packet, tail);
    assert(s[0] == packet.tag());
    assert(s.skip(1) =~= fields_before(packet, tail));
    reveal(decode_fields);
    match packet {
        PacketView::KeepAlive => {},
        PacketView::Login { .. } => {
            lemma_back_login(packet, tail);
        },
        PacketView::Handshake { .. } => {
            lemma_back_handshake(packet, tail);
        },
        PacketView::Chat { .. } => {
            lemma_back_chat(packet, tail);
        },
        PacketView::UpdateTime { .. } => {
            lemma_back_update_time(packet, tail);
        },
        PacketView::PlayerInventory { .. } => {
            lemma_back_player_inventory(packet, tail);
        },
        PacketView::SpawnPosition { .. } => {
            lemma_back_spawn_position(packet, tail);
        },
        PacketView::Interact { .. } => {
            lemma_back_interact(packet, tail);
        },
        PacketView::UpdateHealth { .. } => {
            lemma_back_update_health(packet, tail);
        },
        PacketView::Respawn { .. } => {
            lemma_back_respawn(packet, tail);
        },
        PacketView::Flying { .. } => {
            lemma_back_flying(packet, tail);
        },
        PacketView::Position { .. } => {
            lemma_back_position(packet, tail);
        },
        PacketView::Look { .. } => {
            lemma_back_look(packet, tail);
        },
        PacketView::PositionLook { .. } => {
            lemma_back_position_look(packet, tail);
        },
        PacketView::BreakBlock { .. } => {
            lemma_back_break_block(packet, tail);
        },
        PacketView::PlaceBlock { .. } => {
            lemma_back_place_block(packet, tail);
        },
        PacketView::HandSlot { .. } => {
            lemma_back_hand_slot(packet, tail);
        },
        PacketView::PlayerSleep { .. } => {
            lemma_back_player_sleep(packet, tail);
        },
        PacketView::EntityAnimation { .. } => {
            lemma_back_entity_animation(packet, tail);
        },
        PacketView::EntityAction { .. } => {
            lemma_back_entity_action(packet, tail);
        },
        PacketView::HumanSpawn { .. } => {
            lemma_back_human_spawn(packet, tail);
        },
        PacketView::ItemSpawn { .. } => {
            lemma_back_item_spawn(packet, tail);
        },
        PacketView::EntityPickup { .. } => {
            lemma_back_entity_pickup(packet, tail);
        },
        PacketView::ObjectSpawn { .. } => {
            lemma_back_object_spawn(packet, tail);
        },
        PacketView::MobSpawn { .. } => {
            lemma_back_mob_spawn(packet, tail);
        },
        PacketView::PaintingSpawn { .. } => {
            lemma_back_painting_spawn(packet, tail);
        },
        PacketView::EntityVelocity { .. } => {
            lemma_back_entity_velocity(packet, tail);
        },
        PacketView::EntityKill { .. } => {
            lemma_back_entity_kill(packet, tail);
        },
        PacketView::Entity { .. } => {
            lemma_back_entity(packet, tail);
        },
        PacketView::EntityMove { .. } => {
            lemma_back_entity_move(packet, tail);
        },
        PacketView::EntityLook { .. } => {
            lemma_back_entity_look(packet, tail);
        },
        PacketView::EntityMoveAndLook { .. } => {
            lemma_back_entity_move_and_look(packet, tail);
        },
        PacketView::EntityPositionAndLook { .. } => {
            lemma_back_entity_position_and_look(packet, tail);
        },
        PacketView::EntityStatus { .. } => {
            lemma_back_entity_status(packet, tail);
        },
        PacketView::EntityRide { .. } => {
            lemma_back_entity_ride(packet, tail);
        },
        PacketView::EntityMetadata { .. } => {
            lemma_back_entity_metadata(packet, tail);
        },
        PacketView::ChunkState { .. } => {
            lemma_back_chunk_state(packet, tail);
        },
        PacketView::ChunkData { .. } => {
            lemma_back_chunk_data(packet, tail);
        },
        PacketView::ChunkBlockSet { .. } => {
            lemma_back_chunk_block_set(packet, tail);
        },
        PacketView::BlockSet { .. } => {
            lemma_back_block_set(packet, tail);
        },
        PacketView::BlockAction { .. } => {
            lemma_back_block_action(packet, tail);
        },
        PacketView::Explosion { .. } => {
            lemma_back_explosion(packet, tail);
        },
        PacketView::WindowClose { .. } => {
            lemma_back_window_close(packet, tail);
        },
        PacketView::WindowClick { .. } => {
            lemma_back_window_click(packet, tail);
        },
        PacketView::WindowTransaction { .. } => {
            lemma_back_window_transaction(packet, tail);
        },
        PacketView::UpdateSign { .. } => {
            lemma_back_update_sign(packet, tail);
        },
        PacketView::Disconnect { .. } => {
            lemma_back_disconnect(packet, tail);
        },
    }
}

proof fn lemma_cut_login(packet: PacketView, k: int)
    requires
        packet is Login,
        packet.wf(),
        0 <= k < fields_before(packet, Seq::empty()).len(),
    ensures
        decode_login(Cursor::At(fields_before(packet, Seq::empty()).take(k))) is Incomplete,
{
    broadcast use group_wire;

    reveal(decode_login);
}

proof fn lemma_cut_handshake(packet: PacketView, k: int)
    requires
        packet is Handshake,
        packet.wf(),
        0 <= k < fields_before(packet, Seq::empty()).len(),
    ensures
        decode_handshake(Cursor::At(fields_before(packet, Seq::empty()).take(k))) is Incomplete,
{
    broadcast use group_wire;

    reveal(decode_handshake);
}

proof fn lemma_cut_chat(packet: PacketView, k: int)
    requires
        packet is Chat,
        packet.wf(),
        0 <= k < fields_before(packet, Seq::empty()).len(),
    ensures
        decode_chat(Cursor::At(fields_before(packet, Seq::empty()).take(k))) is Incomplete,
{
    broadcast use group_wire;

    reveal(decode_chat);
}

proof fn lemma_cut_update_time(packet: PacketView, k: int)
    requires
        packet is UpdateTime,
        packet.wf(),
        0 <= k < fields_before(packet, Seq::empty()).len(),
    ensures
        decode_update_time(Cursor::At(fields_before(packet, Seq::empty()).take(k))) is Incomplete,
{
    broadcast use group_wire;

    reveal(decode_update_time);
}

proof fn lemma_cut_player_inventory(packet: PacketView, k: int)
    requires
        packet is PlayerInventory,
        packet.wf(),
        0 <= k < fields_before(packet, Seq::empty()).len(),
    ensures
        decode_player_inventory(Cursor::At(fields_before(packet, Seq::empty()).take(k))) is Incomplete,
{
    broadcast use group_wire;

    reveal(decode_player_inventory);
}

proof fn lemma_cut_spawn_position(packet: PacketView, k: int)
    requires
        packet is SpawnPosition,
        packet.wf(),
        0 <= k < fields_before(packet, Seq::empty()).len(),
    ensures
        decode_spawn_position(Cursor::At(fields_before(packet, Seq::empty()).take(k))) is Incomplete,
{
    broadcast use group_wire;

    reveal(decode_spawn_position);
}

proof fn lemma_cut_interact(packet: PacketView, k: int)
    requires
        packet is Interact,
        packet.wf(),
        0 <= k < fields_before(packet, Seq::empty()).len(),
    ensures
        decode_interact(Cursor::At(fields_before(packet, Seq::empty()).take(k))) is Incomplete,
{
    broadcast use group_wire;

    reveal(decode_interact);
}

proof fn lemma_cut_update_health(packet: PacketView, k: int)
    requires
        packet is UpdateHealth,
        packet.wf(),
        0 <= k < fields_before(packet, Seq::empty()).len(),
    ensures
        decode_update_health(Cursor::At(fields_before(packet, Seq::empty()).take(k))) is Incomplete,
{
    broadcast use group_wire;

    reveal(decode_update_health);
}

proof fn lemma_cut_respawn(packet: PacketView, k: int)
    requires
        packet is Respawn,
        packet.wf(),
        0 <= k < fields_before(packet, Seq::empty()).len(),
    ensures
        decode_respawn(Cursor::At(fields_before(packet, Seq::empty()).take(k))) is Incomplete,
{
    broadcast use group_wire;

    reveal(decode_respawn);
}

proof fn lemma_cut_flying(packet: PacketView, k: int)
    requires
        packet is Flying,
        packet.wf(),
        0 <= k < fields_before(packet, Seq::empty()).len(),
    ensures
        decode_flying(Cursor::At(fields_before(packet, Seq::empty()).take(k))) is Incomplete,
{
    broadcast use group_wire;

    reveal(decode_flying);
}

proof fn lemma_cut_position(packet: PacketView, k: int)
    requires
        packet is Position,
        packet.wf(),
        0 <= k < fields_before(packet, Seq::empty()).len(),
    ensures
        decode_position(Cursor::At(fields_before(packet, Seq::empty()).take(k))) is Incomplete,
{
    broadcast use group_wire;

    reveal(decode_position);
}

proof fn lemma_cut_look(packet: PacketView, k: int)
    requires
        packet is Look,
        packet.wf(),
        0 <= k < fields_before(packet, Seq::empty()).len(),
    ensures
        decode_look(Cursor::At(fields_before(packet, Seq::empty()).take(k))) is Incomplete,
{
    broadcast use group_wire;

    reveal(decode_look);
}

proof fn lemma_cut_position_look(packet: PacketView, k: int)
    requires
        packet is PositionLook,
        packet.wf(),
        0 <= k < fields_before(packet, Seq::empty()).len(),
    ensures
        decode_position_look(Cursor::At(fields_before(packet, Seq::empty()).take(k))) is Incomplete,
{
    broadcast use group_wire;

    reveal(decode_position_look);
}

proof fn lemma_cut_break_block(packet: PacketView, k: int)
    requires
        packet is BreakBlock,
        packet.wf(),
        0 <= k < fields_before(packet, Seq::empty()).len(),
    ensures
        decode_break_block(Cursor::At(fields_before(packet, Seq::empty()).take(k))) is Incomplete,
{
    broadcast use group_wire;

    reveal(decode_break_block);
}

proof fn lemma_cut_place_block(packet: PacketView, k: int)
    requires
        packet is PlaceBlock,
        packet.wf(),
        0 <= k < fields_before(packet, Seq::empty()).len(),
    ensures
        decode_place_block(Cursor::At(fields_before(packet, Seq::empty()).take(k))) is Incomplete,
{
    broadcast use group_wire;

    reveal(decode_place_block);
}

proof fn lemma_cut_hand_slot(packet: PacketView, k: int)
    requires
        packet is HandSlot,
        packet.wf(),
        0 <= k < fields_before(packet, Seq::empty()).len(),
    ensures
        decode_hand_slot(Cursor::At(fields_before(packet, Seq::empty()).take(k))) is Incomplete,
{
    broadcast use group_wire;

    reveal(decode_hand_slot);
}

proof fn lemma_cut_player_sleep(packet: PacketView, k: int)
    requires
        packet is PlayerSleep,
        packet.wf(),
        0 <= k < fields_before(packet, Seq::empty()).len(),
    ensures
        decode_player_sleep(Cursor::At(fields_before(packet, Seq::empty()).take(k))) is Incomplete,
{
    broadcast use group_wire;

    reveal(decode_player_sleep);
}

proof fn lemma_cut_entity_animation(packet: PacketView, k: int)
    requires
        packet is EntityAnimation,
        packet.wf(),
        0 <= k < fields_before(packet, Seq::empty()).len(),
    ensures
        decode_entity_animation(Cursor::At(fields_before(packet, Seq::empty()).take(k))) is Incomplete,
{
    broadcast use group_wire;

    reveal(decode_entity_animation);
}

proof fn lemma_cut_entity_action(packet: PacketView, k: int)
    requires
        packet is EntityAction,
        packet.wf(),
        0 <= k < fields_before(packet, Seq::empty()).len(),
    ensures
        decode_entity_action(Cursor::At(fields_before(packet, Seq::empty()).take(k))) is Incomplete,
{
    broadcast use group_wire;

    reveal(decode_entity_action);
}

proof fn lemma_cut_human_spawn(packet: PacketView, k: int)
    requires
        packet is HumanSpawn,
        packet.wf(),
        0 <= k < fields_before(packet, Seq::empty()).len(),
    ensures
        decode_human_spawn(Cursor::At(fields_before(packet, Seq::empty()).take(k))) is Incomplete,
{
    broadcast use group_wire;

    reveal(decode_human_spawn);
}

proof fn lemma_cut_item_spawn(packet: PacketView, k: int)
    requires
        packet is ItemSpawn,
        packet.wf(),
        0 <= k < fields_before(packet, Seq::empty()).len(),
    ensures
        decode_item_spawn(Cursor::At(fields_before(packet, Seq::empty()).take(k))) is Incomplete,
{
    broadcast use group_wire;

    reveal(decode_item_spawn);
}

proof fn lemma_cut_entity_pickup(packet: PacketView, k: int)
    requires
        packet is EntityPickup,
        packet.wf(),
        0 <= k < fields_before(packet, Seq::empty()).len(),
    ensures
        decode_entity_pickup(Cursor::At(fields_before(packet, Seq::empty()).take(k))) is Incomplete,
{
    broadcast use group_wire;

    reveal(decode_entity_pickup);
}

proof fn lemma_cut_object_spawn(packet: PacketView, k: int)
    requires
        packet is ObjectSpawn,
        packet.wf(),
        0 <= k < fields_before(packet, Seq::empty()).len(),
    ensures
        decode_object_spawn(Cursor::At(fields_before(packet, Seq::empty()).take(k))) is Incomplete,
{
    broadcast use group_wire;

    reveal(decode_object_spawn);
}

proof fn lemma_cut_mob_spawn(packet: PacketView, k: int)
    requires
        packet is MobSpawn,
        packet.wf(),
        0 <= k < fields_before(packet, Seq::empty()).len(),
    ensures
        decode_mob_spawn(Cursor::At(fields_before(packet, Seq::empty()).take(k))) is Incomplete,
{
    broadcast use group_wire;

    reveal(decode_mob_spawn);
}

proof fn lemma_cut_painting_spawn(packet: PacketView, k: int)
    requires
        packet is PaintingSpawn,
        packet.wf(),
        0 <= k < fields_before(packet, Seq::empty()).len(),
    ensures
        decode_painting_spawn(Cursor::At(fields_before(packet, Seq::empty()).take(k))) is Incomplete,
{
    broadcast use group_wire;

    reveal(decode_painting_spawn);
}

proof fn lemma_cut_entity_velocity(packet: PacketView, k: int)
    requires
        packet is EntityVelocity,
        packet.wf(),
        0 <= k < fields_before(packet, Seq::empty()).len(),
    ensures
        decode_entity_velocity(Cursor::At(fields_before(packet, Seq::empty()).take(k))) is Incomplete,
{
    broadcast use group_wire;

    reveal(decode_entity_velocity);
}

proof fn lemma_cut_entity_kill(packet: PacketView, k: int)
    requires
        packet is EntityKill,
        packet.wf(),
        0 <= k < fields_before(packet, Seq::empty()).len(),
    ensures
        decode_entity_kill(Cursor::At(fields_before(packet, Seq::empty()).take(k))) is Incomplete,
{
    broadcast use group_wire;

    reveal(decode_entity_kill);
}

proof fn lemma_cut_entity(packet: PacketView, k: int)
    requires
        packet is Entity,
        packet.wf(),
        0 <= k < fields_before(packet, Seq::empty()).len(),
    ensures
        decode_entity(Cursor::At(fields_before(packet, Seq::empty()).take(k))) is Incomplete,
{
    broadcast use group_wire;

    reveal(decode_entity);
}

proof fn lemma_cut_entity_move(packet: PacketView, k: int)
    requires
        packet is EntityMove,
        packet.wf(),
        0 <= k < fields_before(packet, Seq::empty()).len(),
    ensures
        decode_entity_move(Cursor::At(fields_before(packet, Seq::empty()).take(k))) is Incomplete,
{
    broadcast use group_wire;

    reveal(decode_entity_move);
}

proof fn lemma_cut_entity_look(packet: PacketView, k: int)
    requires
        packet is EntityLook,
        packet.wf(),
        0 <= k < fields_before(packet, Seq::empty()).len(),
    ensures
        decode_entity_look(Cursor::At(fields_before(packet, Seq::empty()).take(k))) is Incomplete,
{
    broadcast use group_wire;

    reveal(decode_entity_look);
}

proof fn lemma_cut_entity_move_and_look(packet: PacketView, k: int)
    requires
        packet is EntityMoveAndLook,
        packet.wf(),
        0 <= k < fields_before(packet, Seq::empty()).len(),
    ensures
        decode_entity_move_and_look(Cursor::At(fields_before(packet, Seq::empty()).take(k))) is Incomplete,
{
    broadcast use group_wire;

    reveal(decode_entity_move_and_look);
}

proof fn lemma_cut_entity_position_and_look(packet: PacketView, k: int)
    requires
        packet is EntityPositionAndLook,
        packet.wf(),
        0 <= k < fields_before(packet, Seq::empty()).len(),
    ensures
        decode_entity_position_and_look(Cursor::At(fields_before(packet, Seq::empty()).take(k))) is Incomplete,
{
    broadcast use group_wire;

    reveal(decode_entity_position_and_look);
}

proof fn lemma_cut_entity_status(packet: PacketView, k: int)
    requires
        packet is EntityStatus,
        packet.wf(),
        0 <= k < fields_before(packet, Seq::empty()).len(),
    ensures
        decode_entity_status(Cursor::At(fields_before(packet, Seq::empty()).take(k))) is Incomplete,
{
    broadcast use group_wire;

    reveal(decode_entity_status);
}

proof fn lemma_cut_entity_ride(packet: PacketView, k: int)
    requires
        packet is EntityRide,
        packet.wf(),
        0 <= k < fields_before(packet, Seq::empty()).len(),
    ensures
        decode_entity_ride(Cursor::At(fields_before(packet, Seq::empty()).take(k))) is Incomplete,
{
    broadcast use group_wire;

    reveal(decode_entity_ride);
}

proof fn lemma_cut_entity_metadata(packet: PacketView, k: int)
    requires
        packet is EntityMetadata,
        packet.wf(),
        0 <= k < fields_before(packet, Seq::empty()).len(),
    ensures
        decode_entity_metadata(Cursor::At(fields_before(packet, Seq::empty()).take(k))) is Incomplete,
{
    broadcast use group_wire;

    reveal(decode_entity_metadata);
}

proof fn lemma_cut_chunk_state(packet: PacketView, k: int)
    requires
        packet is ChunkState,
        packet.wf(),
        0 <= k < fields_before(packet, Seq::empty()).len(),
    ensures
        decode_chunk_state(Cursor::At(fields_before(packet, Seq::empty()).take(k))) is Incomplete,
{
    broadcast use group_wire;

    reveal(decode_chunk_state);
}

proof fn lemma_cut_chunk_data(packet: PacketView, k: int)
    requires
        packet is ChunkData,
        packet.wf(),
        0 <= k < fields_before(packet, Seq::empty()).len(),
    ensures
        decode_chunk_data(Cursor::At(fields_before(packet, Seq::empty()).take(k))) is Incomplete,
{
    broadcast use group_wire;

    reveal(decode_chunk_data);
}

proof fn lemma_cut_chunk_block_set(packet: PacketView, k: int)
    requires
        packet is ChunkBlockSet,
        packet.wf(),
        0 <= k < fields_before(packet, Seq::empty()).len(),
    ensures
        decode_chunk_block_set(Cursor::At(fields_before(packet, Seq::empty()).take(k))) is Incomplete,
{
    broadcast use group_wire;

    reveal(decode_chunk_block_set);
}

proof fn lemma_cut_block_set(packet: PacketView, k: int)
    requires
        packet is BlockSet,
        packet.wf(),
        0 <= k < fields_before(packet, Seq::empty()).len(),
    ensures
        decode_block_set(Cursor::At(fields_before(packet, Seq::empty()).take(k))) is Incomplete,
{
    broadcast use group_wire;

    reveal(decode_block_set);
}

proof fn lemma_cut_block_action(packet: PacketView, k: int)
    requires
        packet is BlockAction,
        packet.wf(),
        0 <= k < fields_before(packet, Seq::empty()).len(),
    ensures
        decode_block_action(Cursor::At(fields_before(packet, Seq::empty()).take(k))) is Incomplete,
{
    broadcast use group_wire;

    reveal(decode_block_action);
}

proof fn lemma_cut_explosion(packet: PacketView, k: int)
    requires
        packet is Explosion,
        packet.wf(),
        0 <= k < fields_before(packet, Seq::empty()).len(),
    ensures
        decode_explosion(Cursor::At(fields_before(packet, Seq::empty()).take(k))) is Incomplete,
{
    broadcast use group_wire;

    reveal(decode_explosion);
}

proof fn lemma_cut_window_close(packet: PacketView, k: int)
    requires
        packet is WindowClose,
        packet.wf(),
        0 <= k < fields_before(packet, Seq::empty()).len(),
    ensures
        decode_window_close(Cursor::At(fields_before(packet, Seq::empty()).take(k))) is Incomplete,
{
    broadcast use group_wire;

    reveal(decode_window_close);
}

proof fn lemma_cut_window_click(packet: PacketView, k: int)
    requires
        packet is WindowClick,
        packet.wf(),
        0 <= k < fields_before(packet, Seq::empty()).len(),
    ensures
        decode_window_click(Cursor::At(fields_before(packet, Seq::empty()).take(k))) is Incomplete,
{
    broadcast use group_wire;

    reveal(decode_window_click);
}

proof fn lemma_cut_window_transaction(packet: PacketView, k: int)
    requires
        packet is WindowTransaction,
        packet.wf(),
        0 <= k < fields_before(packet, Seq::empty()).len(),
    ensures
        decode_window_transaction(Cursor::At(fields_before(packet, Seq::empty()).take(k))) is Incomplete,
{
    broadcast use group_wire;

    reveal(decode_window_transaction);
}

proof fn lemma_cut_update_sign(packet: PacketView, k: int)
    requires
        packet is UpdateSign,
        packet.wf(),
        0 <= k < fields_before(packet, Seq::empty()).len(),
    ensures
        decode_update_sign(Cursor::At(fields_before(packet, Seq::empty()).take(k))) is Incomplete,
{
    broadcast use group_wire;

    reveal(decode_update_sign);
}

proof fn lemma_cut_disconnect(packet: PacketView, k: int)
    requires
        packet is Disconnect,
        packet.wf(),
        0 <= k < fields_before(packet, Seq::empty()).len(),
    ensures
        decode_disconnect(Cursor::At(fields_before(packet, Seq::empty()).take(k))) is Incomplete,
{
    broadcast use group_wire;

    reveal(decode_disconnect);
}

/// Every proper prefix of a valid packet's frame is incomplete.
pub proof fn lemma_prefix_incomplete(packet: PacketView, k: int)
    requires
        packet.wf(),
        0 <= k < spec_encode(packet).len(),
    ensures
        spec_decode(spec_encode(packet).take(k)) is Incomplete,
{
    let s = spec_encode(packet);
    let body = fields_before(packet, Seq::empty());
    if k > 0 {
        assert(s.take(k)[0] == packet.tag());
        assert(s.take(k).skip(1) =~= body.take(k - 1));
        reveal(decode_fields);
        match packet {
            PacketView::KeepAlive => {},
            PacketView::Login { .. } => {
                lemma_cut_login(packet, k - 1);
            },
            PacketView::Handshake { .. } => {
                lemma_cut_handshake(packet, k - 1);
            },
            PacketView::Chat { .. } => {
                lemma_cut_chat(packet, k - 1);
            },
            PacketView::UpdateTime { .. } => {
                lemma_cut_update_time(packet, k - 1);
            },
            PacketView::PlayerInventory { .. } => {
                lemma_cut_player_inventory(packet, k - 1);
            },
            PacketView::SpawnPosition { .. } => {
                lemma_cut_spawn_position(packet, k - 1);
            },
            PacketView::Interact { .. } => {
                lemma_cut_interact(packet, k - 1);
            },
            PacketView::UpdateHealth { .. } => {
                lemma_cut_update_health(packet, k - 1);
            },
            PacketView::Respawn { .. } => {
                lemma_cut_respawn(packet, k - 1);
            },
            PacketView::Flying { .. } => {
                lemma_cut_flying(packet, k - 1);
            },
            PacketView::Position { .. } => {
                lemma_cut_position(packet, k - 1);
            },
            PacketView::Look { .. } => {
                lemma_cut_look(packet, k - 1);
            },
            PacketView::PositionLook { .. } => {
                lemma_cut_position_look(packet, k - 1);
            },
            PacketView::BreakBlock { .. } => {
                lemma_cut_break_block(packet, k - 1);
            },
            PacketView::PlaceBlock { .. } => {
                lemma_cut_place_block(packet, k - 1);
            },
            PacketView::HandSlot { .. } => {
                lemma_cut_hand_slot(packet, k - 1);
            },
            PacketView::PlayerSleep { .. } => {
                lemma_cut_player_sleep(packet, k - 1);
            },
            PacketView::EntityAnimation { .. } => {
                lemma_cut_entity_animation(packet, k - 1);
            },
            PacketView::EntityAction { .. } => {
                lemma_cut_entity_action(packet, k - 1);
            },
            PacketView::HumanSpawn { .. } => {
                lemma_cut_human_spawn(packet, k - 1);
            },
            PacketView::ItemSpawn { .. } => {
                lemma_cut_item_spawn(packet, k - 1);
            },
            PacketView::EntityPickup { .. } => {
                lemma_cut_entity_pickup(packet, k - 1);
            },
            PacketView::ObjectSpawn { .. } => {
                lemma_cut_object_spawn(packet, k - 1);
            },
            PacketView::MobSpawn { .. } => {
                lemma_cut_mob_spawn(packet, k - 1);
            },
            PacketView::PaintingSpawn { .. } => {
                lemma_cut_painting_spawn(packet, k - 1);
            },
            PacketView::EntityVelocity { .. } => {
                lemma_cut_entity_velocity(packet, k - 1);
            },
            PacketView::EntityKill { .. } => {
                lemma_cut_entity_kill(packet, k - 1);
            },
            PacketView::Entity { .. } => {
                lemma_cut_entity(packet, k - 1);
            },
            PacketView::EntityMove { .. } => {
                lemma_cut_entity_move(packet, k - 1);
            },
            PacketView::EntityLook { .. } => {
                lemma_cut_entity_look(packet, k - 1);
            },
            PacketView::EntityMoveAndLook { .. } => {
                lemma_cut_entity_move_and_look(packet, k - 1);
            },
            PacketView::EntityPositionAndLook { .. } => {
                lemma_cut_entity_position_and_look(packet, k - 1);
            },
            PacketView::EntityStatus { .. } => {
                lemma_cut_entity_status(packet, k - 1);
            },
            PacketView::EntityRide { .. } => {
                lemma_cut_entity_ride(packet, k - 1);
            },
            PacketView::EntityMetadata { .. } => {
                lemma_cut_entity_metadata(packet, k - 1);
            },
            PacketView::ChunkState { .. } => {
                lemma_cut_chunk_state(packet, k - 1);
            },
            PacketView::ChunkData { .. } => {
                lemma_cut_chunk_data(packet, k - 1);
            },
            PacketView::ChunkBlockSet { .. } => {
                lemma_cut_chunk_block_set(packet, k - 1);
            },
            PacketView::BlockSet { .. } => {
                lemma_cut_block_set(packet, k - 1);
            },
            PacketView::BlockAction { .. } => {
                lemma_cut_block_action(packet, k - 1);
            },
            PacketView::Explosion { .. } => {
                lemma_cut_explosion(packet, k - 1);
            },
            PacketView::WindowClose { .. } => {
                lemma_cut_window_close(packet, k - 1);
            },
            PacketView::WindowClick { .. } => {
                lemma_cut_window_click(packet, k - 1);
            },
            PacketView::WindowTransaction { .. } => {
                lemma_cut_window_transaction(packet, k - 1);
            },
            PacketView::UpdateSign { .. } => {
                lemma_cut_update_sign(packet, k - 1);
            },
            PacketView::Disconnect { .. } => {
                lemma_cut_disconnect(packet, k - 1);
            },
        }
    }
}

/// A first byte that names no variant makes the bytes malformed, however
/// many follow.
pub proof fn lemma_unknown_tag_malformed(s: Seq<u8>)
    requires
        s.len() > 0,
        !known_tag(s[0]),
    ensures
        spec_decode(s) is Malformed,
{
    reveal(decode_fields);
}


proof fn lemma_shape_login(c: Cursor)
    ensures
        decode_login(c) is Frame ==> decode_login(c)->Frame_0 is Login,
{
    reveal(decode_login);
}

proof fn lemma_shape_handshake(c: Cursor)
    ensures
        decode_handshake(c) is Frame ==> decode_handshake(c)->Frame_0 is Handshake,
{
    reveal(decode_handshake);
}

proof fn lemma_shape_chat(c: Cursor)
    ensures
        decode_chat(c) is Frame ==> decode_chat(c)->Frame_0 is Chat,
{
    reveal(decode_chat);
}

proof fn lemma_shape_update_time(c: Cursor)
    ensures
        decode_update_time(c) is Frame ==> decode_update_time(c)->Frame_0 is UpdateTime,
{
    reveal(decode_update_time);
}

proof fn lemma_shape_player_inventory(c: Cursor)
    ensures
        decode_player_inventory(c) is Frame ==> decode_player_inventory(c)->Frame_0 is PlayerInventory,
{
    reveal(decode_player_inventory);
}

proof fn lemma_shape_spawn_position(c: Cursor)
    ensures
        decode_spawn_position(c) is Frame ==> decode_spawn_position(c)->Frame_0 is SpawnPosition,
{
    reveal(decode_spawn_position);
}

proof fn lemma_shape_interact(c: Cursor)
    ensures
        decode_interact(c) is Frame ==> decode_interact(c)->Frame_0 is Interact,
{
    reveal(decode_interact);
}

proof fn lemma_shape_update_health(c: Cursor)
    ensures
        decode_update_health(c) is Frame ==> decode_update_health(c)->Frame_0 is UpdateHealth,
{
    reveal(decode_update_health);
}

proof fn lemma_shape_respawn(c: Cursor)
    ensures
        decode_respawn(c) is Frame ==> decode_respawn(c)->Frame_0 is Respawn,
{
    reveal(decode_respawn);
}

proof fn lemma_shape_flying(c: Cursor)
    ensures
        decode_flying(c) is Frame ==> decode_flying(c)->Frame_0 is Flying,
{
    reveal(decode_flying);
}

proof fn lemma_shape_position(c: Cursor)
    ensures
        decode_position(c) is Frame ==> decode_position(c)->Frame_0 is Position,
{
    reveal(decode_position);
}

proof fn lemma_shape_look(c: Cursor)
    ensures
        decode_look(c) is Frame ==> decode_look(c)->Frame_0 is Look,
{
    reveal(decode_look);
}

proof fn lemma_shape_position_look(c: Cursor)
    ensures
        decode_position_look(c) is Frame ==> decode_position_look(c)->Frame_0 is PositionLook,
{
    reveal(decode_position_look);
}

proof fn lemma_shape_break_block(c: Cursor)
    ensures
        decode_break_block(c) is Frame ==> decode_break_block(c)->Frame_0 is BreakBlock,
{
    reveal(decode_break_block);
}

proof fn lemma_shape_place_block(c: Cursor)
    ensures
        decode_place_block(c) is Frame ==> decode_place_block(c)->Frame_0 is PlaceBlock,
{
    reveal(decode_place_block);
}

proof fn lemma_shape_hand_slot(c: Cursor)
    ensures
        decode_hand_slot(c) is Frame ==> decode_hand_slot(c)->Frame_0 is HandSlot,
{
    reveal(decode_hand_slot);
}

proof fn lemma_shape_player_sleep(c: Cursor)
    ensures
        decode_player_sleep(c) is Frame ==> decode_player_sleep(c)->Frame_0 is PlayerSleep,
{
    reveal(decode_player_sleep);
}

proof fn lemma_shape_entity_animation(c: Cursor)
    ensures
        decode_entity_animation(c) is Frame ==> decode_entity_animation(c)->Frame_0 is EntityAnimation,
{
    reveal(decode_entity_animation);
}

proof fn lemma_shape_entity_action(c: Cursor)
    ensures
        decode_entity_action(c) is Frame ==> decode_entity_action(c)->Frame_0 is EntityAction,
{
    reveal(decode_entity_action);
}

proof fn lemma_shape_human_spawn(c: Cursor)
    ensures
        decode_human_spawn(c) is Frame ==> decode_human_spawn(c)->Frame_0 is HumanSpawn,
{
    reveal(decode_human_spawn);
}

proof fn lemma_shape_item_spawn(c: Cursor)
    ensures
        decode_item_spawn(c) is Frame ==> decode_item_spawn(c)->Frame_0 is ItemSpawn,
{
    reveal(decode_item_spawn);
}

proof fn lemma_shape_entity_pickup(c: Cursor)
    ensures
        decode_entity_pickup(c) is Frame ==> decode_entity_pickup(c)->Frame_0 is EntityPickup,
{
    reveal(decode_entity_pickup);
}

proof fn lemma_shape_object_spawn(c: Cursor)
    ensures
        decode_object_spawn(c) is Frame ==> decode_object_spawn(c)->Frame_0 is ObjectSpawn,
{
    reveal(decode_object_spawn);
}

proof fn lemma_shape_mob_spawn(c: Cursor)
    ensures
        decode_mob_spawn(c) is Frame ==> decode_mob_spawn(c)->Frame_0 is MobSpawn,
{
    reveal(decode_mob_spawn);
}

proof fn lemma_shape_painting_spawn(c: Cursor)
    ensures
        decode_painting_spawn(c) is Frame ==> decode_painting_spawn(c)->Frame_0 is PaintingSpawn,
{
    reveal(decode_painting_spawn);
}

proof fn lemma_shape_entity_velocity(c: Cursor)
    ensures
        decode_entity_velocity(c) is Frame ==> decode_entity_velocity(c)->Frame_0 is EntityVelocity,
{
    reveal(decode_entity_velocity);
}

proof fn lemma_shape_entity_kill(c: Cursor)
    ensures
        decode_entity_kill(c) is Frame ==> decode_entity_kill(c)->Frame_0 is EntityKill,
{
    reveal(decode_entity_kill);
}

proof fn lemma_shape_entity(c: Cursor)
    ensures
        decode_entity(c) is Frame ==> decode_entity(c)->Frame_0 is Entity,
{
    reveal(decode_entity);
}

proof fn lemma_shape_entity_move(c: Cursor)
    ensures
        decode_entity_move(c) is Frame ==> decode_entity_move(c)->Frame_0 is EntityMove,
{
    reveal(decode_entity_move);
}

proof fn lemma_shape_entity_look(c: Cursor)
    ensures
        decode_entity_look(c) is Frame ==> decode_entity_look(c)->Frame_0 is EntityLook,
{
    reveal(decode_entity_look);
}

proof fn lemma_shape_entity_move_and_look(c: Cursor)
    ensures
        decode_entity_move_and_look(c) is Frame ==> decode_entity_move_and_look(c)->Frame_0 is EntityMoveAndLook,
{
    reveal(decode_entity_move_and_look);
}

proof fn lemma_shape_entity_position_and_look(c: Cursor)
    ensures
        decode_entity_position_and_look(c) is Frame ==> decode_entity_position_and_look(c)->Frame_0 is EntityPositionAndLook,
{
    reveal(decode_entity_position_and_look);
}

proof fn lemma_shape_entity_status(c: Cursor)
    ensures
        decode_entity_status(c) is Frame ==> decode_entity_status(c)->Frame_0 is EntityStatus,
{
    reveal(decode_entity_status);
}

proof fn lemma_shape_entity_ride(c: Cursor)
    ensures
        decode_entity_ride(c) is Frame ==> decode_entity_ride(c)->Frame_0 is EntityRide,
{
    reveal(decode_entity_ride);
}

proof fn lemma_shape_entity_metadata(c: Cursor)
    ensures
        decode_entity_metadata(c) is Frame ==> decode_entity_metadata(c)->Frame_0 is EntityMetadata,
{
    reveal(decode_entity_metadata);
}

proof fn lemma_shape_chunk_state(c: Cursor)
    ensures
        decode_chunk_state(c) is Frame ==> decode_chunk_state(c)->Frame_0 is ChunkState,
{
    reveal(decode_chunk_state);
}

proof fn lemma_shape_chunk_data(c: Cursor)
    ensures
        decode_chunk_data(c) is Frame ==> decode_chunk_data(c)->Frame_0 is ChunkData,
{
    reveal(decode_chunk_data);
}

proof fn lemma_shape_chunk_block_set(c: Cursor)
    ensures
        decode_chunk_block_set(c) is Frame ==> decode_chunk_block_set(c)->Frame_0 is ChunkBlockSet,
{
    reveal(decode_chunk_block_set);
}

proof fn lemma_shape_block_set(c: Cursor)
    ensures
        decode_block_set(c) is Frame ==> decode_block_set(c)->Frame_0 is BlockSet,
{
    reveal(decode_block_set);
}

proof fn lemma_shape_block_action(c: Cursor)
    ensures
        decode_block_action(c) is Frame ==> decode_block_action(c)->Frame_0 is BlockAction,
{
    reveal(decode_block_action);
}

proof fn lemma_shape_explosion(c: Cursor)
    ensures
        decode_explosion(c) is Frame ==> decode_explosion(c)->Frame_0 is Explosion,
{
    reveal(decode_explosion);
}

proof fn lemma_shape_window_close(c: Cursor)
    ensures
        decode_window_close(c) is Frame ==> decode_window_close(c)->Frame_0 is WindowClose,
{
    reveal(decode_window_close);
}

proof fn lemma_shape_window_click(c: Cursor)
    ensures
        decode_window_click(c) is Frame ==> decode_window_click(c)->Frame_0 is WindowClick,
{
    reveal(decode_window_click);
}

proof fn lemma_shape_window_transaction(c: Cursor)
    ensures
        decode_window_transaction(c) is Frame ==> decode_window_transaction(c)->Frame_0 is WindowTransaction,
{
    reveal(decode_window_transaction);
}

proof fn lemma_shape_update_sign(c: Cursor)
    ensures
        decode_update_sign(c) is Frame ==> decode_update_sign(c)->Frame_0 is UpdateSign,
{
    reveal(decode_update_sign);
}

proof fn lemma_shape_disconnect(c: Cursor)
    ensures
        decode_disconnect(c) is Frame ==> decode_disconnect(c)->Frame_0 is Disconnect,
{
    reveal(decode_disconnect);
}

/// A frame that decodes starts with the tag of the packet it holds, and
/// that tag is one the schema knows.
pub proof fn lemma_frame_starts_with_tag(s: Seq<u8>)
    requires
        spec_decode(s) is Frame,
    ensures
        s.len() > 0,
        s[0] == spec_decode(s)->Frame_0.tag(),
        known_tag(s[0]),
{
    let c = Cursor::At(s.skip(1));
    reveal(decode_fields);
    lemma_shape_login(c);
    lemma_shape_handshake(c);
    lemma_shape_chat(c);
    lemma_shape_update_time(c);
    lemma_shape_player_inventory(c);
    lemma_shape_spawn_position(c);
    lemma_shape_interact(c);
    lemma_shape_update_health(c);
    lemma_shape_respawn(c);
    lemma_shape_flying(c);
    lemma_shape_position(c);
    lemma_shape_look(c);
    lemma_shape_position_look(c);
    lemma_shape_break_block(c);
    lemma_shape_place_block(c);
    lemma_shape_hand_slot(c);
    lemma_shape_player_sleep(c);
    lemma_shape_entity_animation(c);
    lemma_shape_entity_action(c);
    lemma_shape_human_spawn(c);
    lemma_shape_item_spawn(c);
    lemma_shape_entity_pickup(c);
    lemma_shape_object_spawn(c);
    lemma_shape_mob_spawn(c);
    lemma_shape_painting_spawn(c);
    lemma_shape_entity_velocity(c);
    lemma_shape_entity_kill(c);
    lemma_shape_entity(c);
    lemma_shape_entity_move(c);
    lemma_shape_entity_look(c);
    lemma_shape_entity_move_and_look(c);
    lemma_shape_entity_position_and_look(c);
    lemma_shape_entity_status(c);
    lemma_shape_entity_ride(c);
    lemma_shape_entity_metadata(c);
    lemma_shape_chunk_state(c);
    lemma_shape_chunk_data(c);
    lemma_shape_chunk_block_set(c);
    lemma_shape_block_set(c);
    lemma_shape_block_action(c);
    lemma_shape_explosion(c);
    lemma_shape_window_close(c);
    lemma_shape_window_click(c);
    lemma_shape_window_transaction(c);
    lemma_shape_update_sign(c);
    lemma_shape_disconnect(c);
}

/// Two packets have one tag exactly when they are of one variant, and every
/// packet's tag is known.
pub proof fn lemma_tag_names_one_variant(a: PacketView, b: PacketView)
    ensures
        a.tag() == b.tag() <==> a.same_variant(b),
        known_tag(a.tag()),
{
}


proof fn lemma_fields_before(packet: PacketView, tail: Seq<u8>)
    ensures
        fields_before(packet, tail) == fields_before(packet, Seq::empty()) + tail,
{
    assert(Seq::<u8>::empty() + tail =~= tail);
    match packet {
        PacketView::KeepAlive => {},
        PacketView::Login { .. } => {
            assert(fields_before(packet, tail) == fields_before(packet, Seq::empty()) + tail) by {
                broadcast use lemma_concat_assoc;

            }
        },
        PacketView::Handshake { .. } => {
            assert(fields_before(packet, tail) == fields_before(packet, Seq::empty()) + tail) by {
                broadcast use lemma_concat_assoc;

            }
        },
        PacketView::Chat { .. } => {
            assert(fields_before(packet, tail) == fields_before(packet, Seq::empty()) + tail) by {
                broadcast use lemma_concat_assoc;

            }
        },
        PacketView::UpdateTime { .. } => {
            assert(fields_before(packet, tail) == fields_before(packet, Seq::empty()) + tail) by {
                broadcast use lemma_concat_assoc;

            }
        },
        PacketView::PlayerInventory { .. } => {
            assert(fields_before(packet, tail) == fields_before(packet, Seq::empty()) + tail) by {
                broadcast use lemma_concat_assoc;

            }
        },
        PacketView::SpawnPosition { .. } => {
            assert(fields_before(packet, tail) == fields_before(packet, Seq::empty()) + tail) by {
                broadcast use lemma_concat_assoc;

            }
        },
        PacketView::Interact { .. } => {
            assert(fields_before(packet, tail) == fields_before(packet, Seq::empty()) + tail) by {
                broadcast use lemma_concat_assoc;

            }
        },
        PacketView::UpdateHealth { .. } => {
            assert(fields_before(packet, tail) == fields_before(packet, Seq::empty()) + tail) by {
                broadcast use lemma_concat_assoc;

            }
        },
        PacketView::Respawn { .. } => {
            assert(fields_before(packet, tail) == fields_before(packet, Seq::empty()) + tail) by {
                broadcast use lemma_concat_assoc;

            }
        },
        PacketView::Flying { .. } => {
            assert(fields_before(packet, tail) == fields_before(packet, Seq::empty()) + tail) by {
                broadcast use lemma_concat_assoc;

            }
        },
        PacketView::Position { .. } => {
            assert(fields_before(packet, tail) == fields_before(packet, Seq::empty()) + tail) by {
                broadcast use lemma_concat_assoc;

            }
        },
        PacketView::Look { .. } => {
            assert(fields_before(packet, tail) == fields_before(packet, Seq::empty()) + tail) by {
                broadcast use lemma_concat_assoc;

            }
        },
        PacketView::PositionLook { .. } => {
            assert(fields_before(packet, tail) == fields_before(packet, Seq::empty()) + tail) by {
                broadcast use lemma_concat_assoc;

            }
        },
        PacketView::BreakBlock { .. } => {
            assert(fields_before(packet, tail) == fields_before(packet, Seq::empty()) + tail) by {
                broadcast use lemma_concat_assoc;

            }
        },
        PacketView::PlaceBlock { .. } => {
            assert(fields_before(packet, tail) == fields_before(packet, Seq::empty()) + tail) by {
                broadcast use lemma_concat_assoc;

            }
        },
        PacketView::HandSlot { .. } => {
            assert(fields_before(packet, tail) == fields_before(packet, Seq::empty()) + tail) by {
                broadcast use lemma_concat_assoc;

            }
        },
        PacketView::PlayerSleep { .. } => {
            assert(fields_before(packet, tail) == fields_before(packet, Seq::empty()) + tail) by {
                broadcast use lemma_concat_assoc;

            }
        },
        PacketView::EntityAnimation { .. } => {
            assert(fields_before(packet, tail) == fields_before(packet, Seq::empty()) + tail) by {
                broadcast use lemma_concat_assoc;

            }
        },
        PacketView::EntityAction { .. } => {
            assert(fields_before(packet, tail) == fields_before(packet, Seq::empty()) + tail) by {
                broadcast use lemma_concat_assoc;

            }
        },
        PacketView::HumanSpawn { .. } => {
            assert(fields_before(packet, tail) == fields_before(packet, Seq::empty()) + tail) by {
                broadcast use lemma_concat_assoc;

            }
        },
        PacketView::ItemSpawn { .. } => {
            assert(fields_before(packet, tail) == fields_before(packet, Seq::empty()) + tail) by {
                broadcast use lemma_concat_assoc;

            }
        },
        PacketView::EntityPickup { .. } => {
            assert(fields_before(packet, tail) == fields_before(packet, Seq::empty()) + tail) by {
                broadcast use lemma_concat_assoc;

            }
        },
        PacketView::ObjectSpawn { .. } => {
            assert(fields_before(packet, tail) == fields_before(packet, Seq::empty()) + tail) by {
                broadcast use lemma_concat_assoc;

            }
        },
        PacketView::MobSpawn { .. } => {
            assert(fields_before(packet, tail) == fields_before(packet, Seq::empty()) + tail) by {
                broadcast use lemma_concat_assoc;

            }
        },
        PacketView::PaintingSpawn { .. } => {
            assert(fields_before(packet, tail) == fields_before(packet, Seq::empty()) + tail) by {
                broadcast use lemma_concat_assoc;

            }
        },
        PacketView::EntityVelocity { .. } => {
            assert(fields_before(packet, tail) == fields_before(packet, Seq::empty()) + tail) by {
                broadcast use lemma_concat_assoc;

            }
        },
        PacketView::EntityKill { .. } => {
            assert(fields_before(packet, tail) == fields_before(packet, Seq::empty()) + tail) by {
                broadcast use lemma_concat_assoc;

            }
        },
        PacketView::Entity { .. } => {
            assert(fields_before(packet, tail) == fields_before(packet, Seq::empty()) + tail) by {
                broadcast use lemma_concat_assoc;

            }
        },
        PacketView::EntityMove { .. } => {
            assert(fields_before(packet, tail) == fields_before(packet, Seq::empty()) + tail) by {
                broadcast use lemma_concat_assoc;

            }
        },
        PacketView::EntityLook { .. } => {
            assert(fields_before(packet, tail) == fields_before(packet, Seq::empty()) + tail) by {
                broadcast use lemma_concat_assoc;

            }
        },
        PacketView::EntityMoveAndLook { .. } => {
            assert(fields_before(packet, tail) == fields_before(packet, Seq::empty()) + tail) by {
                broadcast use lemma_concat_assoc;

            }
        },
        PacketView::EntityPositionAndLook { .. } => {
            assert(fields_before(packet, tail) == fields_before(packet, Seq::empty()) + tail) by {
                broadcast use lemma_concat_assoc;

            }
        },
        PacketView::EntityStatus { .. } => {
            assert(fields_before(packet, tail) == fields_before(packet, Seq::empty()) + tail) by {
                broadcast use lemma_concat_assoc;

            }
        },
        PacketView::EntityRide { .. } => {
            assert(fields_before(packet, tail) == fields_before(packet, Seq::empty()) + tail) by {
                broadcast use lemma_concat_assoc;

            }
        },
        PacketView::EntityMetadata { .. } => {
            assert(fields_before(packet, tail) == fields_before(packet, Seq::empty()) + tail) by {
                broadcast use lemma_concat_assoc;

            }
        },
        PacketView::ChunkState { .. } => {
            assert(fields_before(packet, tail) == fields_before(packet, Seq::empty()) + tail) by {
                broadcast use lemma_concat_assoc;

            }
        },
        PacketView::ChunkData { .. } => {
            assert(fields_before(packet, tail) == fields_before(packet, Seq::empty()) + tail) by {
                broadcast use lemma_concat_assoc;

            }
        },
        PacketView::ChunkBlockSet { .. } => {
            assert(fields_before(packet, tail) == fields_before(packet, Seq::empty()) + tail) by {
                broadcast use lemma_concat_assoc;

            }
        },
        PacketView::BlockSet { .. } => {
            assert(fields_before(packet, tail) == fields_before(packet, Seq::empty()) + tail) by {
                broadcast use lemma_concat_assoc;

            }
        },
        PacketView::BlockAction { .. } => {
            assert(fields_before(packet, tail) == fields_before(packet, Seq::empty()) + tail) by {
                broadcast use lemma_concat_assoc;

            }
        },
        PacketView::Explosion { .. } => {
            assert(fields_before(packet, tail) == fields_before(packet, Seq::empty()) + tail) by {
                broadcast use lemma_concat_assoc;

            }
        },
        PacketView::WindowClose { .. } => {
            assert(fields_before(packet, tail) == fields_before(packet, Seq::empty()) + tail) by {
                broadcast use lemma_concat_assoc;

            }
        },
        PacketView::WindowClick { .. } => {
            assert(fields_before(packet, tail) == fields_before(packet, Seq::empty()) + tail) by {
                broadcast use lemma_concat_assoc;

            }
        },
        PacketView::WindowTransaction { .. } => {
            assert(fields_before(packet, tail) == fields_before(packet, Seq::empty()) + tail) by {
                broadcast use lemma_concat_assoc;

            }
        },
        PacketView::UpdateSign { .. } => {
            assert(fields_before(packet, tail) == fields_before(packet, Seq::empty()) + tail) by {
                broadcast use lemma_concat_assoc;

            }
        },
        PacketView::Disconnect { .. } => {
            assert(fields_before(packet, tail) == fields_before(packet, Seq::empty()) + tail) by {
                broadcast use lemma_concat_assoc;

            }
        },
    }
}

/// The frame of a packet before other bytes is its frame, then those bytes.
pub proof fn lemma_frame_before(packet: PacketView, tail: Seq<u8>)
    ensures
        frame_before(packet, tail) == spec_encode(packet) + tail,
{
    lemma_fields_before(packet, tail);
    lemma_concat_assoc(be_u8(packet.tag()), fields_before(packet, Seq::empty()), tail);
}

/// A frame with other bytes behind it decodes to its packet and leaves
/// those bytes.
pub proof fn lemma_following_bytes_untouched(packet: PacketView, tail: Seq<u8>)
    requires
        packet.wf(),
    ensures
        spec_decode(spec_encode(packet) + tail) == Parsed::Frame(packet, tail),
        spec_decode(spec_encode(packet)) == Parsed::Frame(packet, Seq::<u8>::empty()),
{
    lemma_frame_before(packet, tail);
    lemma_round_trip(packet, tail);
    lemma_round_trip(packet, Seq::empty());
}


proof fn lemma_shrinks_login(s: Seq<u8>)
    ensures
        decode_login(Cursor::At(s)) is Frame ==> decode_login(Cursor::At(s))->Frame_1.len() <= s.len(),
{
    reveal(decode_login);
}

proof fn lemma_shrinks_handshake(s: Seq<u8>)
    ensures
        decode_handshake(Cursor::At(s)) is Frame ==> decode_handshake(Cursor::At(s))->Frame_1.len() <= s.len(),
{
    reveal(decode_handshake);
}

proof fn lemma_shrinks_chat(s: Seq<u8>)
    ensures
        decode_chat(Cursor::At(s)) is Frame ==> decode_chat(Cursor::At(s))->Frame_1.len() <= s.len(),
{
    reveal(decode_chat);
}

proof fn lemma_shrinks_update_time(s: Seq<u8>)
    ensures
        decode_update_time(Cursor::At(s)) is Frame ==> decode_update_time(Cursor::At(s))->Frame_1.len() <= s.len(),
{
    reveal(decode_update_time);
}

proof fn lemma_shrinks_player_inventory(s: Seq<u8>)
    ensures
        decode_player_inventory(Cursor::At(s)) is Frame ==> decode_player_inventory(Cursor::At(s))->Frame_1.len() <= s.len(),
{
    reveal(decode_player_inventory);
}

proof fn lemma_shrinks_spawn_position(s: Seq<u8>)
    ensures
        decode_spawn_position(Cursor::At(s)) is Frame ==> decode_spawn_position(Cursor::At(s))->Frame_1.len() <= s.len(),
{
    reveal(decode_spawn_position);
}

proof fn lemma_shrinks_interact(s: Seq<u8>)
    ensures
        decode_interact(Cursor::At(s)) is Frame ==> decode_interact(Cursor::At(s))->Frame_1.len() <= s.len(),
{
    reveal(decode_interact);
}

proof fn lemma_shrinks_update_health(s: Seq<u8>)
    ensures
        decode_update_health(Cursor::At(s)) is Frame ==> decode_update_health(Cursor::At(s))->Frame_1.len() <= s.len(),
{
    reveal(decode_update_health);
}

proof fn lemma_shrinks_respawn(s: Seq<u8>)
    ensures
        decode_respawn(Cursor::At(s)) is Frame ==> decode_respawn(Cursor::At(s))->Frame_1.len() <= s.len(),
{
    reveal(decode_respawn);
}

proof fn lemma_shrinks_flying(s: Seq<u8>)
    ensures
        decode_flying(Cursor::At(s)) is Frame ==> decode_flying(Cursor::At(s))->Frame_1.len() <= s.len(),
{
    reveal(decode_flying);
}

proof fn lemma_shrinks_position(s: Seq<u8>)
    ensures
        decode_position(Cursor::At(s)) is Frame ==> decode_position(Cursor::At(s))->Frame_1.len() <= s.len(),
{
    reveal(decode_position);
}

proof fn lemma_shrinks_look(s: Seq<u8>)
    ensures
        decode_look(Cursor::At(s)) is Frame ==> decode_look(Cursor::At(s))->Frame_1.len() <= s.len(),
{
    reveal(decode_look);
}

proof fn lemma_shrinks_position_look(s: Seq<u8>)
    ensures
        decode_position_look(Cursor::At(s)) is Frame ==> decode_position_look(Cursor::At(s))->Frame_1.len() <= s.len(),
{
    reveal(decode_position_look);
}

proof fn lemma_shrinks_break_block(s: Seq<u8>)
    ensures
        decode_break_block(Cursor::At(s)) is Frame ==> decode_break_block(Cursor::At(s))->Frame_1.len() <= s.len(),
{
    reveal(decode_break_block);
}

proof fn lemma_shrinks_place_block(s: Seq<u8>)
    ensures
        decode_place_block(Cursor::At(s)) is Frame ==> decode_place_block(Cursor::At(s))->Frame_1.len() <= s.len(),
{
    reveal(decode_place_block);
}

proof fn lemma_shrinks_hand_slot(s: Seq<u8>)
    ensures
        decode_hand_slot(Cursor::At(s)) is Frame ==> decode_hand_slot(Cursor::At(s))->Frame_1.len() <= s.len(),
{
    reveal(decode_hand_slot);
}

proof fn lemma_shrinks_player_sleep(s: Seq<u8>)
    ensures
        decode_player_sleep(Cursor::At(s)) is Frame ==> decode_player_sleep(Cursor::At(s))->Frame_1.len() <= s.len(),
{
    reveal(decode_player_sleep);
}

proof fn lemma_shrinks_entity_animation(s: Seq<u8>)
    ensures
        decode_entity_animation(Cursor::At(s)) is Frame ==> decode_entity_animation(Cursor::At(s))->Frame_1.len() <= s.len(),
{
    reveal(decode_entity_animation);
}

proof fn lemma_shrinks_entity_action(s: Seq<u8>)
    ensures
        decode_entity_action(Cursor::At(s)) is Frame ==> decode_entity_action(Cursor::At(s))->Frame_1.len() <= s.len(),
{
    reveal(decode_entity_action);
}

proof fn lemma_shrinks_human_spawn(s: Seq<u8>)
    ensures
        decode_human_spawn(Cursor::At(s)) is Frame ==> decode_human_spawn(Cursor::At(s))->Frame_1.len() <= s.len(),
{
    reveal(decode_human_spawn);
}

proof fn lemma_shrinks_item_spawn(s: Seq<u8>)
    ensures
        decode_item_spawn(Cursor::At(s)) is Frame ==> decode_item_spawn(Cursor::At(s))->Frame_1.len() <= s.len(),
{
    reveal(decode_item_spawn);
}

proof fn lemma_shrinks_entity_pickup(s: Seq<u8>)
    ensures
        decode_entity_pickup(Cursor::At(s)) is Frame ==> decode_entity_pickup(Cursor::At(s))->Frame_1.len() <= s.len(),
{
    reveal(decode_entity_pickup);
}

proof fn lemma_shrinks_object_spawn(s: Seq<u8>)
    ensures
        decode_object_spawn(Cursor::At(s)) is Frame ==> decode_object_spawn(Cursor::At(s))->Frame_1.len() <= s.len(),
{
    reveal(decode_object_spawn);
}

proof fn lemma_shrinks_mob_spawn(s: Seq<u8>)
    ensures
        decode_mob_spawn(Cursor::At(s)) is Frame ==> decode_mob_spawn(Cursor::At(s))->Frame_1.len() <= s.len(),
{
    reveal(decode_mob_spawn);
}

proof fn lemma_shrinks_painting_spawn(s: Seq<u8>)
    ensures
        decode_painting_spawn(Cursor::At(s)) is Frame ==> decode_painting_spawn(Cursor::At(s))->Frame_1.len() <= s.len(),
{
    reveal(decode_painting_spawn);
}

proof fn lemma_shrinks_entity_velocity(s: Seq<u8>)
    ensures
        decode_entity_velocity(Cursor::At(s)) is Frame ==> decode_entity_velocity(Cursor::At(s))->Frame_1.len() <= s.len(),
{
    reveal(decode_entity_velocity);
}

proof fn lemma_shrinks_entity_kill(s: Seq<u8>)
    ensures
        decode_entity_kill(Cursor::At(s)) is Frame ==> decode_entity_kill(Cursor::At(s))->Frame_1.len() <= s.len(),
{
    reveal(decode_entity_kill);
}

proof fn lemma_shrinks_entity(s: Seq<u8>)
    ensures
        decode_entity(Cursor::At(s)) is Frame ==> decode_entity(Cursor::At(s))->Frame_1.len() <= s.len(),
{
    reveal(decode_entity);
}

proof fn lemma_shrinks_entity_move(s: Seq<u8>)
    ensures
        decode_entity_move(Cursor::At(s)) is Frame ==> decode_entity_move(Cursor::At(s))->Frame_1.len() <= s.len(),
{
    reveal(decode_entity_move);
}

proof fn lemma_shrinks_entity_look(s: Seq<u8>)
    ensures
        decode_entity_look(Cursor::At(s)) is Frame ==> decode_entity_look(Cursor::At(s))->Frame_1.len() <= s.len(),
{
    reveal(decode_entity_look);
}

proof fn lemma_shrinks_entity_move_and_look(s: Seq<u8>)
    ensures
        decode_entity_move_and_look(Cursor::At(s)) is Frame ==> decode_entity_move_and_look(Cursor::At(s))->Frame_1.len() <= s.len(),
{
    reveal(decode_entity_move_and_look);
}

proof fn lemma_shrinks_entity_position_and_look(s: Seq<u8>)
    ensures
        decode_entity_position_and_look(Cursor::At(s)) is Frame ==> decode_entity_position_and_look(Cursor::At(s))->Frame_1.len() <= s.len(),
{
    reveal(decode_entity_position_and_look);
}

proof fn lemma_shrinks_entity_status(s: Seq<u8>)
    ensures
        decode_entity_status(Cursor::At(s)) is Frame ==> decode_entity_status(Cursor::At(s))->Frame_1.len() <= s.len(),
{
    reveal(decode_entity_status);
}

proof fn lemma_shrinks_entity_ride(s: Seq<u8>)
    ensures
        decode_entity_ride(Cursor::At(s)) is Frame ==> decode_entity_ride(Cursor::At(s))->Frame_1.len() <= s.len(),
{
    reveal(decode_entity_ride);
}

proof fn lemma_shrinks_entity_metadata(s: Seq<u8>)
    ensures
        decode_entity_metadata(Cursor::At(s)) is Frame ==> decode_entity_metadata(Cursor::At(s))->Frame_1.len() <= s.len(),
{
    reveal(decode_entity_metadata);
}

proof fn lemma_shrinks_chunk_state(s: Seq<u8>)
    ensures
        decode_chunk_state(Cursor::At(s)) is Frame ==> decode_chunk_state(Cursor::At(s))->Frame_1.len() <= s.len(),
{
    reveal(decode_chunk_state);
}

proof fn lemma_shrinks_chunk_data(s: Seq<u8>)
    ensures
        decode_chunk_data(Cursor::At(s)) is Frame ==> decode_chunk_data(Cursor::At(s))->Frame_1.len() <= s.len(),
{
    reveal(decode_chunk_data);
}

proof fn lemma_shrinks_chunk_block_set(s: Seq<u8>)
    ensures
        decode_chunk_block_set(Cursor::At(s)) is Frame ==> decode_chunk_block_set(Cursor::At(s))->Frame_1.len() <= s.len(),
{
    reveal(decode_chunk_block_set);
}

proof fn lemma_shrinks_block_set(s: Seq<u8>)
    ensures
        decode_block_set(Cursor::At(s)) is Frame ==> decode_block_set(Cursor::At(s))->Frame_1.len() <= s.len(),
{
    reveal(decode_block_set);
}

proof fn lemma_shrinks_block_action(s: Seq<u8>)
    ensures
        decode_block_action(Cursor::At(s)) is Frame ==> decode_block_action(Cursor::At(s))->Frame_1.len() <= s.len(),
{
    reveal(decode_block_action);
}

proof fn lemma_shrinks_explosion(s: Seq<u8>)
    ensures
        decode_explosion(Cursor::At(s)) is Frame ==> decode_explosion(Cursor::At(s))->Frame_1.len() <= s.len(),
{
    reveal(decode_explosion);
}

proof fn lemma_shrinks_window_close(s: Seq<u8>)
    ensures
        decode_window_close(Cursor::At(s)) is Frame ==> decode_window_close(Cursor::At(s))->Frame_1.len() <= s.len(),
{
    reveal(decode_window_close);
}

proof fn lemma_shrinks_window_click(s: Seq<u8>)
    ensures
        decode_window_click(Cursor::At(s)) is Frame ==> decode_window_click(Cursor::At(s))->Frame_1.len() <= s.len(),
{
    reveal(decode_window_click);
}

proof fn lemma_shrinks_window_transaction(s: Seq<u8>)
    ensures
        decode_window_transaction(Cursor::At(s)) is Frame ==> decode_window_transaction(Cursor::At(s))->Frame_1.len() <= s.len(),
{
    reveal(decode_window_transaction);
}

proof fn lemma_shrinks_update_sign(s: Seq<u8>)
    ensures
        decode_update_sign(Cursor::At(s)) is Frame ==> decode_update_sign(Cursor::At(s))->Frame_1.len() <= s.len(),
{
    reveal(decode_update_sign);
}

proof fn lemma_shrinks_disconnect(s: Seq<u8>)
    ensures
        decode_disconnect(Cursor::At(s)) is Frame ==> decode_disconnect(Cursor::At(s))->Frame_1.len() <= s.len(),
{
    reveal(decode_disconnect);
}

/// A frame that decodes takes at least its tag byte: what is left behind
/// it is shorter than what was there.
pub proof fn lemma_frame_consumes(s: Seq<u8>)
    requires
        spec_decode(s) is Frame,
    ensures
        spec_decode(s)->Frame_1.len() < s.len(),
{
    let body = s.skip(1);
    reveal(decode_fields);
    lemma_shrinks_login(body);
    lemma_shrinks_handshake(body);
    lemma_shrinks_chat(body);
    lemma_shrinks_update_time(body);
    lemma_shrinks_player_inventory(body);
    lemma_shrinks_spawn_position(body);
    lemma_shrinks_interact(body);
    lemma_shrinks_update_health(body);
    lemma_shrinks_respawn(body);
    lemma_shrinks_flying(body);
    lemma_shrinks_position(body);
    lemma_shrinks_look(body);
    lemma_shrinks_position_look(body);
    lemma_shrinks_break_block(body);
    lemma_shrinks_place_block(body);
    lemma_shrinks_hand_slot(body);
    lemma_shrinks_player_sleep(body);
    lemma_shrinks_entity_animation(body);
    lemma_shrinks_entity_action(body);
    lemma_shrinks_human_spawn(body);
    lemma_shrinks_item_spawn(body);
    lemma_shrinks_entity_pickup(body);
    lemma_shrinks_object_spawn(body);
    lemma_shrinks_mob_spawn(body);
    lemma_shrinks_painting_spawn(body);
    lemma_shrinks_entity_velocity(body);
    lemma_shrinks_entity_kill(body);
    lemma_shrinks_entity(body);
    lemma_shrinks_entity_move(body);
    lemma_shrinks_entity_look(body);
    lemma_shrinks_entity_move_and_look(body);
    lemma_shrinks_entity_position_and_look(body);
    lemma_shrinks_entity_status(body);
    lemma_shrinks_entity_ride(body);
    lemma_shrinks_entity_metadata(body);
    lemma_shrinks_chunk_state(body);
    lemma_shrinks_chunk_data(body);
    lemma_shrinks_chunk_block_set(body);
    lemma_shrinks_block_set(body);
    lemma_shrinks_block_action(body);
    lemma_shrinks_explosion(body);
    lemma_shrinks_window_close(body);
    lemma_shrinks_window_click(body);
    lemma_shrinks_window_transaction(body);
    lemma_shrinks_update_sign(body);
    lemma_shrinks_disconnect(body);
}

proof fn lemma_valid_login(c: Cursor)
    ensures
        decode_login(c) is Frame ==> decode_login(c)->Frame_0.wf(),
{
    reveal(decode_login);
}

proof fn lemma_valid_handshake(c: Cursor)
    ensures
        decode_handshake(c) is Frame ==> decode_handshake(c)->Frame_0.wf(),
{
    reveal(decode_handshake);
}

proof fn lemma_valid_chat(c: Cursor)
    ensures
        decode_chat(c) is Frame ==> decode_chat(c)->Frame_0.wf(),
{
    reveal(decode_chat);
}

proof fn lemma_valid_update_time(c: Cursor)
    ensures
        decode_update_time(c) is Frame ==> decode_update_time(c)->Frame_0.wf(),
{
    lemma_shape_update_time(c);
}

proof fn lemma_valid_player_inventory(c: Cursor)
    ensures
        decode_player_inventory(c) is Frame ==> decode_player_inventory(c)->Frame_0.wf(),
{
    lemma_shape_player_inventory(c);
}

proof fn lemma_valid_spawn_position(c: Cursor)
    ensures
        decode_spawn_position(c) is Frame ==> decode_spawn_position(c)->Frame_0.wf(),
{
    lemma_shape_spawn_position(c);
}

proof fn lemma_valid_interact(c: Cursor)
    ensures
        decode_interact(c) is Frame ==> decode_interact(c)->Frame_0.wf(),
{
    lemma_shape_interact(c);
}

proof fn lemma_valid_update_health(c: Cursor)
    ensures
        decode_update_health(c) is Frame ==> decode_update_health(c)->Frame_0.wf(),
{
    lemma_shape_update_health(c);
}

proof fn lemma_valid_respawn(c: Cursor)
    ensures
        decode_respawn(c) is Frame ==> decode_respawn(c)->Frame_0.wf(),
{
    lemma_shape_respawn(c);
}

proof fn lemma_valid_flying(c: Cursor)
    ensures
        decode_flying(c) is Frame ==> decode_flying(c)->Frame_0.wf(),
{
    lemma_shape_flying(c);
}

proof fn lemma_valid_position(c: Cursor)
    ensures
        decode_position(c) is Frame ==> decode_position(c)->Frame_0.wf(),
{
    lemma_shape_position(c);
}

proof fn lemma_valid_look(c: Cursor)
    ensures
        decode_look(c) is Frame ==> decode_look(c)->Frame_0.wf(),
{
    lemma_shape_look(c);
}

proof fn lemma_valid_position_look(c: Cursor)
    ensures
        decode_position_look(c) is Frame ==> decode_position_look(c)->Frame_0.wf(),
{
    lemma_shape_position_look(c);
}

proof fn lemma_valid_break_block(c: Cursor)
    ensures
        decode_break_block(c) is Frame ==> decode_break_block(c)->Frame_0.wf(),
{
    lemma_shape_break_block(c);
}

proof fn lemma_valid_place_block(c: Cursor)
    ensures
        decode_place_block(c) is Frame ==> decode_place_block(c)->Frame_0.wf(),
{
    lemma_shape_place_block(c);
}

proof fn lemma_valid_hand_slot(c: Cursor)
    ensures
        decode_hand_slot(c) is Frame ==> decode_hand_slot(c)->Frame_0.wf(),
{
    lemma_shape_hand_slot(c);
}

proof fn lemma_valid_player_sleep(c: Cursor)
    ensures
        decode_player_sleep(c) is Frame ==> decode_player_sleep(c)->Frame_0.wf(),
{
    lemma_shape_player_sleep(c);
}

proof fn lemma_valid_entity_animation(c: Cursor)
    ensures
        decode_entity_animation(c) is Frame ==> decode_entity_animation(c)->Frame_0.wf(),
{
    lemma_shape_entity_animation(c);
}

proof fn lemma_valid_entity_action(c: Cursor)
    ensures
        decode_entity_action(c) is Frame ==> decode_entity_action(c)->Frame_0.wf(),
{
    lemma_shape_entity_action(c);
}

proof fn lemma_valid_human_spawn(c: Cursor)
    ensures
        decode_human_spawn(c) is Frame ==> decode_human_spawn(c)->Frame_0.wf(),
{
    reveal(decode_human_spawn);
}

proof fn lemma_valid_item_spawn(c: Cursor)
    ensures
        decode_item_spawn(c) is Frame ==> decode_item_spawn(c)->Frame_0.wf(),
{
    lemma_shape_item_spawn(c);
}

proof fn lemma_valid_entity_pickup(c: Cursor)
    ensures
        decode_entity_pickup(c) is Frame ==> decode_entity_pickup(c)->Frame_0.wf(),
{
    lemma_shape_entity_pickup(c);
}

proof fn lemma_valid_object_spawn(c: Cursor)
    ensures
        decode_object_spawn(c) is Frame ==> decode_object_spawn(c)->Frame_0.wf(),
{
    reveal(decode_object_spawn);
}

proof fn lemma_valid_mob_spawn(c: Cursor)
    ensures
        decode_mob_spawn(c) is Frame ==> decode_mob_spawn(c)->Frame_0.wf(),
{
    lemma_shape_mob_spawn(c);
}

proof fn lemma_valid_painting_spawn(c: Cursor)
    ensures
        decode_painting_spawn(c) is Frame ==> decode_painting_spawn(c)->Frame_0.wf(),
{
    reveal(decode_painting_spawn);
}

proof fn lemma_valid_entity_velocity(c: Cursor)
    ensures
        decode_entity_velocity(c) is Frame ==> decode_entity_velocity(c)->Frame_0.wf(),
{
    lemma_shape_entity_velocity(c);
}

proof fn lemma_valid_entity_kill(c: Cursor)
    ensures
        decode_entity_kill(c) is Frame ==> decode_entity_kill(c)->Frame_0.wf(),
{
    lemma_shape_entity_kill(c);
}

proof fn lemma_valid_entity(c: Cursor)
    ensures
        decode_entity(c) is Frame ==> decode_entity(c)->Frame_0.wf(),
{
    lemma_shape_entity(c);
}

proof fn lemma_valid_entity_move(c: Cursor)
    ensures
        decode_entity_move(c) is Frame ==> decode_entity_move(c)->Frame_0.wf(),
{
    lemma_shape_entity_move(c);
}

proof fn lemma_valid_entity_look(c: Cursor)
    ensures
        decode_entity_look(c) is Frame ==> decode_entity_look(c)->Frame_0.wf(),
{
    lemma_shape_entity_look(c);
}

proof fn lemma_valid_entity_move_and_look(c: Cursor)
    ensures
        decode_entity_move_and_look(c) is Frame ==> decode_entity_move_and_look(c)->Frame_0.wf(),
{
    lemma_shape_entity_move_and_look(c);
}

proof fn lemma_valid_entity_position_and_look(c: Cursor)
    ensures
        decode_entity_position_and_look(c) is Frame ==> decode_entity_position_and_look(c)->Frame_0.wf(),
{
    lemma_shape_entity_position_and_look(c);
}

proof fn lemma_valid_entity_status(c: Cursor)
    ensures
        decode_entity_status(c) is Frame ==> decode_entity_status(c)->Frame_0.wf(),
{
    lemma_shape_entity_status(c);
}

proof fn lemma_valid_entity_ride(c: Cursor)
    ensures
        decode_entity_ride(c) is Frame ==> decode_entity_ride(c)->Frame_0.wf(),
{
    lemma_shape_entity_ride(c);
}

proof fn lemma_valid_entity_metadata(c: Cursor)
    ensures
        decode_entity_metadata(c) is Frame ==> decode_entity_metadata(c)->Frame_0.wf(),
{
    lemma_shape_entity_metadata(c);
}

proof fn lemma_valid_chunk_state(c: Cursor)
    ensures
        decode_chunk_state(c) is Frame ==> decode_chunk_state(c)->Frame_0.wf(),
{
    lemma_shape_chunk_state(c);
}

proof fn lemma_valid_chunk_data(c: Cursor)
    ensures
        decode_chunk_data(c) is Frame ==> decode_chunk_data(c)->Frame_0.wf(),
{
    reveal(decode_chunk_data);
}

proof fn lemma_valid_chunk_block_set(c: Cursor)
    ensures
        decode_chunk_block_set(c) is Frame ==> decode_chunk_block_set(c)->Frame_0.wf(),
{
    reveal(decode_chunk_block_set);
}

proof fn lemma_valid_block_set(c: Cursor)
    ensures
        decode_block_set(c) is Frame ==> decode_block_set(c)->Frame_0.wf(),
{
    lemma_shape_block_set(c);
}

proof fn lemma_valid_block_action(c: Cursor)
    ensures
        decode_block_action(c) is Frame ==> decode_block_action(c)->Frame_0.wf(),
{
    lemma_shape_block_action(c);
}

proof fn lemma_valid_explosion(c: Cursor)
    ensures
        decode_explosion(c) is Frame ==> decode_explosion(c)->Frame_0.wf(),
{
    reveal(decode_explosion);
}

proof fn lemma_valid_window_close(c: Cursor)
    ensures
        decode_window_close(c) is Frame ==> decode_window_close(c)->Frame_0.wf(),
{
    lemma_shape_window_close(c);
}

proof fn lemma_valid_window_click(c: Cursor)
    ensures
        decode_window_click(c) is Frame ==> decode_window_click(c)->Frame_0.wf(),
{
    lemma_shape_window_click(c);
}

proof fn lemma_valid_window_transaction(c: Cursor)
    ensures
        decode_window_transaction(c) is Frame ==> decode_window_transaction(c)->Frame_0.wf(),
{
    lemma_shape_window_transaction(c);
}

proof fn lemma_valid_update_sign(c: Cursor)
    ensures
        decode_update_sign(c) is Frame ==> decode_update_sign(c)->Frame_0.wf(),
{
    reveal(decode_update_sign);
}

proof fn lemma_valid_disconnect(c: Cursor)
    ensures
        decode_disconnect(c) is Frame ==> decode_disconnect(c)->Frame_0.wf(),
{
    reveal(decode_disconnect);
}

/// Only packets that the wire can carry are ever decoded.
pub proof fn lemma_decoded_is_valid(s: Seq<u8>)
    requires
        spec_decode(s) is Frame,
    ensures
        spec_decode(s)->Frame_0.wf(),
{
    let c = Cursor::At(s.skip(1));
    reveal(decode_fields);
    lemma_valid_login(c);
    lemma_valid_handshake(c);
    lemma_valid_chat(c);
    lemma_valid_update_time(c);
    lemma_valid_player_inventory(c);
    lemma_valid_spawn_position(c);
    lemma_valid_interact(c);
    lemma_valid_update_health(c);
    lemma_valid_respawn(c);
    lemma_valid_flying(c);
    lemma_valid_position(c);
    lemma_valid_look(c);
    lemma_valid_position_look(c);
    lemma_valid_break_block(c);
    lemma_valid_place_block(c);
    lemma_valid_hand_slot(c);
    lemma_valid_player_sleep(c);
    lemma_valid_entity_animation(c);
    lemma_valid_entity_action(c);
    lemma_valid_human_spawn(c);
    lemma_valid_item_spawn(c);
    lemma_valid_entity_pickup(c);
    lemma_valid_object_spawn(c);
    lemma_valid_mob_spawn(c);
    lemma_valid_painting_spawn(c);
    lemma_valid_entity_velocity(c);
    lemma_valid_entity_kill(c);
    lemma_valid_entity(c);
    lemma_valid_entity_move(c);
    lemma_valid_entity_look(c);
    lemma_valid_entity_move_and_look(c);
    lemma_valid_entity_position_and_look(c);
    lemma_valid_entity_status(c);
    lemma_valid_entity_ride(c);
    lemma_valid_entity_metadata(c);
    lemma_valid_chunk_state(c);
    lemma_valid_chunk_data(c);
    lemma_valid_chunk_block_set(c);
    lemma_valid_block_set(c);
    lemma_valid_block_action(c);
    lemma_valid_explosion(c);
    lemma_valid_window_close(c);
    lemma_valid_window_click(c);
    lemma_valid_window_transaction(c);
    lemma_valid_update_sign(c);
    lemma_valid_disconnect(c);
}

proof fn lemma_forth_login(c: Cursor)
    ensures
        decode_login(c) is Frame ==> c is At && c->At_0 == fields_before(
            decode_login(c)->Frame_0,
            decode_login(c)->Frame_1,
        ),
{
    broadcast use group_forth;

    reveal(decode_login);
}

proof fn lemma_forth_handshake(c: Cursor)
    ensures
        decode_handshake(c) is Frame ==> c is At && c->At_0 == fields_before(
            decode_handshake(c)->Frame_0,
            decode_handshake(c)->Frame_1,
        ),
{
    broadcast use group_forth;

    reveal(decode_handshake);
}

proof fn lemma_forth_chat(c: Cursor)
    ensures
        decode_chat(c) is Frame ==> c is At && c->At_0 == fields_before(
            decode_chat(c)->Frame_0,
            decode_chat(c)->Frame_1,
        ),
{
    broadcast use group_forth;

    reveal(decode_chat);
}

proof fn lemma_forth_update_time(c: Cursor)
    ensures
        decode_update_time(c) is Frame ==> c is At && c->At_0 == fields_before(
            decode_update_time(c)->Frame_0,
            decode_update_time(c)->Frame_1,
        ),
{
    broadcast use group_forth;

    reveal(decode_update_time);
}

proof fn lemma_forth_player_inventory(c: Cursor)
    ensures
        decode_player_inventory(c) is Frame ==> c is At && c->At_0 == fields_before(
            decode_player_inventory(c)->Frame_0,
            decode_player_inventory(c)->Frame_1,
        ),
{
    broadcast use group_forth;

    reveal(decode_player_inventory);
}

proof fn lemma_forth_spawn_position(c: Cursor)
    ensures
        decode_spawn_position(c) is Frame ==> c is At && c->At_0 == fields_before(
            decode_spawn_position(c)->Frame_0,
            decode_spawn_position(c)->Frame_1,
        ),
{
    broadcast use group_forth;

    reveal(decode_spawn_position);
}

proof fn lemma_forth_interact(c: Cursor)
    ensures
        decode_interact(c) is Frame ==> c is At && c->At_0 == fields_before(
            decode_interact(c)->Frame_0,
            decode_interact(c)->Frame_1,
        ),
{
    broadcast use group_forth;

    reveal(decode_interact);
}

proof fn lemma_forth_update_health(c: Cursor)
    ensures
        decode_update_health(c) is Frame ==> c is At && c->At_0 == fields_before(
            decode_update_health(c)->Frame_0,
            decode_update_health(c)->Frame_1,
        ),
{
    broadcast use group_forth;

    reveal(decode_update_health);
}

proof fn lemma_forth_respawn(c: Cursor)
    ensures
        decode_respawn(c) is Frame ==> c is At && c->At_0 == fields_before(
            decode_respawn(c)->Frame_0,
            decode_respawn(c)->Frame_1,
        ),
{
    broadcast use group_forth;

    reveal(decode_respawn);
}

proof fn lemma_forth_flying(c: Cursor)
    ensures
        decode_flying(c) is Frame ==> c is At && c->At_0 == fields_before(
            decode_flying(c)->Frame_0,
            decode_flying(c)->Frame_1,
        ),
{
    broadcast use group_forth;

    reveal(decode_flying);
}

proof fn lemma_forth_position(c: Cursor)
    ensures
        decode_position(c) is Frame ==> c is At && c->At_0 == fields_before(
            decode_position(c)->Frame_0,
            decode_position(c)->Frame_1,
        ),
{
    broadcast use group_forth;

    reveal(decode_position);
}

proof fn lemma_forth_look(c: Cursor)
    ensures
        decode_look(c) is Frame ==> c is At && c->At_0 == fields_before(
            decode_look(c)->Frame_0,
            decode_look(c)->Frame_1,
        ),
{
    broadcast use group_forth;

    reveal(decode_look);
}

proof fn lemma_forth_position_look(c: Cursor)
    ensures
        decode_position_look(c) is Frame ==> c is At && c->At_0 == fields_before(
            decode_position_look(c)->Frame_0,
            decode_position_look(c)->Frame_1,
        ),
{
    broadcast use group_forth;

    reveal(decode_position_look);
}

proof fn lemma_forth_break_block(c: Cursor)
    ensures
        decode_break_block(c) is Frame ==> c is At && c->At_0 == fields_before(
            decode_break_block(c)->Frame_0,
            decode_break_block(c)->Frame_1,
        ),
{
    broadcast use group_forth;

    reveal(decode_break_block);
}

proof fn lemma_forth_place_block(c: Cursor)
    ensures
        decode_place_block(c) is Frame ==> c is At && c->At_0 == fields_before(
            decode_place_block(c)->Frame_0,
            decode_place_block(c)->Frame_1,
        ),
{
    broadcast use group_forth;

    reveal(decode_place_block);
}

proof fn lemma_forth_hand_slot(c: Cursor)
    ensures
        decode_hand_slot(c) is Frame ==> c is At && c->At_0 == fields_before(
            decode_hand_slot(c)->Frame_0,
            decode_hand_slot(c)->Frame_1,
        ),
{
    broadcast use group_forth;

    reveal(decode_hand_slot);
}

proof fn lemma_forth_player_sleep(c: Cursor)
    ensures
        decode_player_sleep(c) is Frame ==> c is At && c->At_0 == fields_before(
            decode_player_sleep(c)->Frame_0,
            decode_player_sleep(c)->Frame_1,
        ),
{
    broadcast use group_forth;

    reveal(decode_player_sleep);
}

proof fn lemma_forth_entity_animation(c: Cursor)
    ensures
        decode_entity_animation(c) is Frame ==> c is At && c->At_0 == fields_before(
            decode_entity_animation(c)->Frame_0,
            decode_entity_animation(c)->Frame_1,
        ),
{
    broadcast use group_forth;

    reveal(decode_entity_animation);
}

proof fn lemma_forth_entity_action(c: Cursor)
    ensures
        decode_entity_action(c) is Frame ==> c is At && c->At_0 == fields_before(
            decode_entity_action(c)->Frame_0,
            decode_entity_action(c)->Frame_1,
        ),
{
    broadcast use group_forth;

    reveal(decode_entity_action);
}

proof fn lemma_forth_human_spawn(c: Cursor)
    ensures
        decode_human_spawn(c) is Frame ==> c is At && c->At_0 == fields_before(
            decode_human_spawn(c)->Frame_0,
            decode_human_spawn(c)->Frame_1,
        ),
{
    broadcast use group_forth;

    reveal(decode_human_spawn);
}

proof fn lemma_forth_item_spawn(c: Cursor)
    ensures
        decode_item_spawn(c) is Frame ==> c is At && c->At_0 == fields_before(
            decode_item_spawn(c)->Frame_0,
            decode_item_spawn(c)->Frame_1,
        ),
{
    broadcast use group_forth;

    reveal(decode_item_spawn);
}

proof fn lemma_forth_entity_pickup(c: Cursor)
    ensures
        decode_entity_pickup(c) is Frame ==> c is At && c->At_0 == fields_before(
            decode_entity_pickup(c)->Frame_0,
            decode_entity_pickup(c)->Frame_1,
        ),
{
    broadcast use group_forth;

    reveal(decode_entity_pickup);
}

proof fn lemma_forth_object_spawn(c: Cursor)
    ensures
        decode_object_spawn(c) is Frame ==> c is At && c->At_0 == fields_before(
            decode_object_spawn(c)->Frame_0,
            decode_object_spawn(c)->Frame_1,
        ),
{
    broadcast use group_forth;

    reveal(decode_object_spawn);
}

proof fn lemma_forth_mob_spawn(c: Cursor)
    ensures
        decode_mob_spawn(c) is Frame ==> c is At && c->At_0 == fields_before(
            decode_mob_spawn(c)->Frame_0,
            decode_mob_spawn(c)->Frame_1,
        ),
{
    broadcast use group_forth;

    reveal(decode_mob_spawn);
}

proof fn lemma_forth_painting_spawn(c: Cursor)
    ensures
        decode_painting_spawn(c) is Frame ==> c is At && c->At_0 == fields_before(
            decode_painting_spawn(c)->Frame_0,
            decode_painting_spawn(c)->Frame_1,
        ),
{
    broadcast use group_forth;

    reveal(decode_painting_spawn);
}

proof fn lemma_forth_entity_velocity(c: Cursor)
    ensures
        decode_entity_velocity(c) is Frame ==> c is At && c->At_0 == fields_before(
            decode_entity_velocity(c)->Frame_0,
            decode_entity_velocity(c)->Frame_1,
        ),
{
    broadcast use group_forth;

    reveal(decode_entity_velocity);
}

proof fn lemma_forth_entity_kill(c: Cursor)
    ensures
        decode_entity_kill(c) is Frame ==> c is At && c->At_0 == fields_before(
            decode_entity_kill(c)->Frame_0,
            decode_entity_kill(c)->Frame_1,
        ),
{
    broadcast use group_forth;

    reveal(decode_entity_kill);
}

proof fn lemma_forth_entity(c: Cursor)
    ensures
        decode_entity(c) is Frame ==> c is At && c->At_0 == fields_before(
            decode_entity(c)->Frame_0,
            decode_entity(c)->Frame_1,
        ),
{
    broadcast use group_forth;

    reveal(decode_entity);
}

proof fn lemma_forth_entity_move(c: Cursor)
    ensures
        decode_entity_move(c) is Frame ==> c is At && c->At_0 == fields_before(
            decode_entity_move(c)->Frame_0,
            decode_entity_move(c)->Frame_1,
        ),
{
    broadcast use group_forth;

    reveal(decode_entity_move);
}

proof fn lemma_forth_entity_look(c: Cursor)
    ensures
        decode_entity_look(c) is Frame ==> c is At && c->At_0 == fields_before(
            decode_entity_look(c)->Frame_0,
            decode_entity_look(c)->Frame_1,
        ),
{
    broadcast use group_forth;

    reveal(decode_entity_look);
}

proof fn lemma_forth_entity_move_and_look(c: Cursor)
    ensures
        decode_entity_move_and_look(c) is Frame ==> c is At && c->At_0 == fields_before(
            decode_entity_move_and_look(c)->Frame_0,
            decode_entity_move_and_look(c)->Frame_1,
        ),
{
    broadcast use group_forth;

    reveal(decode_entity_move_and_look);
}

proof fn lemma_forth_entity_position_and_look(c: Cursor)
    ensures
        decode_entity_position_and_look(c) is Frame ==> c is At && c->At_0 == fields_before(
            decode_entity_position_and_look(c)->Frame_0,
            decode_entity_position_and_look(c)->Frame_1,
        ),
{
    broadcast use group_forth;

    reveal(decode_entity_position_and_look);
}

proof fn lemma_forth_entity_status(c: Cursor)
    ensures
        decode_entity_status(c) is Frame ==> c is At && c->At_0 == fields_before(
            decode_entity_status(c)->Frame_0,
            decode_entity_status(c)->Frame_1,
        ),
{
    broadcast use group_forth;

    reveal(decode_entity_status);
}

proof fn lemma_forth_entity_ride(c: Cursor)
    ensures
        decode_entity_ride(c) is Frame ==> c is At && c->At_0 == fields_before(
            decode_entity_ride(c)->Frame_0,
            decode_entity_ride(c)->Frame_1,
        ),
{
    broadcast use group_forth;

    reveal(decode_entity_ride);
}

proof fn lemma_forth_entity_metadata(c: Cursor)
    ensures
        decode_entity_metadata(c) is Frame ==> c is At && c->At_0 == fields_before(
            decode_entity_metadata(c)->Frame_0,
            decode_entity_metadata(c)->Frame_1,
        ),
{
    broadcast use group_forth;

    reveal(decode_entity_metadata);
}

proof fn lemma_forth_chunk_state(c: Cursor)
    ensures
        decode_chunk_state(c) is Frame ==> c is At && c->At_0 == fields_before(
            decode_chunk_state(c)->Frame_0,
            decode_chunk_state(c)->Frame_1,
        ),
{
    broadcast use group_forth;

    reveal(decode_chunk_state);
}

proof fn lemma_forth_chunk_data(c: Cursor)
    ensures
        decode_chunk_data(c) is Frame ==> c is At && c->At_0 == fields_before(
            decode_chunk_data(c)->Frame_0,
            decode_chunk_data(c)->Frame_1,
        ),
{
    broadcast use group_forth;

    reveal(decode_chunk_data);
}

proof fn lemma_forth_chunk_block_set(c: Cursor)
    ensures
        decode_chunk_block_set(c) is Frame ==> c is At && c->At_0 == fields_before(
            decode_chunk_block_set(c)->Frame_0,
            decode_chunk_block_set(c)->Frame_1,
        ),
{
    broadcast use group_forth;

    reveal(decode_chunk_block_set);
}

proof fn lemma_forth_block_set(c: Cursor)
    ensures
        decode_block_set(c) is Frame ==> c is At && c->At_0 == fields_before(
            decode_block_set(c)->Frame_0,
            decode_block_set(c)->Frame_1,
        ),
{
    broadcast use group_forth;

    reveal(decode_block_set);
}

proof fn lemma_forth_block_action(c: Cursor)
    ensures
        decode_block_action(c) is Frame ==> c is At && c->At_0 == fields_before(
            decode_block_action(c)->Frame_0,
            decode_block_action(c)->Frame_1,
        ),
{
    broadcast use group_forth;

    reveal(decode_block_action);
}

proof fn lemma_forth_explosion(c: Cursor)
    ensures
        decode_explosion(c) is Frame ==> c is At && c->At_0 == fields_before(
            decode_explosion(c)->Frame_0,
            decode_explosion(c)->Frame_1,
        ),
{
    broadcast use group_forth;

    reveal(decode_explosion);
}

proof fn lemma_forth_window_close(c: Cursor)
    ensures
        decode_window_close(c) is Frame ==> c is At && c->At_0 == fields_before(
            decode_window_close(c)->Frame_0,
            decode_window_close(c)->Frame_1,
        ),
{
    broadcast use group_forth;

    reveal(decode_window_close);
}

proof fn lemma_forth_window_click(c: Cursor)
    ensures
        decode_window_click(c) is Frame ==> c is At && c->At_0 == fields_before(
            decode_window_click(c)->Frame_0,
            decode_window_click(c)->Frame_1,
        ),
{
    broadcast use group_forth;

    reveal(decode_window_click);
}

proof fn lemma_forth_window_transaction(c: Cursor)
    ensures
        decode_window_transaction(c) is Frame ==> c is At && c->At_0 == fields_before(
            decode_window_transaction(c)->Frame_0,
            decode_window_transaction(c)->Frame_1,
        ),
{
    broadcast use group_forth;

    reveal(decode_window_transaction);
}

proof fn lemma_forth_update_sign(c: Cursor)
    ensures
        decode_update_sign(c) is Frame ==> c is At && c->At_0 == fields_before(
            decode_update_sign(c)->Frame_0,
            decode_update_sign(c)->Frame_1,
        ),
{
    broadcast use group_forth;

    reveal(decode_update_sign);
}

proof fn lemma_forth_disconnect(c: Cursor)
    ensures
        decode_disconnect(c) is Frame ==> c is At && c->At_0 == fields_before(
            decode_disconnect(c)->Frame_0,
            decode_disconnect(c)->Frame_1,
        ),
{
    broadcast use group_forth;

    reveal(decode_disconnect);
}

/// The bytes that decode to a packet are that packet's frame, then what
/// was left: encoding undoes decoding byte for byte.
pub proof fn lemma_decode_then_encode(s: Seq<u8>)
    requires
        spec_decode(s) is Frame,
    ensures
        s == spec_encode(spec_decode(s)->Frame_0) + spec_decode(s)->Frame_1,
{
    let c = Cursor::At(s.skip(1));
    let packet = spec_decode(s)->Frame_0;
    let rest = spec_decode(s)->Frame_1;
    lemma_frame_starts_with_tag(s);
    lemma_frame_before(packet, rest);
    assert(s =~= be_u8(s[0]) + s.skip(1));
    assert(fields_before(packet, rest) == s.skip(1)) by {
        reveal(decode_fields);
        lemma_forth_login(c);
        lemma_forth_handshake(c);
        lemma_forth_chat(c);
        lemma_forth_update_time(c);
        lemma_forth_player_inventory(c);
        lemma_forth_spawn_position(c);
        lemma_forth_interact(c);
        lemma_forth_update_health(c);
        lemma_forth_respawn(c);
        lemma_forth_flying(c);
        lemma_forth_position(c);
        lemma_forth_look(c);
        lemma_forth_position_look(c);
        lemma_forth_break_block(c);
        lemma_forth_place_block(c);
        lemma_forth_hand_slot(c);
        lemma_forth_player_sleep(c);
        lemma_forth_entity_animation(c);
        lemma_forth_entity_action(c);
        lemma_forth_human_spawn(c);
        lemma_forth_item_spawn(c);
        lemma_forth_entity_pickup(c);
        lemma_forth_object_spawn(c);
        lemma_forth_mob_spawn(c);
        lemma_forth_painting_spawn(c);
        lemma_forth_entity_velocity(c);
        lemma_forth_entity_kill(c);
        lemma_forth_entity(c);
        lemma_forth_entity_move(c);
        lemma_forth_entity_look(c);
        lemma_forth_entity_move_and_look(c);
        lemma_forth_entity_position_and_look(c);
        lemma_forth_entity_status(c);
        lemma_forth_entity_ride(c);
        lemma_forth_entity_metadata(c);
        lemma_forth_chunk_state(c);
        lemma_forth_chunk_data(c);
        lemma_forth_chunk_block_set(c);
        lemma_forth_block_set(c);
        lemma_forth_block_action(c);
        lemma_forth_explosion(c);
        lemma_forth_window_close(c);
        lemma_forth_window_click(c);
        lemma_forth_window_transaction(c);
        lemma_forth_update_sign(c);
        lemma_forth_disconnect(c);
    }
}

} // verus!
