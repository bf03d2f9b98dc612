//! The frame grammar of the protocol's first generation: a tag byte, then
//! the fields of the variant it names, in order, with nothing between frames.
//!
//! `spec_encode` says what a packet is on the wire and `spec_decode` what
//! the front of a byte sequence holds; the executable pair below meets them.

use crate::minecraft_packet::{MinecraftBool, MinecraftPacket, MinecraftString, MinecraftView};
use crate::wire::{
    be_bool, be_i16, be_i32, be_string, be_u32, be_u64, be_u8, lemma_concat_assoc, next_bool,
    next_string, next_u16, next_u32, next_u64, next_u8, val_bool, val_i16, val_i32, val_string,
    val_u32, val_u64, val_u8, write_bool, write_i16, write_i32, write_string, write_u32,
    write_u64, write_u8, Cursor, Fault, Reader,
};
use vstd::prelude::*;

verus! {

/// What the front of a byte sequence holds.
pub enum MinecraftParsed {
    /// One whole frame, and the bytes behind it.
    Frame(MinecraftView, Seq<u8>),
    /// The beginning of a frame: more bytes may complete it.
    Incomplete,
    /// No frame, whatever bytes follow.
    Malformed,
}

/// The packet read, if the reader came through all its fields.
pub open spec fn finish(c: Cursor, packet: MinecraftView) -> MinecraftParsed {
    match c {
        Cursor::At(rest) => MinecraftParsed::Frame(packet, rest),
        Cursor::Incomplete => MinecraftParsed::Incomplete,
        Cursor::Malformed => MinecraftParsed::Malformed,
    }
}

/// The fields of a packet, in wire order, before `tail`.
pub open spec fn fields_before(packet: MinecraftView, tail: Seq<u8>) -> Seq<u8> {
    match packet {
        MinecraftView::KeepAlive => {
            tail
        },
        MinecraftView::Login { version, username, seed, dimension } => {
            be_u32(version) + (be_string(username) + (be_u32(seed) + (be_u8(dimension) + tail)))
        },
        MinecraftView::Handshake { username } => {
            be_string(username) + tail
        },
        MinecraftView::Chat { message } => {
            be_string(message) + tail
        },
        MinecraftView::Interact { player_id, target_id, left_click } => {
            be_u32(player_id) + (be_u32(target_id) + (be_bool(left_click) + tail))
        },
        MinecraftView::Respawn { dimension } => {
            be_u8(dimension) + tail
        },
        MinecraftView::Flying { on_ground } => {
            be_bool(on_ground) + tail
        },
        MinecraftView::Position { x, y, stance, z, on_ground } => {
            be_u64(x) + (be_u64(y) + (be_u64(stance) + (be_u64(z) + (be_bool(on_ground) + tail))))
        },
        MinecraftView::Look { yaw, pitch, on_ground } => {
            be_u32(yaw) + (be_u32(pitch) + (be_bool(on_ground) + tail))
        },
        MinecraftView::PositionLook { x, y, stance, z, yaw, pitch, on_ground } => {
            be_u64(x) + (be_u64(y) + (be_u64(stance) + (be_u64(z) + (be_u32(yaw) + (be_u32(pitch) + (be_bool(on_ground) + tail))))))
        },
        MinecraftView::BreakBlock { status, x, y, z, face } => {
            be_bool(status) + (be_i32(x) + (be_u8(y) + (be_i32(z) + (be_u8(face) + tail))))
        },
        MinecraftView::PlaceBlock { x, y, z, direction } => {
            be_i32(x) + (be_u8(y) + (be_i32(z) + (be_u8(direction) + tail)))
        },
        MinecraftView::HandSlot { slot } => {
            be_i16(slot) + tail
        },
        MinecraftView::Animation { entity_id, animate } => {
            be_i32(entity_id) + (be_bool(animate) + tail)
        },
        MinecraftView::Action { entity_id, state } => {
            be_i32(entity_id) + (be_bool(state) + tail)
        },
        MinecraftView::WindowClose { window_id } => {
            be_u8(window_id) + tail
        },
        MinecraftView::WindowClick { window_id, slot, right_click, transaction_id, shift_click } => {
            be_u8(window_id) + (be_i16(slot) + (be_bool(right_click) + (be_i32(transaction_id) + (be_bool(shift_click) + tail))))
        },
        MinecraftView::WindowTransaction { window_id, transaction_id, accepted } => {
            be_u8(window_id) + (be_i32(transaction_id) + (be_bool(accepted) + tail))
        },
        MinecraftView::UpdateSign { x, y, z, lines } => {
            be_i32(x) + (be_i16(y) + (be_i32(z) + (be_string(lines.0) + (be_string(lines.1) + (be_string(lines.2) + (be_string(lines.3) + tail))))))
        },
        MinecraftView::Disconnect { reason } => {
            be_string(reason) + tail
        },
    }
}

/// A packet's frame before `tail`: its tag, then its fields.
pub open spec fn frame_before(packet: MinecraftView, tail: Seq<u8>) -> Seq<u8> {
    be_u8(packet.tag()) + fields_before(packet, tail)
}

/// A packet's frame: what `encode` writes for it.
pub open spec fn spec_encode(packet: MinecraftView) -> Seq<u8> {
    frame_before(packet, Seq::empty())
}

/// The fields of `Login`, read from `c0`.
#[verifier::opaque]
pub open spec fn decode_login(c0: Cursor) -> MinecraftParsed {
    let c1 = next_u32(c0);
    let c2 = next_string(c1);
    let c3 = next_u32(c2);
    let c4 = next_u8(c3);
    finish(
        c4,
        MinecraftView::Login {
            version: val_u32(c0),
            username: val_string(c1),
            seed: val_u32(c2),
            dimension: val_u8(c3),
        },
    )
}

/// The fields of `Handshake`, read from `c0`.
#[verifier::opaque]
pub open spec fn decode_handshake(c0: Cursor) -> MinecraftParsed {
    let c1 = next_string(c0);
    finish(
        c1,
        MinecraftView::Handshake {
            username: val_string(c0),
        },
    )
}

/// The fields of `Chat`, read from `c0`.
#[verifier::opaque]
pub open spec fn decode_chat(c0: Cursor) -> MinecraftParsed {
    let c1 = next_string(c0);
    finish(
        c1,
        MinecraftView::Chat {
            message: val_string(c0),
        },
    )
}

/// The fields of `Interact`, read from `c0`.
#[verifier::opaque]
pub open spec fn decode_interact(c0: Cursor) -> MinecraftParsed {
    let c1 = next_u32(c0);
    let c2 = next_u32(c1);
    let c3 = next_bool(c2);
    finish(
        c3,
        MinecraftView::Interact {
            player_id: val_u32(c0),
            target_id: val_u32(c1),
            left_click: val_bool(c2),
        },
    )
}

/// The fields of `Respawn`, read from `c0`.
#[verifier::opaque]
pub open spec fn decode_respawn(c0: Cursor) -> MinecraftParsed {
    let c1 = next_u8(c0);
    finish(
        c1,
        MinecraftView::Respawn {
            dimension: val_u8(c0),
        },
    )
}

/// The fields of `Flying`, read from `c0`.
#[verifier::opaque]
pub open spec fn decode_flying(c0: Cursor) -> MinecraftParsed {
    let c1 = next_bool(c0);
    finish(
        c1,
        MinecraftView::Flying {
            on_ground: val_bool(c0),
        },
    )
}

/// The fields of `Position`, read from `c0`.
#[verifier::opaque]
pub open spec fn decode_position(c0: Cursor) -> MinecraftParsed {
    let c1 = next_u64(c0);
    let c2 = next_u64(c1);
    let c3 = next_u64(c2);
    let c4 = next_u64(c3);
    let c5 = next_bool(c4);
    finish(
        c5,
        MinecraftView::Position {
            x: val_u64(c0),
            y: val_u64(c1),
            stance: val_u64(c2),
            z: val_u64(c3),
            on_ground: val_bool(c4),
        },
    )
}

/// The fields of `Look`, read from `c0`.
#[verifier::opaque]
pub open spec fn decode_look(c0: Cursor) -> MinecraftParsed {
    let c1 = next_u32(c0);
    let c2 = next_u32(c1);
    let c3 = next_bool(c2);
    finish(
        c3,
        MinecraftView::Look {
            yaw: val_u32(c0),
            pitch: val_u32(c1),
            on_ground: val_bool(c2),
        },
    )
}

/// The fields of `PositionLook`, read from `c0`.
#[verifier::opaque]
pub open spec fn decode_position_look(c0: Cursor) -> MinecraftParsed {
    let c1 = next_u64(c0);
    let c2 = next_u64(c1);
    let c3 = next_u64(c2);
    let c4 = next_u64(c3);
    let c5 = next_u32(c4);
    let c6 = next_u32(c5);
    let c7 = next_bool(c6);
    finish(
        c7,
        MinecraftView::PositionLook {
            x: val_u64(c0),
            y: val_u64(c1),
            stance: val_u64(c2),
            z: val_u64(c3),
            yaw: val_u32(c4),
            pitch: val_u32(c5),
            on_ground: val_bool(c6),
        },
    )
}

/// The fields of `BreakBlock`, read from `c0`.
#[verifier::opaque]
pub open spec fn decode_break_block(c0: Cursor) -> MinecraftParsed {
    let c1 = next_bool(c0);
    let c2 = next_u32(c1);
    let c3 = next_u8(c2);
    let c4 = next_u32(c3);
    let c5 = next_u8(c4);
    finish(
        c5,
        MinecraftView::BreakBlock {
            status: val_bool(c0),
            x: val_i32(c1),
            y: val_u8(c2),
            z: val_i32(c3),
            face: val_u8(c4),
        },
    )
}

/// The fields of `PlaceBlock`, read from `c0`.
#[verifier::opaque]
pub open spec fn decode_place_block(c0: Cursor) -> MinecraftParsed {
    let c1 = next_u32(c0);
    let c2 = next_u8(c1);
    let c3 = next_u32(c2);
    let c4 = next_u8(c3);
    finish(
        c4,
        MinecraftView::PlaceBlock {
            x: val_i32(c0),
            y: val_u8(c1),
            z: val_i32(c2),
            direction: val_u8(c3),
        },
    )
}

/// The fields of `HandSlot`, read from `c0`.
#[verifier::opaque]
pub open spec fn decode_hand_slot(c0: Cursor) -> MinecraftParsed {
    let c1 = next_u16(c0);
    finish(
        c1,
        MinecraftView::HandSlot {
            slot: val_i16(c0),
        },
    )
}

/// The fields of `Animation`, read from `c0`.
#[verifier::opaque]
pub open spec fn decode_animation(c0: Cursor) -> MinecraftParsed {
    let c1 = next_u32(c0);
    let c2 = next_bool(c1);
    finish(
        c2,
        MinecraftView::Animation {
            entity_id: val_i32(c0),
            animate: val_bool(c1),
        },
    )
}

/// The fields of `Action`, read from `c0`.
#[verifier::opaque]
pub open spec fn decode_action(c0: Cursor) -> MinecraftParsed {
    let c1 = next_u32(c0);
    let c2 = next_bool(c1);
    finish(
        c2,
        MinecraftView::Action {
            entity_id: val_i32(c0),
            state: val_bool(c1),
        },
    )
}

/// The fields of `WindowClose`, read from `c0`.
#[verifier::opaque]
pub open spec fn decode_window_close(c0: Cursor) -> MinecraftParsed {
    let c1 = next_u8(c0);
    finish(
        c1,
        MinecraftView::WindowClose {
            window_id: val_u8(c0),
        },
    )
}

/// The fields of `WindowClick`, read from `c0`.
#[verifier::opaque]
pub open spec fn decode_window_click(c0: Cursor) -> MinecraftParsed {
    let c1 = next_u8(c0);
    let c2 = next_u16(c1);
    let c3 = next_bool(c2);
    let c4 = next_u32(c3);
    let c5 = next_bool(c4);
    finish(
        c5,
        MinecraftView::WindowClick {
            window_id: val_u8(c0),
            slot: val_i16(c1),
            right_click: val_bool(c2),
            transaction_id: val_i32(c3),
            shift_click: val_bool(c4),
        },
    )
}

/// The fields of `WindowTransaction`, read from `c0`.
#[verifier::opaque]
pub open spec fn decode_window_transaction(c0: Cursor) -> MinecraftParsed {
    let c1 = next_u8(c0);
    let c2 = next_u32(c1);
    let c3 = next_bool(c2);
    finish(
        c3,
        MinecraftView::WindowTransaction {
            window_id: val_u8(c0),
            transaction_id: val_i32(c1),
            accepted: val_bool(c2),
        },
    )
}

/// The fields of `UpdateSign`, read from `c0`.
#[verifier::opaque]
pub open spec fn decode_update_sign(c0: Cursor) -> MinecraftParsed {
    let c1 = next_u32(c0);
    let c2 = next_u16(c1);
    let c3 = next_u32(c2);
    let c4 = next_string(c3);
    let c5 = next_string(c4);
    let c6 = next_string(c5);
    let c7 = next_string(c6);
    finish(
        c7,
        MinecraftView::UpdateSign {
            x: val_i32(c0),
            y: val_i16(c1),
            z: val_i32(c2),
            lines: (val_string(c3), val_string(c4), val_string(c5), val_string(c6)),
        },
    )
}

/// The fields of `Disconnect`, read from `c0`.
#[verifier::opaque]
pub open spec fn decode_disconnect(c0: Cursor) -> MinecraftParsed {
    let c1 = next_string(c0);
    finish(
        c1,
        MinecraftView::Disconnect {
            reason: val_string(c0),
        },
    )
}

/// The fields that follow the tag, read from `c`. A tag that names no
/// variant is malformed at once.
#[verifier::opaque]
pub open spec fn decode_fields(tag: u8, c: Cursor) -> MinecraftParsed {
    if tag == 0 {
        finish(c, MinecraftView::KeepAlive)
    } else if tag == 1 {
        decode_login(c)
    } else if tag == 2 {
        decode_handshake(c)
    } else if tag == 3 {
        decode_chat(c)
    } else if tag == 7 {
        decode_interact(c)
    } else if tag == 9 {
        decode_respawn(c)
    } else if tag == 10 {
        decode_flying(c)
    } else if tag == 11 {
        decode_position(c)
    } else if tag == 12 {
        decode_look(c)
    } else if tag == 13 {
        decode_position_look(c)
    } else if tag == 14 {
        decode_break_block(c)
    } else if tag == 15 {
        decode_place_block(c)
    } else if tag == 16 {
        decode_hand_slot(c)
    } else if tag == 18 {
        decode_animation(c)
    } else if tag == 19 {
        decode_action(c)
    } else if tag == 101 {
        decode_window_close(c)
    } else if tag == 102 {
        decode_window_click(c)
    } else if tag == 106 {
        decode_window_transaction(c)
    } else if tag == 130 {
        decode_update_sign(c)
    } else if tag == 255 {
        decode_disconnect(c)
    } else {
        MinecraftParsed::Malformed
    }
}

/// What the front of `s` holds: the frame that its first byte names, read
/// field by field. The first field that cannot be read decides between
/// `Incomplete` and `Malformed`.
pub open spec fn spec_decode(s: Seq<u8>) -> MinecraftParsed {
    if s.len() == 0 {
        MinecraftParsed::Incomplete
    } else {
        decode_fields(s[0], Cursor::At(s.skip(1)))
    }
}

/// Whether a tag names a variant.
pub open spec fn known_tag(tag: u8) -> bool {
    ||| tag <= 3
    ||| tag == 7
    ||| 9 <= tag <= 16
    ||| 18 <= tag <= 19
    ||| 101 <= tag <= 102
    ||| tag == 106
    ||| tag == 130
    ||| tag == 255
}

/// What a parse reports, held against what the bytes hold.
pub open spec fn reported(out: Result<MinecraftPacket, Fault>, parsed: MinecraftParsed, now: Cursor) -> bool {
    match out {
        Ok(packet) => packet.wf() && now is At && parsed == MinecraftParsed::Frame(packet@, now->At_0),
        Err(Fault::Incomplete) => parsed is Incomplete,
        Err(Fault::Malformed) => parsed is Malformed,
    }
}

fn parse_login(r: &mut Reader) -> (out: Result<MinecraftPacket, Fault>)
    requires
        old(r).wf(),
    ensures
        final(r).wf(),
        final(r).bytes() == old(r).bytes(),
        old(r).offset() <= final(r).offset(),
        reported(out, decode_login(old(r).cursor()), final(r).cursor()),
{
    reveal(decode_login);
    let version: u32 = r.read_u32()?;
    let username: MinecraftString = r.read_string()?;
    let seed: u32 = r.read_u32()?;
    let dimension: u8 = r.read_u8()?;
    Ok(MinecraftPacket::Login { version, username, seed, dimension })
}

fn parse_handshake(r: &mut Reader) -> (out: Result<MinecraftPacket, Fault>)
    requires
        old(r).wf(),
    ensures
        final(r).wf(),
        final(r).bytes() == old(r).bytes(),
        old(r).offset() <= final(r).offset(),
        reported(out, decode_handshake(old(r).cursor()), final(r).cursor()),
{
    reveal(decode_handshake);
    let username: MinecraftString = r.read_string()?;
    Ok(MinecraftPacket::Handshake { username })
}

fn parse_chat(r: &mut Reader) -> (out: Result<MinecraftPacket, Fault>)
    requires
        old(r).wf(),
    ensures
        final(r).wf(),
        final(r).bytes() == old(r).bytes(),
        old(r).offset() <= final(r).offset(),
        reported(out, decode_chat(old(r).cursor()), final(r).cursor()),
{
    reveal(decode_chat);
    let message: MinecraftString = r.read_string()?;
    Ok(MinecraftPacket::Chat { message })
}

fn parse_interact(r: &mut Reader) -> (out: Result<MinecraftPacket, Fault>)
    requires
        old(r).wf(),
    ensures
        final(r).wf(),
        final(r).bytes() == old(r).bytes(),
        old(r).offset() <= final(r).offset(),
        reported(out, decode_interact(old(r).cursor()), final(r).cursor()),
{
    reveal(decode_interact);
    let player_id: u32 = r.read_u32()?;
    let target_id: u32 = r.read_u32()?;
    let left_click: MinecraftBool = r.read_bool()?;
    Ok(MinecraftPacket::Interact { player_id, target_id, left_click })
}

fn parse_respawn(r: &mut Reader) -> (out: Result<MinecraftPacket, Fault>)
    requires
        old(r).wf(),
    ensures
        final(r).wf(),
        final(r).bytes() == old(r).bytes(),
        old(r).offset() <= final(r).offset(),
        reported(out, decode_respawn(old(r).cursor()), final(r).cursor()),
{
    reveal(decode_respawn);
    let dimension: u8 = r.read_u8()?;
    Ok(MinecraftPacket::Respawn { dimension })
}

fn parse_flying(r: &mut Reader) -> (out: Result<MinecraftPacket, Fault>)
    requires
        old(r).wf(),
    ensures
        final(r).wf(),
        final(r).bytes() == old(r).bytes(),
        old(r).offset() <= final(r).offset(),
        reported(out, decode_flying(old(r).cursor()), final(r).cursor()),
{
    reveal(decode_flying);
    let on_ground: MinecraftBool = r.read_bool()?;
    Ok(MinecraftPacket::Flying { on_ground })
}

fn parse_position(r: &mut Reader) -> (out: Result<MinecraftPacket, Fault>)
    requires
        old(r).wf(),
    ensures
        final(r).wf(),
        final(r).bytes() == old(r).bytes(),
        old(r).offset() <= final(r).offset(),
        reported(out, decode_position(old(r).cursor()), final(r).cursor()),
{
    reveal(decode_position);
    let x: u64 = r.read_u64()?;
    let y: u64 = r.read_u64()?;
    let stance: u64 = r.read_u64()?;
    let z: u64 = r.read_u64()?;
    let on_ground: MinecraftBool = r.read_bool()?;
    Ok(MinecraftPacket::Position { x, y, stance, z, on_ground })
}

fn parse_look(r: &mut Reader) -> (out: Result<MinecraftPacket, Fault>)
    requires
        old(r).wf(),
    ensures
        final(r).wf(),
        final(r).bytes() == old(r).bytes(),
        old(r).offset() <= final(r).offset(),
        reported(out, decode_look(old(r).cursor()), final(r).cursor()),
{
    reveal(decode_look);
    let yaw: u32 = r.read_u32()?;
    let pitch: u32 = r.read_u32()?;
    let on_ground: MinecraftBool = r.read_bool()?;
    Ok(MinecraftPacket::Look { yaw, pitch, on_ground })
}

fn parse_position_look(r: &mut Reader) -> (out: Result<MinecraftPacket, Fault>)
    requires
        old(r).wf(),
    ensures
        final(r).wf(),
        final(r).bytes() == old(r).bytes(),
        old(r).offset() <= final(r).offset(),
        reported(out, decode_position_look(old(r).cursor()), final(r).cursor()),
{
    reveal(decode_position_look);
    let x: u64 = r.read_u64()?;
    let y: u64 = r.read_u64()?;
    let stance: u64 = r.read_u64()?;
    let z: u64 = r.read_u64()?;
    let yaw: u32 = r.read_u32()?;
    let pitch: u32 = r.read_u32()?;
    let on_ground: MinecraftBool = r.read_bool()?;
    Ok(MinecraftPacket::PositionLook { x, y, stance, z, yaw, pitch, on_ground })
}

fn parse_break_block(r: &mut Reader) -> (out: Result<MinecraftPacket, Fault>)
    requires
        old(r).wf(),
    ensures
        final(r).wf(),
        final(r).bytes() == old(r).bytes(),
        old(r).offset() <= final(r).offset(),
        reported(out, decode_break_block(old(r).cursor()), final(r).cursor()),
{
    reveal(decode_break_block);
    let status: MinecraftBool = r.read_bool()?;
    let x: i32 = r.read_i32()?;
    let y: u8 = r.read_u8()?;
    let z: i32 = r.read_i32()?;
    let face: u8 = r.read_u8()?;
    Ok(MinecraftPacket::BreakBlock { status, x, y, z, face })
}

fn parse_place_block(r: &mut Reader) -> (out: Result<MinecraftPacket, Fault>)
    requires
        old(r).wf(),
    ensures
        final(r).wf(),
        final(r).bytes() == old(r).bytes(),
        old(r).offset() <= final(r).offset(),
        reported(out, decode_place_block(old(r).cursor()), final(r).cursor()),
{
    reveal(decode_place_block);
    let x: i32 = r.read_i32()?;
    let y: u8 = r.read_u8()?;
    let z: i32 = r.read_i32()?;
    let direction: u8 = r.read_u8()?;
    Ok(MinecraftPacket::PlaceBlock { x, y, z, direction })
}

fn parse_hand_slot(r: &mut Reader) -> (out: Result<MinecraftPacket, Fault>)
    requires
        old(r).wf(),
    ensures
        final(r).wf(),
        final(r).bytes() == old(r).bytes(),
        old(r).offset() <= final(r).offset(),
        reported(out, decode_hand_slot(old(r).cursor()), final(r).cursor()),
{
    reveal(decode_hand_slot);
    let slot: i16 = r.read_i16()?;
    Ok(MinecraftPacket::HandSlot { slot })
}

fn parse_animation(r: &mut Reader) -> (out: Result<MinecraftPacket, Fault>)
    requires
        old(r).wf(),
    ensures
        final(r).wf(),
        final(r).bytes() == old(r).bytes(),
        old(r).offset() <= final(r).offset(),
        reported(out, decode_animation(old(r).cursor()), final(r).cursor()),
{
    reveal(decode_animation);
    let entity_id: i32 = r.read_i32()?;
    let animate: MinecraftBool = r.read_bool()?;
    Ok(MinecraftPacket::Animation { entity_id, animate })
}

fn parse_action(r: &mut Reader) -> (out: Result<MinecraftPacket, Fault>)
    requires
        old(r).wf(),
    ensures
        final(r).wf(),
        final(r).bytes() == old(r).bytes(),
        old(r).offset() <= final(r).offset(),
        reported(out, decode_action(old(r).cursor()), final(r).cursor()),
{
    reveal(decode_action);
    let entity_id: i32 = r.read_i32()?;
    let state: MinecraftBool = r.read_bool()?;
    Ok(MinecraftPacket::Action { entity_id, state })
}

fn parse_window_close(r: &mut Reader) -> (out: Result<MinecraftPacket, Fault>)
    requires
        old(r).wf(),
    ensures
        final(r).wf(),
        final(r).bytes() == old(r).bytes(),
        old(r).offset() <= final(r).offset(),
        reported(out, decode_window_close(old(r).cursor()), final(r).cursor()),
{
    reveal(decode_window_close);
    let window_id: u8 = r.read_u8()?;
    Ok(MinecraftPacket::WindowClose { window_id })
}

fn parse_window_click(r: &mut Reader) -> (out: Result<MinecraftPacket, Fault>)
    requires
        old(r).wf(),
    ensures
        final(r).wf(),
        final(r).bytes() == old(r).bytes(),
        old(r).offset() <= final(r).offset(),
        reported(out, decode_window_click(old(r).cursor()), final(r).cursor()),
{
    reveal(decode_window_click);
    let window_id: u8 = r.read_u8()?;
    let slot: i16 = r.read_i16()?;
    let right_click: MinecraftBool = r.read_bool()?;
    let transaction_id: i32 = r.read_i32()?;
    let shift_click: MinecraftBool = r.read_bool()?;
    Ok(MinecraftPacket::WindowClick { window_id, slot, right_click, transaction_id, shift_click })
}

fn parse_window_transaction(r: &mut Reader) -> (out: Result<MinecraftPacket, Fault>)
    requires
        old(r).wf(),
    ensures
        final(r).wf(),
        final(r).bytes() == old(r).bytes(),
        old(r).offset() <= final(r).offset(),
        reported(out, decode_window_transaction(old(r).cursor()), final(r).cursor()),
{
    reveal(decode_window_transaction);
    let window_id: u8 = r.read_u8()?;
    let transaction_id: i32 = r.read_i32()?;
    let accepted: MinecraftBool = r.read_bool()?;
    Ok(MinecraftPacket::WindowTransaction { window_id, transaction_id, accepted })
}

fn parse_update_sign(r: &mut Reader) -> (out: Result<MinecraftPacket, Fault>)
    requires
        old(r).wf(),
    ensures
        final(r).wf(),
        final(r).bytes() == old(r).bytes(),
        old(r).offset() <= final(r).offset(),
        reported(out, decode_update_sign(old(r).cursor()), final(r).cursor()),
{
    reveal(decode_update_sign);
    let x: i32 = r.read_i32()?;
    let y: i16 = r.read_i16()?;
    let z: i32 = r.read_i32()?;
    let line0: MinecraftString = r.read_string()?;
    let line1: MinecraftString = r.read_string()?;
    let line2: MinecraftString = r.read_string()?;
    let line3: MinecraftString = r.read_string()?;
    Ok(MinecraftPacket::UpdateSign { x, y, z, lines: [line0, line1, line2, line3] })
}

fn parse_disconnect(r: &mut Reader) -> (out: Result<MinecraftPacket, Fault>)
    requires
        old(r).wf(),
    ensures
        final(r).wf(),
        final(r).bytes() == old(r).bytes(),
        old(r).offset() <= final(r).offset(),
        reported(out, decode_disconnect(old(r).cursor()), final(r).cursor()),
{
    reveal(decode_disconnect);
    let reason: MinecraftString = r.read_string()?;
    Ok(MinecraftPacket::Disconnect { reason })
}

/// Reads the fields that follow the tag.
fn parse_fields(tag: u8, r: &mut Reader) -> (out: Result<MinecraftPacket, Fault>)
    requires
        old(r).wf(),
    ensures
        final(r).wf(),
        final(r).bytes() == old(r).bytes(),
        old(r).offset() <= final(r).offset(),
        reported(out, decode_fields(tag, old(r).cursor()), final(r).cursor()),
{
    reveal(decode_fields);
    match tag {
        0 => Ok(MinecraftPacket::KeepAlive),
        1 => parse_login(r),
        2 => parse_handshake(r),
        3 => parse_chat(r),
        7 => parse_interact(r),
        9 => parse_respawn(r),
        10 => parse_flying(r),
        11 => parse_position(r),
        12 => parse_look(r),
        13 => parse_position_look(r),
        14 => parse_break_block(r),
        15 => parse_place_block(r),
        16 => parse_hand_slot(r),
        18 => parse_animation(r),
        19 => parse_action(r),
        101 => parse_window_close(r),
        102 => parse_window_click(r),
        106 => parse_window_transaction(r),
        130 => parse_update_sign(r),
        255 => parse_disconnect(r),
        _ => Err(Fault::Malformed),
    }
}

/// Reads one frame from the front of `data`. Returns the packet and how
/// many bytes its frame took, or why there is none.
pub fn parse_packet(data: &[u8]) -> (out: Result<(MinecraftPacket, usize), Fault>)
    ensures
        match out {
            Ok((packet, used)) => {
                &&& packet.wf()
                &&& 0 < used <= data@.len()
                &&& spec_decode(data@) == MinecraftParsed::Frame(packet@, data@.skip(used as int))
            },
            Err(Fault::Incomplete) => spec_decode(data@) is Incomplete,
            Err(Fault::Malformed) => spec_decode(data@) is Malformed,
        },
{
    let mut reader = Reader::new(data);
    let tag: u8 = match reader.read_u8() {
        Ok(tag) => tag,
        Err(fault) => {
            return Err(fault);
        },
    };
    assert(reader.cursor() == Cursor::At(data@.skip(1)));
    match parse_fields(tag, &mut reader) {
        Ok(packet) => {
            let used: usize = reader.position();
            Ok((packet, used))
        },
        Err(fault) => Err(fault),
    }
}

fn write_login(
    out: &mut Vec<u8>,
    version: u32,
    username: &MinecraftString,
    seed: u32,
    dimension: u8,
)
    requires
        username.wf(),
    ensures
        final(out)@ == old(out)@ + fields_before(
            MinecraftView::Login { version, username: username@, seed, dimension },
            Seq::empty(),
        ),
{
    write_u32(out, version);
    write_string(out, username);
    write_u32(out, seed);
    write_u8(out, dimension);
    assert(out@ + Seq::<u8>::empty() =~= out@);
}

fn write_handshake(
    out: &mut Vec<u8>,
    username: &MinecraftString,
)
    requires
        username.wf(),
    ensures
        final(out)@ == old(out)@ + fields_before(
            MinecraftView::Handshake { username: username@ },
            Seq::empty(),
        ),
{
    write_string(out, username);
    assert(out@ + Seq::<u8>::empty() =~= out@);
}

fn write_chat(
    out: &mut Vec<u8>,
    message: &MinecraftString,
)
    requires
        message.wf(),
    ensures
        final(out)@ == old(out)@ + fields_before(
            MinecraftView::Chat { message: message@ },
            Seq::empty(),
        ),
{
    write_string(out, message);
    assert(out@ + Seq::<u8>::empty() =~= out@);
}

fn write_interact(
    out: &mut Vec<u8>,
    player_id: u32,
    target_id: u32,
    left_click: MinecraftBool,
)
    ensures
        final(out)@ == old(out)@ + fields_before(
            MinecraftView::Interact { player_id, target_id, left_click },
            Seq::empty(),
        ),
{
    write_u32(out, player_id);
    write_u32(out, target_id);
    write_bool(out, left_click);
    assert(out@ + Seq::<u8>::empty() =~= out@);
}

fn write_respawn(
    out: &mut Vec<u8>,
    dimension: u8,
)
    ensures
        final(out)@ == old(out)@ + fields_before(
            MinecraftView::Respawn { dimension },
            Seq::empty(),
        ),
{
    write_u8(out, dimension);
    assert(out@ + Seq::<u8>::empty() =~= out@);
}

fn write_flying(
    out: &mut Vec<u8>,
    on_ground: MinecraftBool,
)
    ensures
        final(out)@ == old(out)@ + fields_before(
            MinecraftView::Flying { on_ground },
            Seq::empty(),
        ),
{
    write_bool(out, on_ground);
    assert(out@ + Seq::<u8>::empty() =~= out@);
}

fn write_position(
    out: &mut Vec<u8>,
    x: u64,
    y: u64,
    stance: u64,
    z: u64,
    on_ground: MinecraftBool,
)
    ensures
        final(out)@ == old(out)@ + fields_before(
            MinecraftView::Position { x, y, stance, z, on_ground },
            Seq::empty(),
        ),
{
    write_u64(out, x);
    write_u64(out, y);
    write_u64(out, stance);
    write_u64(out, z);
    write_bool(out, on_ground);
    assert(out@ + Seq::<u8>::empty() =~= out@);
}

fn write_look(
    out: &mut Vec<u8>,
    yaw: u32,
    pitch: u32,
    on_ground: MinecraftBool,
)
    ensures
        final(out)@ == old(out)@ + fields_before(
            MinecraftView::Look { yaw, pitch, on_ground },
            Seq::empty(),
        ),
{
    write_u32(out, yaw);
    write_u32(out, pitch);
    write_bool(out, on_ground);
    assert(out@ + Seq::<u8>::empty() =~= out@);
}

fn write_position_look(
    out: &mut Vec<u8>,
    x: u64,
    y: u64,
    stance: u64,
    z: u64,
    yaw: u32,
    pitch: u32,
    on_ground: MinecraftBool,
)
    ensures
        final(out)@ == old(out)@ + fields_before(
            MinecraftView::PositionLook { x, y, stance, z, yaw, pitch, on_ground },
            Seq::empty(),
        ),
{
    write_u64(out, x);
    write_u64(out, y);
    write_u64(out, stance);
    write_u64(out, z);
    write_u32(out, yaw);
    write_u32(out, pitch);
    write_bool(out, on_ground);
    assert(out@ + Seq::<u8>::empty() =~= out@);
}

fn write_break_block(
    out: &mut Vec<u8>,
    status: MinecraftBool,
    x: i32,
    y: u8,
    z: i32,
    face: u8,
)
    ensures
        final(out)@ == old(out)@ + fields_before(
            MinecraftView::BreakBlock { status, x, y, z, face },
            Seq::empty(),
        ),
{
    write_bool(out, status);
    write_i32(out, x);
    write_u8(out, y);
    write_i32(out, z);
    write_u8(out, face);
    assert(out@ + Seq::<u8>::empty() =~= out@);
}

fn write_place_block(
    out: &mut Vec<u8>,
    x: i32,
    y: u8,
    z: i32,
    direction: u8,
)
    ensures
        final(out)@ == old(out)@ + fields_before(
            MinecraftView::PlaceBlock { x, y, z, direction },
            Seq::empty(),
        ),
{
    write_i32(out, x);
    write_u8(out, y);
    write_i32(out, z);
    write_u8(out, direction);
    assert(out@ + Seq::<u8>::empty() =~= out@);
}

fn write_hand_slot(
    out: &mut Vec<u8>,
    slot: i16,
)
    ensures
        final(out)@ == old(out)@ + fields_before(
            MinecraftView::HandSlot { slot },
            Seq::empty(),
        ),
{
    write_i16(out, slot);
    assert(out@ + Seq::<u8>::empty() =~= out@);
}

fn write_animation(
    out: &mut Vec<u8>,
    entity_id: i32,
    animate: MinecraftBool,
)
    ensures
        final(out)@ == old(out)@ + fields_before(
            MinecraftView::Animation { entity_id, animate },
            Seq::empty(),
        ),
{
    write_i32(out, entity_id);
    write_bool(out, animate);
    assert(out@ + Seq::<u8>::empty() =~= out@);
}

fn write_action(
    out: &mut Vec<u8>,
    entity_id: i32,
    state: MinecraftBool,
)
    ensures
        final(out)@ == old(out)@ + fields_before(
            MinecraftView::Action { entity_id, state },
            Seq::empty(),
        ),
{
    write_i32(out, entity_id);
    write_bool(out, state);
    assert(out@ + Seq::<u8>::empty() =~= out@);
}

fn write_window_close(
    out: &mut Vec<u8>,
    window_id: u8,
)
    ensures
        final(out)@ == old(out)@ + fields_before(
            MinecraftView::WindowClose { window_id },
            Seq::empty(),
        ),
{
    write_u8(out, window_id);
    assert(out@ + Seq::<u8>::empty() =~= out@);
}

fn write_window_click(
    out: &mut Vec<u8>,
    window_id: u8,
    slot: i16,
    right_click: MinecraftBool,
    transaction_id: i32,
    shift_click: MinecraftBool,
)
    ensures
        final(out)@ == old(out)@ + fields_before(
            MinecraftView::WindowClick { window_id, slot, right_click, transaction_id, shift_click },
            Seq::empty(),
        ),
{
    write_u8(out, window_id);
    write_i16(out, slot);
    write_bool(out, right_click);
    write_i32(out, transaction_id);
    write_bool(out, shift_click);
    assert(out@ + Seq::<u8>::empty() =~= out@);
}

fn write_window_transaction(
    out: &mut Vec<u8>,
    window_id: u8,
    transaction_id: i32,
    accepted: MinecraftBool,
)
    ensures
        final(out)@ == old(out)@ + fields_before(
            MinecraftView::WindowTransaction { window_id, transaction_id, accepted },
            Seq::empty(),
        ),
{
    write_u8(out, window_id);
    write_i32(out, transaction_id);
    write_bool(out, accepted);
    assert(out@ + Seq::<u8>::empty() =~= out@);
}

fn write_update_sign(
    out: &mut Vec<u8>,
    x: i32,
    y: i16,
    z: i32,
    lines: &[MinecraftString; 4],
)
    requires
        lines[0].wf(),
        lines[1].wf(),
        lines[2].wf(),
        lines[3].wf(),
    ensures
        final(out)@ == old(out)@ + fields_before(
            MinecraftView::UpdateSign { x, y, z, lines: (lines[0]@, lines[1]@, lines[2]@, lines[3]@) },
            Seq::empty(),
        ),
{
    write_i32(out, x);
    write_i16(out, y);
    write_i32(out, z);
    write_string(out, &lines[0]);
    write_string(out, &lines[1]);
    write_string(out, &lines[2]);
    write_string(out, &lines[3]);
    assert(out@ + Seq::<u8>::empty() =~= out@);
}

fn write_disconnect(
    out: &mut Vec<u8>,
    reason: &MinecraftString,
)
    requires
        reason.wf(),
    ensures
        final(out)@ == old(out)@ + fields_before(
            MinecraftView::Disconnect { reason: reason@ },
            Seq::empty(),
        ),
{
    write_string(out, reason);
    assert(out@ + Seq::<u8>::empty() =~= out@);
}

/// Appends a packet's frame to `out`.
pub fn write_packet(packet: &MinecraftPacket, out: &mut Vec<u8>)
    requires
        packet.wf(),
    ensures
        final(out)@ == old(out)@ + spec_encode(packet@),
{
    write_u8(out, packet.tag());
    match packet {
        MinecraftPacket::KeepAlive => {
            assert(out@ + Seq::<u8>::empty() =~= out@);
        },
        MinecraftPacket::Login { version, username, seed, dimension } => {
            write_login(out, *version, username, *seed, *dimension);
        },
        MinecraftPacket::Handshake { username } => {
            write_handshake(out, username);
        },
        MinecraftPacket::Chat { message } => {
            write_chat(out, message);
        },
        MinecraftPacket::Interact { player_id, target_id, left_click } => {
            write_interact(out, *player_id, *target_id, *left_click);
        },
        MinecraftPacket::Respawn { dimension } => {
            write_respawn(out, *dimension);
        },
        MinecraftPacket::Flying { on_ground } => {
            write_flying(out, *on_ground);
        },
        MinecraftPacket::Position { x, y, stance, z, on_ground } => {
            write_position(out, *x, *y, *stance, *z, *on_ground);
        },
        MinecraftPacket::Look { yaw, pitch, on_ground } => {
            write_look(out, *yaw, *pitch, *on_ground);
        },
        MinecraftPacket::PositionLook { x, y, stance, z, yaw, pitch, on_ground } => {
            write_position_look(out, *x, *y, *stance, *z, *yaw, *pitch, *on_ground);
        },
        MinecraftPacket::BreakBlock { status, x, y, z, face } => {
            write_break_block(out, *status, *x, *y, *z, *face);
        },
        MinecraftPacket::PlaceBlock { x, y, z, direction } => {
            write_place_block(out, *x, *y, *z, *direction);
        },
        MinecraftPacket::HandSlot { slot } => {
            write_hand_slot(out, *slot);
        },
        MinecraftPacket::Animation { entity_id, animate } => {
            write_animation(out, *entity_id, *animate);
        },
        MinecraftPacket::Action { entity_id, state } => {
            write_action(out, *entity_id, *state);
        },
        MinecraftPacket::WindowClose { window_id } => {
            write_window_close(out, *window_id);
        },
        MinecraftPacket::WindowClick { window_id, slot, right_click, transaction_id, shift_click } => {
            write_window_click(out, *window_id, *slot, *right_click, *transaction_id, *shift_click);
        },
        MinecraftPacket::WindowTransaction { window_id, transaction_id, accepted } => {
            write_window_transaction(out, *window_id, *transaction_id, *accepted);
        },
        MinecraftPacket::UpdateSign { x, y, z, lines } => {
            write_update_sign(out, *x, *y, *z, lines);
        },
        MinecraftPacket::Disconnect { reason } => {
            write_disconnect(out, reason);
        },
    }
    proof {
        lemma_concat_assoc(
            old(out)@,
            be_u8(packet@.tag()),
            fields_before(packet@, Seq::empty()),
        );
    }
}

/// A packet's frame.
pub fn encode_packet(packet: &MinecraftPacket) -> (out: Vec<u8>)
    requires
        packet.wf(),
    ensures
        out@ == spec_encode(packet@),
{
    let mut out: Vec<u8> = Vec::new();
    write_packet(packet, &mut out);
    assert(Seq::<u8>::empty() + spec_encode(packet@) =~= spec_encode(packet@));
    out
}

} // verus!
