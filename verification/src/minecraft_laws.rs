//! What holds of the first generation's grammar as a whole: a frame reads
//! back as the packet it was written from, a frame cut short is incomplete
//! and never malformed, and a tag names one variant.

use crate::minecraft_grammar::{
    decode_fields, fields_before, frame_before, known_tag, spec_decode, spec_encode,
    MinecraftParsed, decode_action, decode_animation, decode_break_block, decode_chat,
    decode_disconnect, decode_flying, decode_hand_slot, decode_handshake, decode_interact,
    decode_login, decode_look, decode_place_block, decode_position, decode_position_look,
    decode_respawn, decode_update_sign, decode_window_click, decode_window_close,
    decode_window_transaction,
};
use crate::minecraft_packet::MinecraftView;
use crate::wire::{be_u8, group_forth, group_wire, lemma_concat_assoc, Cursor};
use vstd::prelude::*;

verus! {

proof fn lemma_back_login(packet: MinecraftView, tail: Seq<u8>)
    requires
        packet is Login,
        packet.wf(),
    ensures
        decode_login(Cursor::At(fields_before(packet, tail))) == MinecraftParsed::Frame(packet, tail),
{
    broadcast use group_wire;

    reveal(decode_login);
}

proof fn lemma_back_handshake(packet: MinecraftView, tail: Seq<u8>)
    requires
        packet is Handshake,
        packet.wf(),
    ensures
        decode_handshake(Cursor::At(fields_before(packet, tail))) == MinecraftParsed::Frame(packet, tail),
{
    broadcast use group_wire;

    reveal(decode_handshake);
}

proof fn lemma_back_chat(packet: MinecraftView, tail: Seq<u8>)
    requires
        packet is Chat,
        packet.wf(),
    ensures
        decode_chat(Cursor::At(fields_before(packet, tail))) == MinecraftParsed::Frame(packet, tail),
{
    broadcast use group_wire;

    reveal(decode_chat);
}

proof fn lemma_back_interact(packet: MinecraftView, tail: Seq<u8>)
    requires
        packet is Interact,
        packet.wf(),
    ensures
        decode_interact(Cursor::At(fields_before(packet, tail))) == MinecraftParsed::Frame(packet, tail),
{
    broadcast use group_wire;

    reveal(decode_interact);
}

proof fn lemma_back_respawn(packet: MinecraftView, tail: Seq<u8>)
    requires
        packet is Respawn,
        packet.wf(),
    ensures
        decode_respawn(Cursor::At(fields_before(packet, tail))) == MinecraftParsed::Frame(packet, tail),
{
    broadcast use group_wire;

    reveal(decode_respawn);
}

proof fn lemma_back_flying(packet: MinecraftView, tail: Seq<u8>)
    requires
        packet is Flying,
        packet.wf(),
    ensures
        decode_flying(Cursor::At(fields_before(packet, tail))) == MinecraftParsed::Frame(packet, tail),
{
    broadcast use group_wire;

    reveal(decode_flying);
}

proof fn lemma_back_position(packet: MinecraftView, tail: Seq<u8>)
    requires
        packet is Position,
        packet.wf(),
    ensures
        decode_position(Cursor::At(fields_before(packet, tail))) == MinecraftParsed::Frame(packet, tail),
{
    broadcast use group_wire;

    reveal(decode_position);
}

proof fn lemma_back_look(packet: MinecraftView, tail: Seq<u8>)
    requires
        packet is Look,
        packet.wf(),
    ensures
        decode_look(Cursor::At(fields_before(packet, tail))) == MinecraftParsed::Frame(packet, tail),
{
    broadcast use group_wire;

    reveal(decode_look);
}

proof fn lemma_back_position_look(packet: MinecraftView, tail: Seq<u8>)
    requires
        packet is PositionLook,
        packet.wf(),
    ensures
        decode_position_look(Cursor::At(fields_before(packet, tail))) == MinecraftParsed::Frame(packet, tail),
{
    broadcast use group_wire;

    reveal(decode_position_look);
}

proof fn lemma_back_break_block(packet: MinecraftView, tail: Seq<u8>)
    requires
        packet is BreakBlock,
        packet.wf(),
    ensures
        decode_break_block(Cursor::At(fields_before(packet, tail))) == MinecraftParsed::Frame(packet, tail),
{
    broadcast use group_wire;

    reveal(decode_break_block);
}

proof fn lemma_back_place_block(packet: MinecraftView, tail: Seq<u8>)
    requires
        packet is PlaceBlock,
        packet.wf(),
    ensures
        decode_place_block(Cursor::At(fields_before(packet, tail))) == MinecraftParsed::Frame(packet, tail),
{
    broadcast use group_wire;

    reveal(decode_place_block);
}

proof fn lemma_back_hand_slot(packet: MinecraftView, tail: Seq<u8>)
    requires
        packet is HandSlot,
        packet.wf(),
    ensures
        decode_hand_slot(Cursor::At(fields_before(packet, tail))) == MinecraftParsed::Frame(packet, tail),
{
    broadcast use group_wire;

    reveal(decode_hand_slot);
}

proof fn lemma_back_animation(packet: MinecraftView, tail: Seq<u8>)
    requires
        packet is Animation,
        packet.wf(),
    ensures
        decode_animation(Cursor::At(fields_before(packet, tail))) == MinecraftParsed::Frame(packet, tail),
{
    broadcast use group_wire;

    reveal(decode_animation);
}

proof fn lemma_back_action(packet: MinecraftView, tail: Seq<u8>)
    requires
        packet is Action,
        packet.wf(),
    ensures
        decode_action(Cursor::At(fields_before(packet, tail))) == MinecraftParsed::Frame(packet, tail),
{
    broadcast use group_wire;

    reveal(decode_action);
}

proof fn lemma_back_window_close(packet: MinecraftView, tail: Seq<u8>)
    requires
        packet is WindowClose,
        packet.wf(),
    ensures
        decode_window_close(Cursor::At(fields_before(packet, tail))) == MinecraftParsed::Frame(packet, tail),
{
    broadcast use group_wire;

    reveal(decode_window_close);
}

proof fn lemma_back_window_click(packet: MinecraftView, tail: Seq<u8>)
    requires
        packet is WindowClick,
        packet.wf(),
    ensures
        decode_window_click(Cursor::At(fields_before(packet, tail))) == MinecraftParsed::Frame(packet, tail),
{
    broadcast use group_wire;

    reveal(decode_window_click);
}

proof fn lemma_back_window_transaction(packet: MinecraftView, tail: Seq<u8>)
    requires
        packet is WindowTransaction,
        packet.wf(),
    ensures
        decode_window_transaction(Cursor::At(fields_before(packet, tail))) == MinecraftParsed::Frame(packet, tail),
{
    broadcast use group_wire;

    reveal(decode_window_transaction);
}

proof fn lemma_back_update_sign(packet: MinecraftView, tail: Seq<u8>)
    requires
        packet is UpdateSign,
        packet.wf(),
    ensures
        decode_update_sign(Cursor::At(fields_before(packet, tail))) == MinecraftParsed::Frame(packet, tail),
{
    broadcast use group_wire;

    reveal(decode_update_sign);
}

proof fn lemma_back_disconnect(packet: MinecraftView, tail: Seq<u8>)
    requires
        packet is Disconnect,
        packet.wf(),
    ensures
        decode_disconnect(Cursor::At(fields_before(packet, tail))) == MinecraftParsed::Frame(packet, tail),
{
    broadcast use group_wire;

    reveal(decode_disconnect);
}

/// Decoding a valid packet's frame gives the packet back and leaves what
/// follows the frame untouched.
pub proof fn lemma_round_trip(packet: MinecraftView, tail: Seq<u8>)
    requires
        packet.wf(),
    ensures
        spec_decode(frame_before(packet, tail)) == MinecraftParsed::Frame(packet, tail),
{
    let s = frame_before(packet, tail);
    assert(s[0] == packet.tag());
    assert(s.skip(1) =~= fields_before(packet, tail));
    reveal(decode_fields);
    match packet {
        MinecraftView::KeepAlive => {},
        MinecraftView::Login { .. } => {
            lemma_back_login(packet, tail);
        },
        MinecraftView::Handshake { .. } => {
            lemma_back_handshake(packet, tail);
        },
        MinecraftView::Chat { .. } => {
            lemma_back_chat(packet, tail);
        },
        MinecraftView::Interact { .. } => {
            lemma_back_interact(packet, tail);
        },
        MinecraftView::Respawn { .. } => {
            lemma_back_respawn(packet, tail);
        },
        MinecraftView::Flying { .. } => {
            lemma_back_flying(packet, tail);
        },
        MinecraftView::Position { .. } => {
            lemma_back_position(packet, tail);
        },
        MinecraftView::Look { .. } => {
            lemma_back_look(packet, tail);
        },
        MinecraftView::PositionLook { .. } => {
            lemma_back_position_look(packet, tail);
        },
        MinecraftView::BreakBlock { .. } => {
            lemma_back_break_block(packet, tail);
        },
        MinecraftView::PlaceBlock { .. } => {
            lemma_back_place_block(packet, tail);
        },
        MinecraftView::HandSlot { .. } => {
            lemma_back_hand_slot(packet, tail);
        },
        MinecraftView::Animation { .. } => {
            lemma_back_animation(packet, tail);
        },
        MinecraftView::Action { .. } => {
            lemma_back_action(packet, tail);
        },
        MinecraftView::WindowClose { .. } => {
            lemma_back_window_close(packet, tail);
        },
        MinecraftView::WindowClick { .. } => {
            lemma_back_window_click(packet, tail);
        },
        MinecraftView::WindowTransaction { .. } => {
            lemma_back_window_transaction(packet, tail);
        },
        MinecraftView::UpdateSign { .. } => {
            lemma_back_update_sign(packet, tail);
        },
        MinecraftView::Disconnect { .. } => {
            lemma_back_disconnect(packet, tail);
        },
    }
}

proof fn lemma_cut_login(packet: MinecraftView, k: int)
    requires
        packet is Login,
        packet.wf(),
        0 <= k < fields_before(packet, Seq::empty()).len(),
    ensures
        decode_login(Cursor::At(fields_before(packet, Seq::empty()).take(k))) is Incomplete,
{
    broadcast use group_wire;

    reveal(decode_login);
}

proof fn lemma_cut_handshake(packet: MinecraftView, k: int)
    requires
        packet is Handshake,
        packet.wf(),
        0 <= k < fields_before(packet, Seq::empty()).len(),
    ensures
        decode_handshake(Cursor::At(fields_before(packet, Seq::empty()).take(k))) is Incomplete,
{
    broadcast use group_wire;

    reveal(decode_handshake);
}

proof fn lemma_cut_chat(packet: MinecraftView, k: int)
    requires
        packet is Chat,
        packet.wf(),
        0 <= k < fields_before(packet, Seq::empty()).len(),
    ensures
        decode_chat(Cursor::At(fields_before(packet, Seq::empty()).take(k))) is Incomplete,
{
    broadcast use group_wire;

    reveal(decode_chat);
}

proof fn lemma_cut_interact(packet: MinecraftView, k: int)
    requires
        packet is Interact,
        packet.wf(),
        0 <= k < fields_before(packet, Seq::empty()).len(),
    ensures
        decode_interact(Cursor::At(fields_before(packet, Seq::empty()).take(k))) is Incomplete,
{
    broadcast use group_wire;

    reveal(decode_interact);
}

proof fn lemma_cut_respawn(packet: MinecraftView, k: int)
    requires
        packet is Respawn,
        packet.wf(),
        0 <= k < fields_before(packet, Seq::empty()).len(),
    ensures
        decode_respawn(Cursor::At(fields_before(packet, Seq::empty()).take(k))) is Incomplete,
{
    broadcast use group_wire;

    reveal(decode_respawn);
}

proof fn lemma_cut_flying(packet: MinecraftView, k: int)
    requires
        packet is Flying,
        packet.wf(),
        0 <= k < fields_before(packet, Seq::empty()).len(),
    ensures
        decode_flying(Cursor::At(fields_before(packet, Seq::empty()).take(k))) is Incomplete,
{
    broadcast use group_wire;

    reveal(decode_flying);
}

proof fn lemma_cut_position(packet: MinecraftView, k: int)
    requires
        packet is Position,
        packet.wf(),
        0 <= k < fields_before(packet, Seq::empty()).len(),
    ensures
        decode_position(Cursor::At(fields_before(packet, Seq::empty()).take(k))) is Incomplete,
{
    broadcast use group_wire;

    reveal(decode_position);
}

proof fn lemma_cut_look(packet: MinecraftView, k: int)
    requires
        packet is Look,
        packet.wf(),
        0 <= k < fields_before(packet, Seq::empty()).len(),
    ensures
        decode_look(Cursor::At(fields_before(packet, Seq::empty()).take(k))) is Incomplete,
{
    broadcast use group_wire;

    reveal(decode_look);
}

proof fn lemma_cut_position_look(packet: MinecraftView, k: int)
    requires
        packet is PositionLook,
        packet.wf(),
        0 <= k < fields_before(packet, Seq::empty()).len(),
    ensures
        decode_position_look(Cursor::At(fields_before(packet, Seq::empty()).take(k))) is Incomplete,
{
    broadcast use group_wire;

    reveal(decode_position_look);
}

proof fn lemma_cut_break_block(packet: MinecraftView, k: int)
    requires
        packet is BreakBlock,
        packet.wf(),
        0 <= k < fields_before(packet, Seq::empty()).len(),
    ensures
        decode_break_block(Cursor::At(fields_before(packet, Seq::empty()).take(k))) is Incomplete,
{
    broadcast use group_wire;

    reveal(decode_break_block);
}

proof fn lemma_cut_place_block(packet: MinecraftView, k: int)
    requires
        packet is PlaceBlock,
        packet.wf(),
        0 <= k < fields_before(packet, Seq::empty()).len(),
    ensures
        decode_place_block(Cursor::At(fields_before(packet, Seq::empty()).take(k))) is Incomplete,
{
    broadcast use group_wire;

    reveal(decode_place_block);
}

proof fn lemma_cut_hand_slot(packet: MinecraftView, k: int)
    requires
        packet is HandSlot,
        packet.wf(),
        0 <= k < fields_before(packet, Seq::empty()).len(),
    ensures
        decode_hand_slot(Cursor::At(fields_before(packet, Seq::empty()).take(k))) is Incomplete,
{
    broadcast use group_wire;

    reveal(decode_hand_slot);
}

proof fn lemma_cut_animation(packet: MinecraftView, k: int)
    requires
        packet is Animation,
        packet.wf(),
        0 <= k < fields_before(packet, Seq::empty()).len(),
    ensures
        decode_animation(Cursor::At(fields_before(packet, Seq::empty()).take(k))) is Incomplete,
{
    broadcast use group_wire;

    reveal(decode_animation);
}

proof fn lemma_cut_action(packet: MinecraftView, k: int)
    requires
        packet is Action,
        packet.wf(),
        0 <= k < fields_before(packet, Seq::empty()).len(),
    ensures
        decode_action(Cursor::At(fields_before(packet, Seq::empty()).take(k))) is Incomplete,
{
    broadcast use group_wire;

    reveal(decode_action);
}

proof fn lemma_cut_window_close(packet: MinecraftView, k: int)
    requires
        packet is WindowClose,
        packet.wf(),
        0 <= k < fields_before(packet, Seq::empty()).len(),
    ensures
        decode_window_close(Cursor::At(fields_before(packet, Seq::empty()).take(k))) is Incomplete,
{
    broadcast use group_wire;

    reveal(decode_window_close);
}

proof fn lemma_cut_window_click(packet: MinecraftView, k: int)
    requires
        packet is WindowClick,
        packet.wf(),
        0 <= k < fields_before(packet, Seq::empty()).len(),
    ensures
        decode_window_click(Cursor::At(fields_before(packet, Seq::empty()).take(k))) is Incomplete,
{
    broadcast use group_wire;

    reveal(decode_window_click);
}

proof fn lemma_cut_window_transaction(packet: MinecraftView, k: int)
    requires
        packet is WindowTransaction,
        packet.wf(),
        0 <= k < fields_before(packet, Seq::empty()).len(),
    ensures
        decode_window_transaction(Cursor::At(fields_before(packet, Seq::empty()).take(k))) is Incomplete,
{
    broadcast use group_wire;

    reveal(decode_window_transaction);
}

proof fn lemma_cut_update_sign(packet: MinecraftView, k: int)
    requires
        packet is UpdateSign,
        packet.wf(),
        0 <= k < fields_before(packet, Seq::empty()).len(),
    ensures
        decode_update_sign(Cursor::At(fields_before(packet, Seq::empty()).take(k))) is Incomplete,
{
    broadcast use group_wire;

    reveal(decode_update_sign);
}

proof fn lemma_cut_disconnect(packet: MinecraftView, k: int)
    requires
        packet is Disconnect,
        packet.wf(),
        0 <= k < fields_before(packet, Seq::empty()).len(),
    ensures
        decode_disconnect(Cursor::At(fields_before(packet, Seq::empty()).take(k))) is Incomplete,
{
    broadcast use group_wire;

    reveal(decode_disconnect);
}

/// Every proper prefix of a valid packet's frame is incomplete.
pub proof fn lemma_prefix_incomplete(packet: MinecraftView, k: int)
    requires
        packet.wf(),
        0 <= k < spec_encode(packet).len(),
    ensures
        spec_decode(spec_encode(packet).take(k)) is Incomplete,
{
    let s = spec_encode(packet);
    let body = fields_before(packet, Seq::empty());
    if k > 0 {
        assert(s.take(k)[0] == packet.tag());
        assert(s.take(k).skip(1) =~= body.take(k - 1));
        reveal(decode_fields);
        match packet {
            MinecraftView::KeepAlive => {},
            MinecraftView::Login { .. } => {
                lemma_cut_login(packet, k - 1);
            },
            MinecraftView::Handshake { .. } => {
                lemma_cut_handshake(packet, k - 1);
            },
            MinecraftView::Chat { .. } => {
                lemma_cut_chat(packet, k - 1);
            },
            MinecraftView::Interact { .. } => {
                lemma_cut_interact(packet, k - 1);
            },
            MinecraftView::Respawn { .. } => {
                lemma_cut_respawn(packet, k - 1);
            },
            MinecraftView::Flying { .. } => {
                lemma_cut_flying(packet, k - 1);
            },
            MinecraftView::Position { .. } => {
                lemma_cut_position(packet, k - 1);
            },
            MinecraftView::Look { .. } => {
                lemma_cut_look(packet, k - 1);
            },
            MinecraftView::PositionLook { .. } => {
                lemma_cut_position_look(packet, k - 1);
            },
            MinecraftView::BreakBlock { .. } => {
                lemma_cut_break_block(packet, k - 1);
            },
            MinecraftView::PlaceBlock { .. } => {
                lemma_cut_place_block(packet, k - 1);
            },
            MinecraftView::HandSlot { .. } => {
                lemma_cut_hand_slot(packet, k - 1);
            },
            MinecraftView::Animation { .. } => {
                lemma_cut_animation(packet, k - 1);
            },
            MinecraftView::Action { .. } => {
                lemma_cut_action(packet, k - 1);
            },
            MinecraftView::WindowClose { .. } => {
                lemma_cut_window_close(packet, k - 1);
            },
            MinecraftView::WindowClick { .. } => {
                lemma_cut_window_click(packet, k - 1);
            },
            MinecraftView::WindowTransaction { .. } => {
                lemma_cut_window_transaction(packet, k - 1);
            },
            MinecraftView::UpdateSign { .. } => {
                lemma_cut_update_sign(packet, k - 1);
            },
            MinecraftView::Disconnect { .. } => {
                lemma_cut_disconnect(packet, k - 1);
            },
        }
    }
}

/// A first byte that names no variant makes the bytes malformed, however
/// many follow.
pub proof fn lemma_unknown_tag_malformed(s: Seq<u8>)
    requires
        s.len() > 0,
        !known_tag(s[0]),
    ensures
        spec_decode(s) is Malformed,
{
    reveal(decode_fields);
}


proof fn lemma_shape_login(c: Cursor)
    ensures
        decode_login(c) is Frame ==> decode_login(c)->Frame_0 is Login,
{
    reveal(decode_login);
}

proof fn lemma_shape_handshake(c: Cursor)
    ensures
        decode_handshake(c) is Frame ==> decode_handshake(c)->Frame_0 is Handshake,
{
    reveal(decode_handshake);
}

proof fn lemma_shape_chat(c: Cursor)
    ensures
        decode_chat(c) is Frame ==> decode_chat(c)->Frame_0 is Chat,
{
    reveal(decode_chat);
}

proof fn lemma_shape_interact(c: Cursor)
    ensures
        decode_interact(c) is Frame ==> decode_interact(c)->Frame_0 is Interact,
{
    reveal(decode_interact);
}

proof fn lemma_shape_respawn(c: Cursor)
    ensures
        decode_respawn(c) is Frame ==> decode_respawn(c)->Frame_0 is Respawn,
{
    reveal(decode_respawn);
}

proof fn lemma_shape_flying(c: Cursor)
    ensures
        decode_flying(c) is Frame ==> decode_flying(c)->Frame_0 is Flying,
{
    reveal(decode_flying);
}

proof fn lemma_shape_position(c: Cursor)
    ensures
        decode_position(c) is Frame ==> decode_position(c)->Frame_0 is Position,
{
    reveal(decode_position);
}

proof fn lemma_shape_look(c: Cursor)
    ensures
        decode_look(c) is Frame ==> decode_look(c)->Frame_0 is Look,
{
    reveal(decode_look);
}

proof fn lemma_shape_position_look(c: Cursor)
    ensures
        decode_position_look(c) is Frame ==> decode_position_look(c)->Frame_0 is PositionLook,
{
    reveal(decode_position_look);
}

proof fn lemma_shape_break_block(c: Cursor)
    ensures
        decode_break_block(c) is Frame ==> decode_break_block(c)->Frame_0 is BreakBlock,
{
    reveal(decode_break_block);
}

proof fn lemma_shape_place_block(c: Cursor)
    ensures
        decode_place_block(c) is Frame ==> decode_place_block(c)->Frame_0 is PlaceBlock,
{
    reveal(decode_place_block);
}

proof fn lemma_shape_hand_slot(c: Cursor)
    ensures
        decode_hand_slot(c) is Frame ==> decode_hand_slot(c)->Frame_0 is HandSlot,
{
    reveal(decode_hand_slot);
}

proof fn lemma_shape_animation(c: Cursor)
    ensures
        decode_animation(c) is Frame ==> decode_animation(c)->Frame_0 is Animation,
{
    reveal(decode_animation);
}

proof fn lemma_shape_action(c: Cursor)
    ensures
        decode_action(c) is Frame ==> decode_action(c)->Frame_0 is Action,
{
    reveal(decode_action);
}

proof fn lemma_shape_window_close(c: Cursor)
    ensures
        decode_window_close(c) is Frame ==> decode_window_close(c)->Frame_0 is WindowClose,
{
    reveal(decode_window_close);
}

proof fn lemma_shape_window_click(c: Cursor)
    ensures
        decode_window_click(c) is Frame ==> decode_window_click(c)->Frame_0 is WindowClick,
{
    reveal(decode_window_click);
}

proof fn lemma_shape_window_transaction(c: Cursor)
    ensures
        decode_window_transaction(c) is Frame ==> decode_window_transaction(c)->Frame_0 is WindowTransaction,
{
    reveal(decode_window_transaction);
}

proof fn lemma_shape_update_sign(c: Cursor)
    ensures
        decode_update_sign(c) is Frame ==> decode_update_sign(c)->Frame_0 is UpdateSign,
{
    reveal(decode_update_sign);
}

proof fn lemma_shape_disconnect(c: Cursor)
    ensures
        decode_disconnect(c) is Frame ==> decode_disconnect(c)->Frame_0 is Disconnect,
{
    reveal(decode_disconnect);
}

/// A frame that decodes starts with the tag of the packet it holds, and
/// that tag is one the schema knows.
pub proof fn lemma_frame_starts_with_tag(s: Seq<u8>)
    requires
        spec_decode(s) is Frame,
    ensures
        s.len() > 0,
        s[0] == spec_decode(s)->Frame_0.tag(),
        known_tag(s[0]),
{
    let c = Cursor::At(s.skip(1));
    reveal(decode_fields);
    lemma_shape_login(c);
    lemma_shape_handshake(c);
    lemma_shape_chat(c);
    lemma_shape_interact(c);
    lemma_shape_respawn(c);
    lemma_shape_flying(c);
    lemma_shape_position(c);
    lemma_shape_look(c);
    lemma_shape_position_look(c);
    lemma_shape_break_block(c);
    lemma_shape_place_block(c);
    lemma_shape_hand_slot(c);
    lemma_shape_animation(c);
    lemma_shape_action(c);
    lemma_shape_window_close(c);
    lemma_shape_window_click(c);
    lemma_shape_window_transaction(c);
    lemma_shape_update_sign(c);
    lemma_shape_disconnect(c);
}

/// Two packets have one tag exactly when they are of one variant, and every
/// packet's tag is known.
pub proof fn lemma_tag_names_one_variant(a: MinecraftView, b: MinecraftView)
    ensures
        a.tag() == b.tag() <==> a.same_variant(b),
        known_tag(a.tag()),
{
}


proof fn lemma_fields_before(packet: MinecraftView, tail: Seq<u8>)
    ensures
        fields_before(packet, tail) == fields_before(packet, Seq::empty()) + tail,
{
    assert(Seq::<u8>::empty() + tail =~= tail);
    match packet {
        MinecraftView::KeepAlive => {},
        MinecraftView::Login { .. } => {
            assert(fields_before(packet, tail) == fields_before(packet, Seq::empty()) + tail) by {
                broadcast use lemma_concat_assoc;

            }
        },
        MinecraftView::Handshake { .. } => {
            assert(fields_before(packet, tail) == fields_before(packet, Seq::empty()) + tail) by {
                broadcast use lemma_concat_assoc;

            }
        },
        MinecraftView::Chat { .. } => {
            assert(fields_before(packet, tail) == fields_before(packet, Seq::empty()) + tail) by {
                broadcast use lemma_concat_assoc;

            }
        },
        MinecraftView::Interact { .. } => {
            assert(fields_before(packet, tail) == fields_before(packet, Seq::empty()) + tail) by {
                broadcast use lemma_concat_assoc;

            }
        },
        MinecraftView::Respawn { .. } => {
            assert(fields_before(packet, tail) == fields_before(packet, Seq::empty()) + tail) by {
                broadcast use lemma_concat_assoc;

            }
        },
        MinecraftView::Flying { .. } => {
            assert(fields_before(packet, tail) == fields_before(packet, Seq::empty()) + tail) by {
                broadcast use lemma_concat_assoc;

            }
        },
        MinecraftView::Position { .. } => {
            assert(fields_before(packet, tail) == fields_before(packet, Seq::empty()) + tail) by {
                broadcast use lemma_concat_assoc;

            }
        },
        MinecraftView::Look { .. } => {
            assert(fields_before(packet, tail) == fields_before(packet, Seq::empty()) + tail) by {
                broadcast use lemma_concat_assoc;

            }
        },
        MinecraftView::PositionLook { .. } => {
            assert(fields_before(packet, tail) == fields_before(packet, Seq::empty()) + tail) by {
                broadcast use lemma_concat_assoc;

            }
        },
        MinecraftView::BreakBlock { .. } => {
            assert(fields_before(packet, tail) == fields_before(packet, Seq::empty()) + tail) by {
                broadcast use lemma_concat_assoc;

            }
        },
        MinecraftView::PlaceBlock { .. } => {
            assert(fields_before(packet, tail) == fields_before(packet, Seq::empty()) + tail) by {
                broadcast use lemma_concat_assoc;

            }
        },
        MinecraftView::HandSlot { .. } => {
            assert(fields_before(packet, tail) == fields_before(packet, Seq::empty()) + tail) by {
                broadcast use lemma_concat_assoc;

            }
        },
        MinecraftView::Animation { .. } => {
            assert(fields_before(packet, tail) == fields_before(packet, Seq::empty()) + tail) by {
                broadcast use lemma_concat_assoc;

            }
        },
        MinecraftView::Action { .. } => {
            assert(fields_before(packet, tail) == fields_before(packet, Seq::empty()) + tail) by {
                broadcast use lemma_concat_assoc;

            }
        },
        MinecraftView::WindowClose { .. } => {
            assert(fields_before(packet, tail) == fields_before(packet, Seq::empty()) + tail) by {
                broadcast use lemma_concat_assoc;

            }
        },
        MinecraftView::WindowClick { .. } => {
            assert(fields_before(packet, tail) == fields_before(packet, Seq::empty()) + tail) by {
                broadcast use lemma_concat_assoc;

            }
        },
        MinecraftView::WindowTransaction { .. } => {
            assert(fields_before(packet, tail) == fields_before(packet, Seq::empty()) + tail) by {
                broadcast use lemma_concat_assoc;

            }
        },
        MinecraftView::UpdateSign { .. } => {
            assert(fields_before(packet, tail) == fields_before(packet, Seq::empty()) + tail) by {
                broadcast use lemma_concat_assoc;

            }
        },
        MinecraftView::Disconnect { .. } => {
            assert(fields_before(packet, tail) == fields_before(packet, Seq::empty()) + tail) by {
                broadcast use lemma_concat_assoc;

            }
        },
    }
}

/// The frame of a packet before other bytes is its frame, then those bytes.
pub proof fn lemma_frame_before(packet: MinecraftView, tail: Seq<u8>)
    ensures
        frame_before(packet, tail) == spec_encode(packet) + tail,
{
    lemma_fields_before(packet, tail);
    lemma_concat_assoc(be_u8(packet.tag()), fields_before(packet, Seq::empty()), tail);
}

/// A frame with other bytes behind it decodes to its packet and leaves
/// those bytes.
pub proof fn lemma_following_bytes_untouched(packet: MinecraftView, tail: Seq<u8>)
    requires
        packet.wf(),
    ensures
        spec_decode(spec_encode(packet) + tail) == MinecraftParsed::Frame(packet, tail),
        spec_decode(spec_encode(packet)) == MinecraftParsed::Frame(packet, Seq::<u8>::empty()),
{
    lemma_frame_before(packet, tail);
    lemma_round_trip(packet, tail);
    lemma_round_trip(packet, Seq::empty());
}


proof fn lemma_shrinks_login(s: Seq<u8>)
    ensures
        decode_login(Cursor::At(s)) is Frame ==> decode_login(Cursor::At(s))->Frame_1.len() <= s.len(),
{
    reveal(decode_login);
}

proof fn lemma_shrinks_handshake(s: Seq<u8>)
    ensures
        decode_handshake(Cursor::At(s)) is Frame ==> decode_handshake(Cursor::At(s))->Frame_1.len() <= s.len(),
{
    reveal(decode_handshake);
}

proof fn lemma_shrinks_chat(s: Seq<u8>)
    ensures
        decode_chat(Cursor::At(s)) is Frame ==> decode_chat(Cursor::At(s))->Frame_1.len() <= s.len(),
{
    reveal(decode_chat);
}

proof fn lemma_shrinks_interact(s: Seq<u8>)
    ensures
        decode_interact(Cursor::At(s)) is Frame ==> decode_interact(Cursor::At(s))->Frame_1.len() <= s.len(),
{
    reveal(decode_interact);
}

proof fn lemma_shrinks_respawn(s: Seq<u8>)
    ensures
        decode_respawn(Cursor::At(s)) is Frame ==> decode_respawn(Cursor::At(s))->Frame_1.len() <= s.len(),
{
    reveal(decode_respawn);
}

proof fn lemma_shrinks_flying(s: Seq<u8>)
    ensures
        decode_flying(Cursor::At(s)) is Frame ==> decode_flying(Cursor::At(s))->Frame_1.len() <= s.len(),
{
    reveal(decode_flying);
}

proof fn lemma_shrinks_position(s: Seq<u8>)
    ensures
        decode_position(Cursor::At(s)) is Frame ==> decode_position(Cursor::At(s))->Frame_1.len() <= s.len(),
{
    reveal(decode_position);
}

proof fn lemma_shrinks_look(s: Seq<u8>)
    ensures
        decode_look(Cursor::At(s)) is Frame ==> decode_look(Cursor::At(s))->Frame_1.len() <= s.len(),
{
    reveal(decode_look);
}

proof fn lemma_shrinks_position_look(s: Seq<u8>)
    ensures
        decode_position_look(Cursor::At(s)) is Frame ==> decode_position_look(Cursor::At(s))->Frame_1.len() <= s.len(),
{
    reveal(decode_position_look);
}

proof fn lemma_shrinks_break_block(s: Seq<u8>)
    ensures
        decode_break_block(Cursor::At(s)) is Frame ==> decode_break_block(Cursor::At(s))->Frame_1.len() <= s.len(),
{
    reveal(decode_break_block);
}

proof fn lemma_shrinks_place_block(s: Seq<u8>)
    ensures
        decode_place_block(Cursor::At(s)) is Frame ==> decode_place_block(Cursor::At(s))->Frame_1.len() <= s.len(),
{
    reveal(decode_place_block);
}

proof fn lemma_shrinks_hand_slot(s: Seq<u8>)
    ensures
        decode_hand_slot(Cursor::At(s)) is Frame ==> decode_hand_slot(Cursor::At(s))->Frame_1.len() <= s.len(),
{
    reveal(decode_hand_slot);
}

proof fn lemma_shrinks_animation(s: Seq<u8>)
    ensures
        decode_animation(Cursor::At(s)) is Frame ==> decode_animation(Cursor::At(s))->Frame_1.len() <= s.len(),
{
    reveal(decode_animation);
}

proof fn lemma_shrinks_action(s: Seq<u8>)
    ensures
        decode_action(Cursor::At(s)) is Frame ==> decode_action(Cursor::At(s))->Frame_1.len() <= s.len(),
{
    reveal(decode_action);
}

proof fn lemma_shrinks_window_close(s: Seq<u8>)
    ensures
        decode_window_close(Cursor::At(s)) is Frame ==> decode_window_close(Cursor::At(s))->Frame_1.len() <= s.len(),
{
    reveal(decode_window_close);
}

proof fn lemma_shrinks_window_click(s: Seq<u8>)
    ensures
        decode_window_click(Cursor::At(s)) is Frame ==> decode_window_click(Cursor::At(s))->Frame_1.len() <= s.len(),
{
    reveal(decode_window_click);
}

proof fn lemma_shrinks_window_transaction(s: Seq<u8>)
    ensures
        decode_window_transaction(Cursor::At(s)) is Frame ==> decode_window_transaction(Cursor::At(s))->Frame_1.len() <= s.len(),
{
    reveal(decode_window_transaction);
}

proof fn lemma_shrinks_update_sign(s: Seq<u8>)
    ensures
        decode_update_sign(Cursor::At(s)) is Frame ==> decode_update_sign(Cursor::At(s))->Frame_1.len() <= s.len(),
{
    reveal(decode_update_sign);
}

proof fn lemma_shrinks_disconnect(s: Seq<u8>)
    ensures
        decode_disconnect(Cursor::At(s)) is Frame ==> decode_disconnect(Cursor::At(s))->Frame_1.len() <= s.len(),
{
    reveal(decode_disconnect);
}

/// A frame that decodes takes at least its tag byte: what is left behind
/// it is shorter than what was there.
pub proof fn lemma_frame_consumes(s: Seq<u8>)
    requires
        spec_decode(s) is Frame,
    ensures
        spec_decode(s)->Frame_1.len() < s.len(),
{
    let body = s.skip(1);
    reveal(decode_fields);
    lemma_shrinks_login(body);
    lemma_shrinks_handshake(body);
    lemma_shrinks_chat(body);
    lemma_shrinks_interact(body);
    lemma_shrinks_respawn(body);
    lemma_shrinks_flying(body);
    lemma_shrinks_position(body);
    lemma_shrinks_look(body);
    lemma_shrinks_position_look(body);
    lemma_shrinks_break_block(body);
    lemma_shrinks_place_block(body);
    lemma_shrinks_hand_slot(body);
    lemma_shrinks_animation(body);
    lemma_shrinks_action(body);
    lemma_shrinks_window_close(body);
    lemma_shrinks_window_click(body);
    lemma_shrinks_window_transaction(body);
    lemma_shrinks_update_sign(body);
    lemma_shrinks_disconnect(body);
}

proof fn lemma_valid_login(c: Cursor)
    ensures
        decode_login(c) is Frame ==> decode_login(c)->Frame_0.wf(),
{
    reveal(decode_login);
}

proof fn lemma_valid_handshake(c: Cursor)
    ensures
        decode_handshake(c) is Frame ==> decode_handshake(c)->Frame_0.wf(),
{
    reveal(decode_handshake);
}

proof fn lemma_valid_chat(c: Cursor)
    ensures
        decode_chat(c) is Frame ==> decode_chat(c)->Frame_0.wf(),
{
    reveal(decode_chat);
}

proof fn lemma_valid_interact(c: Cursor)
    ensures
        decode_interact(c) is Frame ==> decode_interact(c)->Frame_0.wf(),
{
    lemma_shape_interact(c);
}

proof fn lemma_valid_respawn(c: Cursor)
    ensures
        decode_respawn(c) is Frame ==> decode_respawn(c)->Frame_0.wf(),
{
    lemma_shape_respawn(c);
}

proof fn lemma_valid_flying(c: Cursor)
    ensures
        decode_flying(c) is Frame ==> decode_flying(c)->Frame_0.wf(),
{
    lemma_shape_flying(c);
}

proof fn lemma_valid_position(c: Cursor)
    ensures
        decode_position(c) is Frame ==> decode_position(c)->Frame_0.wf(),
{
    lemma_shape_position(c);
}

proof fn lemma_valid_look(c: Cursor)
    ensures
        decode_look(c) is Frame ==> decode_look(c)->Frame_0.wf(),
{
    lemma_shape_look(c);
}

proof fn lemma_valid_position_look(c: Cursor)
    ensures
        decode_position_look(c) is Frame ==> decode_position_look(c)->Frame_0.wf(),
{
    lemma_shape_position_look(c);
}

proof fn lemma_valid_break_block(c: Cursor)
    ensures
        decode_break_block(c) is Frame ==> decode_break_block(c)->Frame_0.wf(),
{
    lemma_shape_break_block(c);
}

proof fn lemma_valid_place_block(c: Cursor)
    ensures
        decode_place_block(c) is Frame ==> decode_place_block(c)->Frame_0.wf(),
{
    lemma_shape_place_block(c);
}

proof fn lemma_valid_hand_slot(c: Cursor)
    ensures
        decode_hand_slot(c) is Frame ==> decode_hand_slot(c)->Frame_0.wf(),
{
    lemma_shape_hand_slot(c);
}

proof fn lemma_valid_animation(c: Cursor)
    ensures
        decode_animation(c) is Frame ==> decode_animation(c)->Frame_0.wf(),
{
    lemma_shape_animation(c);
}

proof fn lemma_valid_action(c: Cursor)
    ensures
        decode_action(c) is Frame ==> decode_action(c)->Frame_0.wf(),
{
    lemma_shape_action(c);
}

proof fn lemma_valid_window_close(c: Cursor)
    ensures
        decode_window_close(c) is Frame ==> decode_window_close(c)->Frame_0.wf(),
{
    lemma_shape_window_close(c);
}

proof fn lemma_valid_window_click(c: Cursor)
    ensures
        decode_window_click(c) is Frame ==> decode_window_click(c)->Frame_0.wf(),
{
    lemma_shape_window_click(c);
}

proof fn lemma_valid_window_transaction(c: Cursor)
    ensures
        decode_window_transaction(c) is Frame ==> decode_window_transaction(c)->Frame_0.wf(),
{
    lemma_shape_window_transaction(c);
}

proof fn lemma_valid_update_sign(c: Cursor)
    ensures
        decode_update_sign(c) is Frame ==> decode_update_sign(c)->Frame_0.wf(),
{
    reveal(decode_update_sign);
}

proof fn lemma_valid_disconnect(c: Cursor)
    ensures
        decode_disconnect(c) is Frame ==> decode_disconnect(c)->Frame_0.wf(),
{
    reveal(decode_disconnect);
}

/// Only packets that the wire can carry are ever decoded.
pub proof fn lemma_decoded_is_valid(s: Seq<u8>)
    requires
        spec_decode(s) is Frame,
    ensures
        spec_decode(s)->Frame_0.wf(),
{
    let c = Cursor::At(s.skip(1));
    reveal(decode_fields);
    lemma_valid_login(c);
    lemma_valid_handshake(c);
    lemma_valid_chat(c);
    lemma_valid_interact(c);
    lemma_valid_respawn(c);
    lemma_valid_flying(c);
    lemma_valid_position(c);
    lemma_valid_look(c);
    lemma_valid_position_look(c);
    lemma_valid_break_block(c);
    lemma_valid_place_block(c);
    lemma_valid_hand_slot(c);
    lemma_valid_animation(c);
    lemma_valid_action(c);
    lemma_valid_window_close(c);
    lemma_valid_window_click(c);
    lemma_valid_window_transaction(c);
    lemma_valid_update_sign(c);
    lemma_valid_disconnect(c);
}

proof fn lemma_forth_login(c: Cursor)
    ensures
        decode_login(c) is Frame ==> c is At && c->At_0 == fields_before(
            decode_login(c)->Frame_0,
            decode_login(c)->Frame_1,
        ),
{
    broadcast use group_forth;

    reveal(decode_login);
}

proof fn lemma_forth_handshake(c: Cursor)
    ensures
        decode_handshake(c) is Frame ==> c is At && c->At_0 == fields_before(
            decode_handshake(c)->Frame_0,
            decode_handshake(c)->Frame_1,
        ),
{
    broadcast use group_forth;

    reveal(decode_handshake);
}

proof fn lemma_forth_chat(c: Cursor)
    ensures
        decode_chat(c) is Frame ==> c is At && c->At_0 == fields_before(
            decode_chat(c)->Frame_0,
            decode_chat(c)->Frame_1,
        ),
{
    broadcast use group_forth;

    reveal(decode_chat);
}

proof fn lemma_forth_interact(c: Cursor)
    ensures
        decode_interact(c) is Frame ==> c is At && c->At_0 == fields_before(
            decode_interact(c)->Frame_0,
            decode_interact(c)->Frame_1,
        ),
{
    broadcast use group_forth;

    reveal(decode_interact);
}

proof fn lemma_forth_respawn(c: Cursor)
    ensures
        decode_respawn(c) is Frame ==> c is At && c->At_0 == fields_before(
            decode_respawn(c)->Frame_0,
            decode_respawn(c)->Frame_1,
        ),
{
    broadcast use group_forth;

    reveal(decode_respawn);
}

proof fn lemma_forth_flying(c: Cursor)
    ensures
        decode_flying(c) is Frame ==> c is At && c->At_0 == fields_before(
            decode_flying(c)->Frame_0,
            decode_flying(c)->Frame_1,
        ),
{
    broadcast use group_forth;

    reveal(decode_flying);
}

proof fn lemma_forth_position(c: Cursor)
    ensures
        decode_position(c) is Frame ==> c is At && c->At_0 == fields_before(
            decode_position(c)->Frame_0,
            decode_position(c)->Frame_1,
        ),
{
    broadcast use group_forth;

    reveal(decode_position);
}

proof fn lemma_forth_look(c: Cursor)
    ensures
        decode_look(c) is Frame ==> c is At && c->At_0 == fields_before(
            decode_look(c)->Frame_0,
            decode_look(c)->Frame_1,
        ),
{
    broadcast use group_forth;

    reveal(decode_look);
}

proof fn lemma_forth_position_look(c: Cursor)
    ensures
        decode_position_look(c) is Frame ==> c is At && c->At_0 == fields_before(
            decode_position_look(c)->Frame_0,
            decode_position_look(c)->Frame_1,
        ),
{
    broadcast use group_forth;

    reveal(decode_position_look);
}

proof fn lemma_forth_break_block(c: Cursor)
    ensures
        decode_break_block(c) is Frame ==> c is At && c->At_0 == fields_before(
            decode_break_block(c)->Frame_0,
            decode_break_block(c)->Frame_1,
        ),
{
    broadcast use group_forth;

    reveal(decode_break_block);
}

proof fn lemma_forth_place_block(c: Cursor)
    ensures
        decode_place_block(c) is Frame ==> c is At && c->At_0 == fields_before(
            decode_place_block(c)->Frame_0,
            decode_place_block(c)->Frame_1,
        ),
{
    broadcast use group_forth;

    reveal(decode_place_block);
}

proof fn lemma_forth_hand_slot(c: Cursor)
    ensures
        decode_hand_slot(c) is Frame ==> c is At && c->At_0 == fields_before(
            decode_hand_slot(c)->Frame_0,
            decode_hand_slot(c)->Frame_1,
        ),
{
    broadcast use group_forth;

    reveal(decode_hand_slot);
}

proof fn lemma_forth_animation(c: Cursor)
    ensures
        decode_animation(c) is Frame ==> c is At && c->At_0 == fields_before(
            decode_animation(c)->Frame_0,
            decode_animation(c)->Frame_1,
        ),
{
    broadcast use group_forth;

    reveal(decode_animation);
}

proof fn lemma_forth_action(c: Cursor)
    ensures
        decode_action(c) is Frame ==> c is At && c->At_0 == fields_before(
            decode_action(c)->Frame_0,
            decode_action(c)->Frame_1,
        ),
{
    broadcast use group_forth;

    reveal(decode_action);
}

proof fn lemma_forth_window_close(c: Cursor)
    ensures
        decode_window_close(c) is Frame ==> c is At && c->At_0 == fields_before(
            decode_window_close(c)->Frame_0,
            decode_window_close(c)->Frame_1,
        ),
{
    broadcast use group_forth;

    reveal(decode_window_close);
}

proof fn lemma_forth_window_click(c: Cursor)
    ensures
        decode_window_click(c) is Frame ==> c is At && c->At_0 == fields_before(
            decode_window_click(c)->Frame_0,
            decode_window_click(c)->Frame_1,
        ),
{
    broadcast use group_forth;

    reveal(decode_window_click);
}

proof fn lemma_forth_window_transaction(c: Cursor)
    ensures
        decode_window_transaction(c) is Frame ==> c is At && c->At_0 == fields_before(
            decode_window_transaction(c)->Frame_0,
            decode_window_transaction(c)->Frame_1,
        ),
{
    broadcast use group_forth;

    reveal(decode_window_transaction);
}

proof fn lemma_forth_update_sign(c: Cursor)
    ensures
        decode_update_sign(c) is Frame ==> c is At && c->At_0 == fields_before(
            decode_update_sign(c)->Frame_0,
            decode_update_sign(c)->Frame_1,
        ),
{
    broadcast use group_forth;

    reveal(decode_update_sign);
}

proof fn lemma_forth_disconnect(c: Cursor)
    ensures
        decode_disconnect(c) is Frame ==> c is At && c->At_0 == fields_before(
            decode_disconnect(c)->Frame_0,
            decode_disconnect(c)->Frame_1,
        ),
{
    broadcast use group_forth;

    reveal(decode_disconnect);
}

/// The bytes that decode to a packet are that packet's frame, then what
/// was left: encoding undoes decoding byte for byte.
pub proof fn lemma_decode_then_encode(s: Seq<u8>)
    requires
        spec_decode(s) is Frame,
    ensures
        s == spec_encode(spec_decode(s)->Frame_0) + spec_decode(s)->Frame_1,
{
    let c = Cursor::At(s.skip(1));
    let packet = spec_decode(s)->Frame_0;
    let rest = spec_decode(s)->Frame_1;
    lemma_frame_starts_with_tag(s);
    lemma_frame_before(packet, rest);
    assert(s =~= be_u8(s[0]) + s.skip(1));
    assert(fields_before(packet, rest) == s.skip(1)) by {
        reveal(decode_fields);
        lemma_forth_login(c);
        lemma_forth_handshake(c);
        lemma_forth_chat(c);
        lemma_forth_interact(c);
        lemma_forth_respawn(c);
        lemma_forth_flying(c);
        lemma_forth_position(c);
        lemma_forth_look(c);
        lemma_forth_position_look(c);
        lemma_forth_break_block(c);
        lemma_forth_place_block(c);
        lemma_forth_hand_slot(c);
        lemma_forth_animation(c);
        lemma_forth_action(c);
        lemma_forth_window_close(c);
        lemma_forth_window_click(c);
        lemma_forth_window_transaction(c);
        lemma_forth_update_sign(c);
        lemma_forth_disconnect(c);
    }
}

} // verus!
