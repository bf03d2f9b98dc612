//! What the tick loop answers to a packet from a session's inbound queue.
//!
//! The loop itself, and the queues, are the caller's. Here is the rule: a
//! keep-alive is echoed, a handshake is answered with the login and the
//! first view of the world, and nothing else is answered.

use crate::packet::{DicePacket, EntityPosition, PacketView};
use crate::primitive::{lemma_utf16_len, utf16_of, DiceString};
use crate::session::views;
use crate::wire::{i16_of, spec_i16_of};
use vstd::prelude::*;

verus! {

/// The protocol version announced at login.
pub const PROTOCOL_VERSION: i32 = 14;

/// The height of the floor shown at login, and of the spawn point.
pub const FLOOR_Y: u16 = 64;

/// A block's place within its chunk as a 16-bit value: `x` in the low four
/// bits, `z` in the next four, and `y` in the high byte. Only the low byte
/// of each argument counts.
pub open spec fn spec_pack_position(x: u16, y: u16, z: u16) -> i16 {
    spec_i16_of(((y % 256) * 256 + (z % 256) * 16 + x % 256) as u16)
}

/// Packs a block's place within its chunk. `x` and `z` are columns of a
/// chunk sixteen wide, so the low byte of each must be below 16.
pub fn pack_position(x: u16, y: u16, z: u16) -> (r: i16)
    requires
        x % 256 < 16,
        z % 256 < 16,
    ensures
        r == spec_pack_position(x, y, z),
{
    let low: u16 = (z % 256) * 16 + x % 256;
    let high: u16 = y % 256;
    i16_of(high * 256 + low)
}

/// The packed places of a floor of 16 by 16 blocks, column after column.
pub open spec fn spec_floor_positions() -> Seq<i16> {
    Seq::new(256, |i: int| spec_pack_position((i / 16) as u16, 64, (i % 16) as u16))
}

/// 256 zero bytes: the floor's block ids, and its metadata.
pub open spec fn spec_floor_zeros() -> Seq<u8> {
    Seq::new(256, |i: int| 0u8)
}

/// The name given to the player shown at login.
pub open spec fn spec_player_name() -> Seq<u16> {
    utf16_of("player0"@)
}

/// What is sent back for a packet, in the order it is to be queued.
pub open spec fn spec_replies(packet: PacketView) -> Seq<PacketView> {
    match packet {
        PacketView::KeepAlive => seq![PacketView::KeepAlive],
        PacketView::Handshake { username } => seq![
            PacketView::Login { protocol_version: 14, username, random_seed: 0, dimension: 0 },
            PacketView::ChunkBlockSet {
                chunk_x: 0,
                chunk_y: 0,
                blocks_len: 256,
                blocks_position: spec_floor_positions(),
                blocks_id: spec_floor_zeros(),
                blocks_metadata: spec_floor_zeros(),
            },
            PacketView::SpawnPosition { x: 0, y: 64, z: 0 },
            PacketView::HumanSpawn {
                entity_id: 0,
                username: spec_player_name(),
                position: EntityPosition { x: 0, y: 64, z: 0 },
                yaw: 0,
                pitch: 0,
                current_item: 0,
            },
        ],
        _ => Seq::empty(),
    }
}

/// The floor shown at login: the packed places, the block ids and the
/// metadata of its 256 blocks.
pub fn floor_blocks() -> (r: (Vec<i16>, Vec<u8>, Vec<u8>))
    ensures
        r.0@ == spec_floor_positions(),
        r.1@ == spec_floor_zeros(),
        r.2@ == spec_floor_zeros(),
{
    let mut positions: Vec<i16> = Vec::new();
    let mut ids: Vec<u8> = Vec::new();
    let mut metadata: Vec<u8> = Vec::new();
    let mut x: u16 = 0;
    while x < 16
        invariant
            x <= 16,
            positions@.len() == 16 * x,
            ids@.len() == 16 * x,
            metadata@.len() == 16 * x,
            forall|i: int| 0 <= i < 16 * x ==> positions@[i] == spec_floor_positions()[i],
            forall|i: int| 0 <= i < 16 * x ==> ids@[i] == 0 && metadata@[i] == 0,
        decreases 16 - x,
    {
        let mut z: u16 = 0;
        while z < 16
            invariant
                x < 16,
                z <= 16,
                positions@.len() == 16 * x + z,
                ids@.len() == 16 * x + z,
                metadata@.len() == 16 * x + z,
                forall|i: int| 0 <= i < 16 * x + z ==> positions@[i] == spec_floor_positions()[i],
                forall|i: int| 0 <= i < 16 * x + z ==> ids@[i] == 0 && metadata@[i] == 0,
            decreases 16 - z,
        {
            positions.push(pack_position(x, FLOOR_Y, z));
            ids.push(0);
            metadata.push(0);
            z = z + 1;
        }
        x = x + 1;
    }
    assert(positions@ =~= spec_floor_positions());
    assert(ids@ =~= spec_floor_zeros());
    assert(metadata@ =~= spec_floor_zeros());
    (positions, ids, metadata)
}

/// The name given to the player shown at login.
pub fn player_name() -> (r: DiceString)
    ensures
        r.wf(),
        r@ == spec_player_name(),
        r@.len() <= 14,
{
    proof {
        reveal_strlit("player0");
        lemma_utf16_len("player0"@);
    }
    match DiceString::from_str("player0") {
        Ok(name) => name,
        // Seven characters are at most fourteen units: this arm is never taken.
        Err(_) => DiceString::from_units(Vec::new()),
    }
}

/// Answers one packet from a session's inbound queue. The replies are to be
/// put on that session's outbound queue in the order given.
pub fn replies(packet: DicePacket) -> (r: Vec<DicePacket>)
    ensures
        views(r@) == spec_replies(packet@),
        packet.wf() ==> forall|i: int| 0 <= i < r@.len() ==> (#[trigger] r@[i]).wf(),
{
    let mut out: Vec<DicePacket> = Vec::new();
    match packet {
        DicePacket::KeepAlive => {
            out.push(DicePacket::KeepAlive);
            assert(views(out@) =~= spec_replies(packet@));
        },
        DicePacket::Handshake { username } => {
            let (blocks_position, blocks_id, blocks_metadata) = floor_blocks();
            out.push(
                DicePacket::Login {
                    protocol_version: PROTOCOL_VERSION,
                    username,
                    random_seed: 0,
                    dimension: 0,
                },
            );
            out.push(
                DicePacket::ChunkBlockSet {
                    chunk_x: 0,
                    chunk_y: 0,
                    blocks_len: 256,
                    blocks_position,
                    blocks_id,
                    blocks_metadata,
                },
            );
            out.push(DicePacket::SpawnPosition { x: 0, y: 64, z: 0 });
            out.push(
                DicePacket::HumanSpawn {
                    entity_id: 0,
                    username: player_name(),
                    position: EntityPosition { x: 0, y: 64, z: 0 },
                    yaw: 0,
                    pitch: 0,
                    current_item: 0,
                },
            );
            assert(views(out@) =~= spec_replies(packet@));
        },
        _ => {
            assert(views(out@) =~= spec_replies(packet@));
        },
    }
    out
}

/// What is sent back for a run of packets: the replies to the first, then
/// those to the second, and so on.
pub open spec fn spec_replies_all(packets: Seq<PacketView>) -> Seq<PacketView>
    decreases packets.len(),
{
    if packets.len() == 0 {
        Seq::empty()
    } else {
        spec_replies_all(packets.drop_last()) + spec_replies(packets.last())
    }
}

/// Answers the packets taken from one session's inbound queue in one tick,
/// in the order they were taken: every packet is answered once, and the
/// replies to an earlier packet stand before those to a later one.
pub fn replies_all(inbound: Vec<DicePacket>) -> (r: Vec<DicePacket>)
    ensures
        views(r@) == spec_replies_all(views(inbound@)),
        (forall|i: int| 0 <= i < inbound@.len() ==> (#[trigger] inbound@[i]).wf()) ==> forall|
            i: int,
        | 0 <= i < r@.len() ==> (#[trigger] r@[i]).wf(),
{
    let ghost all = inbound@;
    let n: usize = inbound.len();
    let mut pending: Vec<DicePacket> = inbound;
    let mut reversed: Vec<DicePacket> = Vec::new();
    while pending.len() > 0
        invariant
            pending@.len() + reversed@.len() == n,
            n == all.len(),
            pending@ == all.take(pending@.len() as int),
            forall|j: int| 0 <= j < reversed@.len() ==> reversed@[j] == all[n - 1 - j],
        decreases pending@.len(),
    {
        let ghost before = pending@;
        let last = pending.pop();
        match last {
            Some(packet) => {
                reversed.push(packet);
                assert(pending@ =~= all.take(pending@.len() as int));
            },
            None => {},
        }
    }
    let mut out: Vec<DicePacket> = Vec::new();
    assert(views(all.take(0)) =~= Seq::<PacketView>::empty());
    assert(views(out@) =~= spec_replies_all(views(all.take(0))));
    while reversed.len() > 0
        invariant
            reversed@.len() <= n,
            n == all.len(),
            forall|j: int| 0 <= j < reversed@.len() ==> reversed@[j] == all[n - 1 - j],
            views(out@) == spec_replies_all(views(all.take(n - reversed@.len()))),
            (forall|i: int| 0 <= i < all.len() ==> (#[trigger] all[i]).wf()) ==> forall|i: int|
                0 <= i < out@.len() ==> (#[trigger] out@[i]).wf(),
        decreases reversed@.len(),
    {
        let ghost done = n - reversed@.len();
        let ghost sent = out@;
        let next = reversed.pop();
        match next {
            Some(packet) => {
                let mut answer: Vec<DicePacket> = replies(packet);
                let ghost answered = answer@;
                out.append(&mut answer);
                proof {
                    let upto = views(all.take(done + 1));
                    assert(packet == all[done]);
                    assert(upto.drop_last() =~= views(all.take(done)));
                    assert(upto.last() == packet@);
                    assert(views(out@) =~= views(sent) + views(answered));
                }
            },
            None => {},
        }
    }
    assert(all.take(n as int) =~= all);
    out
}

} // verus!
