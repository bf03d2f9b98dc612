use dice_proto::codec::{CodecError, DiceCodec};
use dice_proto::grammar::{encode_packet, parse_packet};
use dice_proto::packet::{
    BlockPosition, DicePacket, EntityLook, EntityPosition, EntityVelocity, EntityVelocity2, Look,
    Position,
};
use dice_proto::primitive::{DiceBool, DiceString};
use dice_proto::wire::Fault;
use tokio_util::bytes::BytesMut;

fn text(s: &str) -> DiceString {
    DiceString::from_str(s).unwrap()
}

fn decode(bytes: &[u8]) -> (Result<Option<DicePacket>, CodecError>, Vec<u8>) {
    let mut buffer = BytesMut::from(bytes);
    let result = DiceCodec.decode(&mut buffer);
    (result, buffer.to_vec())
}

fn encode(packet: DicePacket) -> Vec<u8> {
    let mut buffer = BytesMut::new();
    DiceCodec.encode(packet, &mut buffer).unwrap();
    buffer.to_vec()
}

fn samples() -> Vec<DicePacket> {
    let block = BlockPosition { x: -5, y: 64, z: 1_000_000 };
    let place = EntityPosition { x: 32, y: -64, z: i32::MIN };
    let position = Position {
        x: 1.5f64.to_bits(),
        y: (-2.25f64).to_bits(),
        stance: 66.62f64.to_bits(),
        z: f64::MAX.to_bits(),
    };
    let look = Look { yaw: 90.0f64.to_bits(), pitch: (-45.0f64).to_bits() };
    vec![
        DicePacket::KeepAlive,
        DicePacket::Login {
            protocol_version: 14,
            username: text("Steve"),
            random_seed: -1,
            dimension: 255,
        },
        DicePacket::Handshake { username: text("") },
        DicePacket::Chat { message: text("héllo 𝄞") },
        DicePacket::UpdateTime { time: i64::MIN },
        DicePacket::PlayerInventory { entity_id: 1, slot: -1, item_id: 276, item_damage: 3 },
        DicePacket::SpawnPosition { x: 0, y: 64, z: -1 },
        DicePacket::Interact { player_id: 1, target_id: 2, left_click: DiceBool::True },
        DicePacket::UpdateHealth { health: 20 },
        DicePacket::Respawn { dimension: -1 },
        DicePacket::Flying { on_ground: DiceBool::False },
        DicePacket::Position { position, on_ground: DiceBool::True },
        DicePacket::Look { look, on_ground: DiceBool::False },
        DicePacket::PositionLook { position, look, on_ground: DiceBool::True },
        DicePacket::BreakBlock { status: DiceBool::True, position: block, face: 5 },
        DicePacket::PlaceBlock { position: block, direction: 1 },
        DicePacket::HandSlot { slot: 8 },
        DicePacket::PlayerSleep { entity_id: 9, _unused: 0, block_position: block },
        DicePacket::EntityAnimation { entity_id: 9, animate: 1 },
        DicePacket::EntityAction { entity_id: 9, state: 2 },
        DicePacket::HumanSpawn {
            entity_id: 7,
            username: text("player0"),
            position: place,
            yaw: -128,
            pitch: 127,
            current_item: 0,
        },
        DicePacket::ItemSpawn {
            entity_id: 7,
            stack_id: 4,
            stack_size: 64,
            stack_damage: 0,
            position: place,
            velocity: EntityVelocity { x: 1, y: -1, z: 0 },
        },
        DicePacket::EntityPickup { target_entity_id: 3, entity_id: 4 },
        DicePacket::ObjectSpawn {
            entity_id: 1,
            kind: 10,
            position: place,
            has_velocity: DiceBool::True,
            velocity: Some(EntityVelocity2 { x: -300, y: 0, z: 300 }),
        },
        DicePacket::ObjectSpawn {
            entity_id: 2,
            kind: 11,
            position: place,
            has_velocity: DiceBool::False,
            velocity: None,
        },
        DicePacket::MobSpawn { entity_id: 2, kind: 50, position: place, yaw: 3, pitch: 4 },
        DicePacket::PaintingSpawn {
            entity_id: 3,
            title: text("Kebab"),
            position: place,
            direction: 2,
        },
        DicePacket::EntityVelocity {
            entity_id: 4,
            velocity: EntityVelocity2 { x: i16::MIN, y: i16::MAX, z: 0 },
        },
        DicePacket::EntityKill { entity_id: 5 },
        DicePacket::Entity { entity_id: 6 },
        DicePacket::EntityMove { entity_id: 7, velocity: EntityVelocity { x: 1, y: 2, z: 3 } },
        DicePacket::EntityLook { entity_id: 8, look: EntityLook { yaw: -1, pitch: 1 } },
        DicePacket::EntityMoveAndLook {
            entity_id: 9,
            velocity: EntityVelocity { x: -1, y: -2, z: -3 },
            look: EntityLook { yaw: 5, pitch: 6 },
        },
        DicePacket::EntityPositionAndLook {
            entity_id: 10,
            position: place,
            look: EntityLook { yaw: 7, pitch: 8 },
        },
        DicePacket::EntityStatus { entity_id: 11, status: 2 },
        DicePacket::EntityRide { entity_id: 12, vehicle_entity_id: 13 },
        DicePacket::EntityMetadata { entity_id: 14 },
        DicePacket::ChunkState { chunk_x: -1, chunk_z: 1, init: DiceBool::True },
        DicePacket::ChunkData {
            x: 16,
            y: 0,
            z: -16,
            x_size: 15,
            y_size: 127,
            z_size: 15,
            data_len: 5,
            data: vec![1, 2, 3, 254, 255],
        },
        DicePacket::ChunkBlockSet {
            chunk_x: 1,
            chunk_y: 2,
            blocks_len: 2,
            blocks_position: vec![-2, 16417],
            blocks_id: vec![1, 2],
            blocks_metadata: vec![3, 4],
        },
        DicePacket::BlockSet { position: block, block: 1, metadata: 0 },
        DicePacket::BlockAction { position: block, data0: 1, data1: 2 },
        DicePacket::Explosion {
            x: 0.5f64.to_bits(),
            y: 64.0f64.to_bits(),
            z: (-0.5f64).to_bits(),
            size: 3.0f32.to_bits(),
            blocks_len: 2,
            blocks: vec![[1, -1, 0], [-128, 127, 5]],
        },
        DicePacket::WindowClose { window_id: 1 },
        DicePacket::WindowClick {
            window_id: 1,
            slot: 36,
            right_click: DiceBool::False,
            transaction_id: 77,
            shift_click: DiceBool::True,
        },
        DicePacket::WindowTransaction { window_id: 1, transaction_id: 77, accepted: DiceBool::True },
        DicePacket::UpdateSign {
            x: 1,
            y: 2,
            z: 3,
            lines: [text("one"), text(""), text("three"), text("4")],
        },
        DicePacket::Disconnect { reason: text("bye") },
    ]
}

#[test]
fn keep_alive_decodes_from_one_zero_byte() {
    let (result, left) = decode(&[0x00]);
    assert_eq!(result, Ok(Some(DicePacket::KeepAlive)));
    assert!(left.is_empty());
}

#[test]
fn keep_alive_encodes_to_one_zero_byte() {
    assert_eq!(encode(DicePacket::KeepAlive), vec![0x00]);
}

#[test]
fn handshake_decodes_and_takes_thirteen_bytes() {
    let bytes = [0x02, 0x00, 0x05, 0x00, 0x53, 0x00, 0x74, 0x00, 0x65, 0x00, 0x76, 0x00, 0x65];
    assert_eq!(bytes.len(), 13);
    let mut buffer = BytesMut::from(&bytes[..]);
    buffer.extend_from_slice(&[0xAA, 0xBB]);
    let result = DiceCodec.decode(&mut buffer);
    match result {
        Ok(Some(DicePacket::Handshake { username })) => {
            assert_eq!(username.to_string_lossy(), "Steve");
            assert_eq!(username.units(), &vec![0x53, 0x74, 0x65, 0x76, 0x65]);
        }
        other => panic!("unexpected {:?}", other),
    }
    assert_eq!(buffer.to_vec(), vec![0xAA, 0xBB]);
    assert_eq!(parse_packet(&bytes).map(|found| found.1), Ok(13));
}

#[test]
fn handshake_encodes_to_the_same_bytes() {
    let bytes = vec![0x02, 0x00, 0x05, 0x00, 0x53, 0x00, 0x74, 0x00, 0x65, 0x00, 0x76, 0x00, 0x65];
    assert_eq!(encode(DicePacket::Handshake { username: text("Steve") }), bytes);
}

#[test]
fn unknown_tag_is_malformed_and_takes_nothing() {
    let (result, left) = decode(&[0xFE]);
    assert_eq!(result, Err(CodecError::MalformedFrame));
    assert_eq!(left, vec![0xFE]);
    let (result, left) = decode(&[0xFE, 0, 0, 0, 0, 0, 0, 0, 0]);
    assert_eq!(result, Err(CodecError::MalformedFrame));
    assert_eq!(left.len(), 9);
}

#[test]
fn empty_buffer_is_incomplete() {
    let (result, left) = decode(&[]);
    assert_eq!(result, Ok(None));
    assert!(left.is_empty());
    assert_eq!(parse_packet(&[]), Err(Fault::Incomplete));
}

#[test]
fn every_sample_round_trips() {
    let all = samples();
    assert_eq!(all.len(), 48);
    for packet in all {
        assert!(packet.is_valid());
        let bytes = encode(packet.clone());
        assert_eq!(bytes[0], packet.tag());
        let (result, left) = decode(&bytes);
        assert_eq!(result, Ok(Some(packet.clone())));
        assert!(left.is_empty());
        assert_eq!(parse_packet(&bytes), Ok((packet.clone(), bytes.len())));
        assert_eq!(encode_packet(&packet), bytes);
    }
}

#[test]
fn every_proper_prefix_is_incomplete() {
    for packet in samples() {
        let bytes = encode(packet.clone());
        let mut buffer = BytesMut::new();
        for (i, byte) in bytes.iter().enumerate() {
            assert_eq!(DiceCodec.decode(&mut buffer), Ok(None));
            assert_eq!(buffer.to_vec(), bytes[..i].to_vec());
            buffer.extend_from_slice(&[*byte]);
        }
        buffer.extend_from_slice(&[0x00, 0x02]);
        assert_eq!(DiceCodec.decode(&mut buffer), Ok(Some(packet)));
        assert_eq!(buffer.to_vec(), vec![0x00, 0x02]);
    }
}

#[test]
fn each_tag_names_one_variant_or_none() {
    let mut known: Vec<u8> = samples().iter().map(|p| p.tag()).collect();
    known.dedup();
    assert_eq!(known.len(), 47);
    let mut sorted = known.clone();
    sorted.sort();
    sorted.dedup();
    assert_eq!(sorted.len(), known.len());
    for tag in 0..=255u8 {
        let (result, left) = decode(&[tag]);
        assert_eq!(left, vec![tag].into_iter().filter(|_| tag != 0).collect::<Vec<u8>>());
        if tag == 0 {
            assert_eq!(result, Ok(Some(DicePacket::KeepAlive)));
        } else if known.contains(&tag) {
            assert_eq!(result, Ok(None));
        } else {
            assert_eq!(result, Err(CodecError::MalformedFrame));
        }
    }
}

#[test]
fn login_has_its_fields_big_endian_in_order() {
    let packet = DicePacket::Login {
        protocol_version: 14,
        username: text("ab"),
        random_seed: -2,
        dimension: 7,
    };
    let expected = vec![
        1, 0, 0, 0, 14, 0, 2, 0, 0x61, 0, 0x62, 0xFF, 0xFF, 0xFF, 0xFF, 0xFF, 0xFF, 0xFF, 0xFE, 7,
    ];
    assert_eq!(encode(packet), expected);
}

#[test]
fn chunk_block_set_has_one_count_before_three_lists() {
    let packet = DicePacket::ChunkBlockSet {
        chunk_x: 1,
        chunk_y: -1,
        blocks_len: 2,
        blocks_position: vec![0x0102, -1],
        blocks_id: vec![9, 8],
        blocks_metadata: vec![7, 6],
    };
    let expected =
        vec![52, 0, 0, 0, 1, 0xFF, 0xFF, 0xFF, 0xFF, 0, 2, 1, 2, 0xFF, 0xFF, 9, 8, 7, 6];
    assert_eq!(encode(packet), expected);
}

#[test]
fn explosion_has_doubles_a_float_and_counted_triples() {
    let packet = DicePacket::Explosion {
        x: 1.0f64.to_bits(),
        y: 0,
        z: 0,
        size: 1.0f32.to_bits(),
        blocks_len: 1,
        blocks: vec![[1, -1, 2]],
    };
    let mut expected = vec![60, 0x3F, 0xF0, 0, 0, 0, 0, 0, 0];
    expected.extend_from_slice(&[0; 16]);
    expected.extend_from_slice(&[0x3F, 0x80, 0, 0]);
    expected.extend_from_slice(&[0, 0, 0, 1, 1, 0xFF, 2]);
    assert_eq!(encode(packet), expected);
}

#[test]
fn bool_byte_other_than_zero_or_one_is_malformed() {
    assert_eq!(decode(&[10, 0]).0, Ok(Some(DicePacket::Flying { on_ground: DiceBool::False })));
    assert_eq!(decode(&[10, 1]).0, Ok(Some(DicePacket::Flying { on_ground: DiceBool::True })));
    assert_eq!(decode(&[10, 2]).0, Err(CodecError::MalformedFrame));
    assert_eq!(decode(&[10, 0xFF]).0, Err(CodecError::MalformedFrame));
    assert_eq!(decode(&[10]).0, Ok(None));
}

#[test]
fn negative_string_length_is_malformed() {
    assert_eq!(decode(&[2, 0xFF, 0xFF]).0, Err(CodecError::MalformedFrame));
    assert_eq!(decode(&[2, 0x80, 0x00, 1, 2, 3]).0, Err(CodecError::MalformedFrame));
    assert_eq!(decode(&[2, 0x7F]).0, Ok(None));
    assert_eq!(decode(&[2, 0x7F, 0xFF, 0, 1]).0, Ok(None));
}

#[test]
fn negative_count_is_malformed() {
    let mut chunk = vec![51, 0, 0, 0, 0, 0, 0, 0, 0, 0, 0, 1, 1, 1];
    chunk.extend_from_slice(&[0xFF, 0xFF, 0xFF, 0xFF]);
    assert_eq!(decode(&chunk).0, Err(CodecError::MalformedFrame));
    let blocks = vec![52, 0, 0, 0, 0, 0, 0, 0, 0, 0x80, 0x00];
    assert_eq!(decode(&blocks).0, Err(CodecError::MalformedFrame));
    let mut explosion = vec![60];
    explosion.extend_from_slice(&[0; 28]);
    explosion.extend_from_slice(&[0x80, 0, 0, 0]);
    assert_eq!(decode(&explosion).0, Err(CodecError::MalformedFrame));
}

#[test]
fn large_count_without_its_items_is_incomplete() {
    let mut explosion = vec![60];
    explosion.extend_from_slice(&[0; 28]);
    explosion.extend_from_slice(&[0x7F, 0xFF, 0xFF, 0xFF, 1, 2, 3]);
    assert_eq!(decode(&explosion).0, Ok(None));
}

#[test]
fn a_count_that_disagrees_is_refused_by_encode() {
    let packet = DicePacket::ChunkData {
        x: 0,
        y: 0,
        z: 0,
        x_size: 0,
        y_size: 0,
        z_size: 0,
        data_len: 3,
        data: vec![1, 2],
    };
    assert!(!packet.is_valid());
    let mut buffer = BytesMut::from(&[9u8, 9][..]);
    assert_eq!(DiceCodec.encode(packet, &mut buffer), Err(CodecError::InvalidPacket));
    assert_eq!(buffer.to_vec(), vec![9, 9]);
}

#[test]
fn an_object_without_velocity_is_nineteen_bytes() {
    let packet = DicePacket::ObjectSpawn {
        entity_id: 1,
        kind: 1,
        position: EntityPosition { x: 0, y: 0, z: 0 },
        has_velocity: DiceBool::False,
        velocity: None,
    };
    assert!(packet.is_valid());
    let bytes = encode(packet.clone());
    assert_eq!(bytes, vec![23, 0, 0, 0, 1, 1, 0, 0, 0, 0, 0, 0, 0, 0, 0, 0, 0, 0, 0]);
    assert_eq!(bytes.len(), 19);
    let (result, left) = decode(&bytes);
    assert_eq!(result, Ok(Some(packet.clone())));
    assert!(left.is_empty());
    let mut followed = bytes.clone();
    followed.extend_from_slice(&[0, 1, 0, 2, 0, 3]);
    let (result, left) = decode(&followed);
    assert_eq!(result, Ok(Some(packet)));
    assert_eq!(left, vec![0, 1, 0, 2, 0, 3]);
}

#[test]
fn an_object_with_velocity_is_twenty_five_bytes() {
    let packet = DicePacket::ObjectSpawn {
        entity_id: 1,
        kind: 1,
        position: EntityPosition { x: 0, y: 0, z: 0 },
        has_velocity: DiceBool::True,
        velocity: Some(EntityVelocity2 { x: 1, y: -1, z: 0x0203 }),
    };
    let bytes = encode(packet.clone());
    assert_eq!(
        bytes,
        vec![23, 0, 0, 0, 1, 1, 0, 0, 0, 0, 0, 0, 0, 0, 0, 0, 0, 0, 1, 0, 1, 0xFF, 0xFF, 2, 3]
    );
    assert_eq!(decode(&bytes[..19]).0, Ok(None));
    assert_eq!(decode(&bytes[..24]).0, Ok(None));
    assert_eq!(decode(&bytes).0, Ok(Some(packet)));
}

#[test]
fn a_velocity_that_disagrees_with_its_flag_is_refused_by_encode() {
    let position = EntityPosition { x: 0, y: 0, z: 0 };
    let flagged = DicePacket::ObjectSpawn {
        entity_id: 1,
        kind: 1,
        position,
        has_velocity: DiceBool::True,
        velocity: None,
    };
    let unflagged = DicePacket::ObjectSpawn {
        entity_id: 1,
        kind: 1,
        position,
        has_velocity: DiceBool::False,
        velocity: Some(EntityVelocity2 { x: 0, y: 0, z: 0 }),
    };
    for packet in [flagged, unflagged] {
        assert!(!packet.is_valid());
        let mut buffer = BytesMut::new();
        assert_eq!(DiceCodec.encode(packet, &mut buffer), Err(CodecError::InvalidPacket));
        assert!(buffer.is_empty());
    }
}

#[test]
fn encode_appends_behind_what_the_buffer_holds() {
    let mut buffer = BytesMut::from(&[1u8, 2, 3][..]);
    DiceCodec.encode(DicePacket::UpdateHealth { health: 0x0102 }, &mut buffer).unwrap();
    DiceCodec.encode(DicePacket::KeepAlive, &mut buffer).unwrap();
    assert_eq!(buffer.to_vec(), vec![1, 2, 3, 8, 1, 2, 0]);
}

#[test]
fn decode_takes_one_frame_at_a_time() {
    let mut buffer = BytesMut::from(&[0u8, 8, 0, 20, 16, 0xFF][..]);
    assert_eq!(DiceCodec.decode(&mut buffer), Ok(Some(DicePacket::KeepAlive)));
    assert_eq!(buffer.to_vec(), vec![8, 0, 20, 16, 0xFF]);
    assert_eq!(DiceCodec.decode(&mut buffer), Ok(Some(DicePacket::UpdateHealth { health: 20 })));
    assert_eq!(buffer.to_vec(), vec![16, 0xFF]);
    assert_eq!(DiceCodec.decode(&mut buffer), Ok(None));
    assert_eq!(buffer.to_vec(), vec![16, 0xFF]);
}
