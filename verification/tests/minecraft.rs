use dice_proto::codec::CodecError;
use dice_proto::minecraft_codec::{join_message, replies, MinecraftCodec};
use dice_proto::minecraft_grammar::{encode_packet, parse_packet};
use dice_proto::minecraft_packet::{MinecraftBool, MinecraftPacket, MinecraftString};
use dice_proto::wire::Fault;
use tokio_util::bytes::BytesMut;

fn text(s: &str) -> MinecraftString {
    MinecraftString::from_str(s).unwrap()
}

fn first_generation_samples() -> Vec<MinecraftPacket> {
    vec![
        MinecraftPacket::KeepAlive,
        MinecraftPacket::Login {
            version: 14,
            username: text("Steve"),
            seed: u32::MAX,
            dimension: 0,
        },
        MinecraftPacket::Handshake { username: text("Steve") },
        MinecraftPacket::Chat { message: text("hello") },
        MinecraftPacket::Interact {
            player_id: 1,
            target_id: 0x8000_0000,
            left_click: MinecraftBool::True,
        },
        MinecraftPacket::Respawn { dimension: 255 },
        MinecraftPacket::Flying { on_ground: MinecraftBool::False },
        MinecraftPacket::Position {
            x: 1.5f64.to_bits(),
            y: 64.0f64.to_bits(),
            stance: 65.62f64.to_bits(),
            z: (-1.5f64).to_bits(),
            on_ground: MinecraftBool::True,
        },
        MinecraftPacket::Look {
            yaw: 90.0f32.to_bits(),
            pitch: (-45.0f32).to_bits(),
            on_ground: MinecraftBool::True,
        },
        MinecraftPacket::PositionLook {
            x: 0,
            y: u64::MAX,
            stance: 1,
            z: 2,
            yaw: 3,
            pitch: u32::MAX,
            on_ground: MinecraftBool::False,
        },
        MinecraftPacket::BreakBlock {
            status: MinecraftBool::True,
            x: -1,
            y: 200,
            z: 1,
            face: 3,
        },
        MinecraftPacket::PlaceBlock { x: i32::MIN, y: 0, z: i32::MAX, direction: 5 },
        MinecraftPacket::HandSlot { slot: -1 },
        MinecraftPacket::Animation { entity_id: 5, animate: MinecraftBool::True },
        MinecraftPacket::Action { entity_id: 5, state: MinecraftBool::False },
        MinecraftPacket::WindowClose { window_id: 2 },
        MinecraftPacket::WindowClick {
            window_id: 2,
            slot: 5,
            right_click: MinecraftBool::True,
            transaction_id: -9,
            shift_click: MinecraftBool::False,
        },
        MinecraftPacket::WindowTransaction {
            window_id: 2,
            transaction_id: 9,
            accepted: MinecraftBool::False,
        },
        MinecraftPacket::UpdateSign {
            x: 1,
            y: -2,
            z: 3,
            lines: [text("a"), text("bb"), text(""), text("dddd")],
        },
        MinecraftPacket::Disconnect { reason: text("bye") },
    ]
}

#[test]
fn first_generation_samples_round_trip() {
    let all = first_generation_samples();
    assert_eq!(all.len(), 20);
    for packet in all {
        assert!(packet.is_valid());
        let mut buffer = BytesMut::new();
        MinecraftCodec.encode(packet.clone(), &mut buffer).unwrap();
        let bytes = buffer.to_vec();
        assert_eq!(bytes[0], packet.tag());
        assert_eq!(encode_packet(&packet), bytes);
        assert_eq!(parse_packet(&bytes), Ok((packet.clone(), bytes.len())));
        buffer.extend_from_slice(&[0xAB]);
        assert_eq!(MinecraftCodec.decode(&mut buffer), Ok(Some(packet)));
        assert_eq!(buffer.to_vec(), vec![0xAB]);
    }
}

#[test]
fn first_generation_prefixes_are_incomplete() {
    for packet in first_generation_samples() {
        let bytes = encode_packet(&packet);
        for cut in 0..bytes.len() {
            let mut buffer = BytesMut::from(&bytes[..cut]);
            assert_eq!(MinecraftCodec.decode(&mut buffer), Ok(None));
            assert_eq!(buffer.to_vec(), bytes[..cut].to_vec());
            assert_eq!(parse_packet(&bytes[..cut]), Err(Fault::Incomplete));
        }
    }
}

#[test]
fn first_generation_login_is_unsigned_and_big_endian() {
    let packet = MinecraftPacket::Login {
        version: 14,
        username: text("a"),
        seed: 0xFFFF_FFFE,
        dimension: 1,
    };
    assert_eq!(
        encode_packet(&packet),
        vec![1, 0, 0, 0, 14, 0, 1, 0, 0x61, 0xFF, 0xFF, 0xFF, 0xFE, 1]
    );
}

#[test]
fn first_generation_knows_fewer_tags() {
    for tag in [4u8, 5, 6, 8, 17, 20, 50, 51, 60, 0xFE] {
        let mut buffer = BytesMut::from(&[tag, 0, 0, 0][..]);
        assert_eq!(MinecraftCodec.decode(&mut buffer), Err(CodecError::MalformedFrame));
        assert_eq!(buffer.len(), 4);
    }
    let mut buffer = BytesMut::from(&[18u8, 0, 0, 0, 1, 2][..]);
    assert_eq!(MinecraftCodec.decode(&mut buffer), Err(CodecError::MalformedFrame));
}

#[test]
fn first_generation_handshake_is_answered_with_login_and_a_greeting() {
    let answer = replies(MinecraftPacket::Handshake { username: text("Steve") });
    assert_eq!(
        answer,
        vec![
            MinecraftPacket::Login { version: 14, username: text("Steve"), seed: 0, dimension: 0 },
            MinecraftPacket::Chat { message: text("Steve has joined the game.") },
        ]
    );
    assert!(replies(MinecraftPacket::KeepAlive).is_empty());
}

#[test]
fn first_generation_greeting_is_left_out_when_it_cannot_be_framed() {
    let name = "a".repeat(32767);
    let answer = replies(MinecraftPacket::Handshake { username: text(&name) });
    assert_eq!(
        answer,
        vec![MinecraftPacket::Login { version: 14, username: text(&name), seed: 0, dimension: 0 }]
    );
    let name = "a".repeat(32767 - 21);
    assert_eq!(replies(MinecraftPacket::Handshake { username: text(&name) }).len(), 2);
}

#[test]
fn first_generation_refuses_a_string_made_too_long() {
    let long = MinecraftString::from_str(&"x".repeat(40000));
    assert!(long.is_err());
}

#[test]
fn first_generation_greeting_is_the_name_then_the_ending() {
    assert_eq!(join_message("Steve"), "Steve has joined the game.");
    assert_eq!(join_message(""), " has joined the game.");
}
