use dice_proto::codec::{CodecError, DiceCodec};
use dice_proto::packet::{DicePacket, EntityPosition};
use dice_proto::primitive::DiceString;
use dice_proto::session::{
    pump_inbound, reader_step, receive, ReaderStep, Session, SessionState,
};
use dice_proto::tick::{floor_blocks, pack_position, player_name, replies, replies_all};
use tokio_util::bytes::BytesMut;

fn frame(packet: DicePacket) -> Vec<u8> {
    let mut buffer = BytesMut::new();
    DiceCodec.encode(packet, &mut buffer).unwrap();
    buffer.to_vec()
}

#[test]
fn three_packets_arrive_in_the_order_sent() {
    let a = DicePacket::Handshake { username: DiceString::from_str("A").unwrap() };
    let b = DicePacket::KeepAlive;
    let c = DicePacket::Chat { message: DiceString::from_str("C").unwrap() };
    let mut buffer = BytesMut::new();
    for packet in [a.clone(), b.clone(), c.clone()] {
        buffer.extend_from_slice(&frame(packet));
    }
    let mut inbound = vec![DicePacket::UpdateHealth { health: 1 }];
    assert_eq!(pump_inbound(&mut DiceCodec, &mut buffer, &mut inbound), Ok(()));
    assert_eq!(inbound, vec![DicePacket::UpdateHealth { health: 1 }, a, b, c]);
    assert!(buffer.is_empty());
}

#[test]
fn pump_keeps_the_beginning_of_the_next_frame() {
    let mut buffer = BytesMut::from(&[0u8, 0, 3, 0, 9][..]);
    let mut inbound = Vec::new();
    assert_eq!(pump_inbound(&mut DiceCodec, &mut buffer, &mut inbound), Ok(()));
    assert_eq!(inbound, vec![DicePacket::KeepAlive, DicePacket::KeepAlive]);
    assert_eq!(buffer.to_vec(), vec![3, 0, 9]);
}

#[test]
fn pump_stops_at_a_malformed_frame() {
    let mut buffer = BytesMut::from(&[0u8, 0xFE, 0, 0][..]);
    let mut inbound = Vec::new();
    assert_eq!(
        pump_inbound(&mut DiceCodec, &mut buffer, &mut inbound),
        Err(CodecError::MalformedFrame)
    );
    assert_eq!(inbound, vec![DicePacket::KeepAlive]);
    assert_eq!(buffer.to_vec(), vec![0xFE, 0, 0]);
}

#[test]
fn malformed_tag_closes_the_reader() {
    let mut buffer = BytesMut::from(&[0xFEu8][..]);
    let step = reader_step(DiceCodec.decode(&mut buffer));
    assert_eq!(step, ReaderStep::Close);
    let mut session = Session::new();
    assert_eq!(session.reader_exited(), SessionState::HalfClosed);
    assert_eq!(session.writer_exited(), SessionState::Closed);
}

#[test]
fn reader_step_follows_the_decoder() {
    assert_eq!(reader_step(Ok(None)), ReaderStep::ReadMore);
    assert_eq!(
        reader_step(Ok(Some(DicePacket::KeepAlive))),
        ReaderStep::Deliver(DicePacket::KeepAlive)
    );
    assert_eq!(reader_step(Err(CodecError::MalformedFrame)), ReaderStep::Close);
}

#[test]
fn session_closes_in_two_steps_either_way() {
    let mut session = Session::new();
    assert_eq!(session.state(), SessionState::Open);
    assert!(session.accepts_outbound());
    assert_eq!(session.writer_exited(), SessionState::HalfClosed);
    assert_eq!(session.writer_exited(), SessionState::HalfClosed);
    assert!(session.accepts_outbound());
    assert_eq!(session.reader_exited(), SessionState::Closed);
    assert_eq!(session.state(), SessionState::Closed);
    assert!(!session.accepts_outbound());
}

#[test]
fn pack_position_puts_x_low_z_next_and_y_high() {
    assert_eq!(pack_position(1, 64, 2), 16417);
    assert_eq!(pack_position(0, 64, 0), 0x4000);
    assert_eq!(pack_position(15, 255, 15), -1);
    assert_eq!(pack_position(0, 128, 0), i16::MIN);
    assert_eq!(pack_position(256 + 3, 256 + 1, 512 + 4), 0x0143);
}

#[test]
fn floor_is_sixteen_columns_of_sixteen() {
    let (positions, ids, metadata) = floor_blocks();
    assert_eq!(positions.len(), 256);
    assert_eq!(ids, vec![0u8; 256]);
    assert_eq!(metadata, vec![0u8; 256]);
    assert_eq!(positions[0], 0x4000);
    assert_eq!(positions[1], 0x4010);
    assert_eq!(positions[16], 0x4001);
    assert_eq!(positions[255], 0x40FF);
}

#[test]
fn keep_alive_is_echoed() {
    assert_eq!(replies(DicePacket::KeepAlive), vec![DicePacket::KeepAlive]);
}

#[test]
fn handshake_is_answered_with_login_and_the_world() {
    let username = DiceString::from_str("Steve").unwrap();
    let (blocks_position, blocks_id, blocks_metadata) = floor_blocks();
    let expected = vec![
        DicePacket::Login {
            protocol_version: 14,
            username: username.clone(),
            random_seed: 0,
            dimension: 0,
        },
        DicePacket::ChunkBlockSet {
            chunk_x: 0,
            chunk_y: 0,
            blocks_len: 256,
            blocks_position,
            blocks_id,
            blocks_metadata,
        },
        DicePacket::SpawnPosition { x: 0, y: 64, z: 0 },
        DicePacket::HumanSpawn {
            entity_id: 0,
            username: DiceString::from_str("player0").unwrap(),
            position: EntityPosition { x: 0, y: 64, z: 0 },
            yaw: 0,
            pitch: 0,
            current_item: 0,
        },
    ];
    let answer = replies(DicePacket::Handshake { username });
    assert_eq!(answer, expected);
    for packet in answer {
        assert!(packet.is_valid());
    }
    assert_eq!(player_name().to_string_lossy(), "player0");
}

#[test]
fn other_packets_are_not_answered() {
    assert!(replies(DicePacket::UpdateHealth { health: 3 }).is_empty());
    assert!(replies(DicePacket::Disconnect { reason: DiceString::from_str("x").unwrap() })
        .is_empty());
}

#[test]
fn shut_down_closes_at_once() {
    let mut session = Session::new();
    assert_eq!(session.shut_down(), SessionState::Closed);
    assert_eq!(session.state(), SessionState::Closed);
    assert!(!session.accepts_outbound());
}

#[test]
fn idle_expires_at_the_limit() {
    assert!(!Session::idle_expired(1000, 1499, 500));
    assert!(Session::idle_expired(1000, 1500, 500));
    assert!(Session::idle_expired(0, u64::MAX, u64::MAX));
    assert!(!Session::idle_expired(2000, 1000, 0));
    assert!(Session::idle_expired(7, 7, 0));
}

#[test]
fn three_packets_arrive_in_order_however_the_bytes_are_split() {
    let a = DicePacket::Handshake { username: DiceString::from_str("A").unwrap() };
    let b = DicePacket::UpdateHealth { health: 7 };
    let c = DicePacket::Chat { message: DiceString::from_str("C").unwrap() };
    let mut stream = Vec::new();
    for packet in [a.clone(), b.clone(), c.clone()] {
        stream.extend_from_slice(&frame(packet));
    }
    for first in 0..=stream.len() {
        for second in first..=stream.len() {
            let mut buffer = BytesMut::new();
            let mut inbound = Vec::new();
            for chunk in [&stream[..first], &stream[first..second], &stream[second..]] {
                assert_eq!(receive(&mut DiceCodec, &mut buffer, chunk, &mut inbound), Ok(()));
            }
            assert_eq!(inbound, vec![a.clone(), b.clone(), c.clone()]);
            assert!(buffer.is_empty());
        }
    }
}

#[test]
fn bytes_fed_one_at_a_time_arrive_in_order() {
    let a = DicePacket::KeepAlive;
    let b = DicePacket::SpawnPosition { x: 1, y: 2, z: 3 };
    let mut stream = frame(a.clone());
    stream.extend_from_slice(&frame(b.clone()));
    let mut buffer = BytesMut::new();
    let mut inbound = Vec::new();
    for byte in stream {
        assert_eq!(receive(&mut DiceCodec, &mut buffer, &[byte], &mut inbound), Ok(()));
    }
    assert_eq!(inbound, vec![a, b]);
}

#[test]
fn receive_stops_when_the_new_bytes_are_malformed() {
    let mut buffer = BytesMut::from(&[10u8][..]);
    let mut inbound = Vec::new();
    assert_eq!(
        receive(&mut DiceCodec, &mut buffer, &[7, 0], &mut inbound),
        Err(CodecError::MalformedFrame)
    );
    assert!(inbound.is_empty());
    assert_eq!(buffer.to_vec(), vec![10, 7, 0]);
}

#[test]
fn a_run_of_packets_is_answered_in_order() {
    let steve = DiceString::from_str("Steve").unwrap();
    let inbound = vec![
        DicePacket::KeepAlive,
        DicePacket::Handshake { username: steve.clone() },
        DicePacket::UpdateHealth { health: 1 },
        DicePacket::KeepAlive,
    ];
    let answer = replies_all(inbound);
    let mut expected = vec![DicePacket::KeepAlive];
    expected.extend(replies(DicePacket::Handshake { username: steve.clone() }));
    expected.push(DicePacket::KeepAlive);
    assert_eq!(answer.len(), 6);
    assert_eq!(answer, expected);
    assert_eq!(
        answer[1],
        DicePacket::Login { protocol_version: 14, username: steve, random_seed: 0, dimension: 0 }
    );
    assert!(replies_all(Vec::new()).is_empty());
}
