//! The frame codec of the protocol's first generation, and what its tick
//! loop answers.

use crate::buffer::{buffer_advance, buffer_bytes, buffer_put, buffer_slice};
use crate::codec::CodecError;
use crate::minecraft_grammar::{
    encode_packet, parse_packet, spec_decode, spec_encode, MinecraftParsed,
};
use crate::minecraft_packet::{MinecraftPacket, MinecraftString, MinecraftView};
use crate::primitive::{utf16_lossy, utf16_of};
use crate::wire::Fault;
use tokio_util::bytes::BytesMut;
use vstd::prelude::*;

verus! {

/// The codec. It holds nothing between calls.
#[derive(Clone, Copy, Debug)]
pub struct MinecraftCodec;

impl MinecraftCodec {
    /// Takes the next frame off the front of `source`.
    ///
    /// With a whole frame at the front, the packet is returned and exactly
    /// its bytes are removed. With only the beginning of a frame there,
    /// `Ok(None)` asks for more bytes; with bytes that begin no frame, the
    /// error is returned. In both of these the buffer is left as it was.
    pub fn decode(&mut self, source: &mut BytesMut) -> (r: Result<
        Option<MinecraftPacket>,
        CodecError,
    >)
        ensures
            match spec_decode(buffer_bytes(*old(source))) {
                MinecraftParsed::Frame(packet, rest) => {
                    &&& r is Ok
                    &&& r->Ok_0 is Some
                    &&& r->Ok_0->Some_0@ == packet
                    &&& r->Ok_0->Some_0.wf()
                    &&& buffer_bytes(*final(source)) == rest
                    &&& rest.len() < buffer_bytes(*old(source)).len()
                },
                MinecraftParsed::Incomplete => {
                    &&& r is Ok
                    &&& r->Ok_0 is None
                    &&& buffer_bytes(*final(source)) == buffer_bytes(*old(source))
                },
                MinecraftParsed::Malformed => {
                    &&& r == Err::<Option<MinecraftPacket>, CodecError>(CodecError::MalformedFrame)
                    &&& buffer_bytes(*final(source)) == buffer_bytes(*old(source))
                },
            },
    {
        let parsed = parse_packet(buffer_slice(source));
        match parsed {
            Ok((packet, used)) => {
                buffer_advance(source, used);
                Ok(Some(packet))
            },
            Err(Fault::Incomplete) => Ok(None),
            Err(Fault::Malformed) => Err(CodecError::MalformedFrame),
        }
    }

    /// Puts the frame of `packet` at the back of `destination`, or refuses a
    /// packet that has no frame and leaves the buffer as it was.
    pub fn encode(&mut self, packet: MinecraftPacket, destination: &mut BytesMut) -> (r: Result<
        (),
        CodecError,
    >)
        ensures
            packet.wf() ==> r is Ok && buffer_bytes(*final(destination)) == buffer_bytes(
                *old(destination),
            ) + spec_encode(packet@),
            !packet.wf() ==> r == Err::<(), CodecError>(CodecError::InvalidPacket)
                && buffer_bytes(*final(destination)) == buffer_bytes(*old(destination)),
    {
        if !packet.is_valid() {
            return Err(CodecError::InvalidPacket);
        }
        let frame: Vec<u8> = encode_packet(&packet);
        buffer_put(destination, frame.as_slice());
        Ok(())
    }
}

/// The line of chat that announces a player.
pub open spec fn spec_join_message(name: Seq<char>) -> Seq<char> {
    name + " has joined the game."@
}

/// `format!` of two texts with nothing between them: the first, then the
/// second.
#[verifier::external_body]
fn join_texts(first: &str, second: &str) -> (r: String)
    ensures
        r@ == first@ + second@,
{
    format!("{first}{second}")
}

/// The line of chat that announces a player of the given name.
pub fn join_message(name: &str) -> (r: String)
    ensures
        r@ == spec_join_message(name@),
{
    join_texts(name, " has joined the game.")
}

/// What is sent back for a handshake from a player of the given name, as
/// the units of that name read: the login, and the announcement where it
/// fits in a string.
pub open spec fn spec_handshake_replies(username: Seq<u16>) -> Seq<MinecraftView> {
    let message = utf16_of(spec_join_message(utf16_lossy(username)));
    let login = MinecraftView::Login { version: 14, username, seed: 0, dimension: 0 };
    if message.len() <= 32767 {
        seq![login, MinecraftView::Chat { message }]
    } else {
        seq![login]
    }
}

/// What is sent back for a packet, in the order it is to be queued: a
/// handshake is answered, nothing else is.
pub open spec fn spec_replies(packet: MinecraftView) -> Seq<MinecraftView> {
    match packet {
        MinecraftView::Handshake { username } => spec_handshake_replies(username),
        _ => Seq::empty(),
    }
}

/// What a queue of packets stands for.
pub open spec fn views(packets: Seq<MinecraftPacket>) -> Seq<MinecraftView> {
    Seq::new(packets.len(), |i: int| packets[i]@)
}

/// Answers one packet from a session's inbound queue. The replies are to be
/// put on that session's outbound queue in the order given.
pub fn replies(packet: MinecraftPacket) -> (r: Vec<MinecraftPacket>)
    ensures
        views(r@) == spec_replies(packet@),
        packet.wf() ==> forall|i: int| 0 <= i < r@.len() ==> (#[trigger] r@[i]).wf(),
{
    let mut out: Vec<MinecraftPacket> = Vec::new();
    match packet {
        MinecraftPacket::Handshake { username } => {
            let name: String = username.to_string_lossy();
            let text: String = join_message(name.as_str());
            let announced = MinecraftString::from_str(text.as_str());
            out.push(MinecraftPacket::Login { version: 14, username, seed: 0, dimension: 0 });
            match announced {
                Ok(message) => {
                    out.push(MinecraftPacket::Chat { message });
                },
                Err(_) => {},
            }
            assert(views(out@) =~= spec_replies(packet@));
        },
        _ => {
            assert(views(out@) =~= spec_replies(packet@));
        },
    }
    out
}

} // verus!
