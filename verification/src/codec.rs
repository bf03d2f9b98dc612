//! The frame codec over a connection's byte buffer: `decode` takes one frame
//! off the front when a whole one is there, `encode` puts one at the back.

use crate::buffer::{buffer_advance, buffer_bytes, buffer_put, buffer_slice};
use crate::grammar::{encode_packet, parse_packet, spec_decode, spec_encode, Parsed};
use crate::packet::DicePacket;
use crate::wire::Fault;
use tokio_util::bytes::BytesMut;
use vstd::prelude::*;

verus! {

/// Why the codec refused.
#[derive(Clone, Copy, Debug, PartialEq, Eq, Structural)]
pub enum CodecError {
    /// The bytes received cannot begin a frame. The stream is lost: what
    /// follows cannot be framed either.
    MalformedFrame,
    /// The packet to send cannot be framed: a string too long, or a count
    /// that is not the length of what it counts.
    InvalidPacket,
}

/// The codec. It holds nothing between calls.
#[derive(Clone, Copy, Debug)]
pub struct DiceCodec;

impl DiceCodec {
    /// Takes the next frame off the front of `source`.
    ///
    /// With a whole frame at the front, the packet is returned and exactly
    /// its bytes are removed. With only the beginning of a frame there,
    /// `Ok(None)` asks for more bytes; with bytes that begin no frame, the
    /// error is returned. In both of these the buffer is left as it was.
    pub fn decode(&mut self, source: &mut BytesMut) -> (r: Result<Option<DicePacket>, CodecError>)
        ensures
            match spec_decode(buffer_bytes(*old(source))) {
                Parsed::Frame(packet, rest) => {
                    &&& r is Ok
                    &&& r->Ok_0 is Some
                    &&& r->Ok_0->Some_0@ == packet
                    &&& r->Ok_0->Some_0.wf()
                    &&& buffer_bytes(*final(source)) == rest
                    &&& rest.len() < buffer_bytes(*old(source)).len()
                },
                Parsed::Incomplete => {
                    &&& r is Ok
                    &&& r->Ok_0 is None
                    &&& buffer_bytes(*final(source)) == buffer_bytes(*old(source))
                },
                Parsed::Malformed => {
                    &&& r == Err::<Option<DicePacket>, CodecError>(CodecError::MalformedFrame)
                    &&& buffer_bytes(*final(source)) == buffer_bytes(*old(source))
                },
            },
    {
        let parsed = parse_packet(buffer_slice(source));
        match parsed {
            Ok((packet, used)) => {
                buffer_advance(source, used);
                Ok(Some(packet))
            },
            Err(Fault::Incomplete) => Ok(None),
            Err(Fault::Malformed) => Err(CodecError::MalformedFrame),
        }
    }

    /// Puts the frame of `packet` at the back of `destination`, or refuses a
    /// packet that has no frame and leaves the buffer as it was.
    pub fn encode(&mut self, packet: DicePacket, destination: &mut BytesMut) -> (r: Result<
        (),
        CodecError,
    >)
        ensures
            packet.wf() ==> r is Ok && buffer_bytes(*final(destination)) == buffer_bytes(
                *old(destination),
            ) + spec_encode(packet@),
            !packet.wf() ==> r == Err::<(), CodecError>(CodecError::InvalidPacket)
                && buffer_bytes(*final(destination)) == buffer_bytes(*old(destination)),
    {
        if !packet.is_valid() {
            return Err(CodecError::InvalidPacket);
        }
        let frame: Vec<u8> = encode_packet(&packet);
        buffer_put(destination, frame.as_slice());
        Ok(())
    }
}

} // verus!
