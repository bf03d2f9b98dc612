//! Wire protocol of a tile-world multiplayer service: the packet schema,
//! the frame codec over a byte buffer, and the decisions of a connection's
//! session, each with a machine-checked contract.

pub mod buffer;
pub mod codec;
pub mod grammar;
pub mod laws;
pub mod minecraft_codec;
pub mod minecraft_grammar;
pub mod minecraft_laws;
pub mod minecraft_packet;
pub mod packet;
pub mod primitive;
pub mod session;
pub mod tick;
pub mod wire;
