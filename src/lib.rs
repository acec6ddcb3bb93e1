//! Variable-length integer codec: unsigned integers below 2^62 encoded in
//! one, two, four or eight octets, with the length carried by the two top
//! bits of the first octet.

pub mod buffers;
pub mod codec;
pub mod laws;
pub mod varint;
pub mod wire;

pub use codec::{read, WriteError};
pub use varint::{VarInt, VarIntBoundsExceeded};
pub use wire::size;
