//! The packet records that decoding produces, one module per layer.
//!
//! Headers are plain values. Every record that owns bytes or text has a
//! view, a mathematical value that the contracts of the decoders speak of.
use vstd::prelude::*;

pub mod arp;
pub mod dropbox;
pub mod ether;
pub mod http;
pub mod ip;
pub mod ipv4;
pub mod ipv6;
pub mod raw;
pub mod tcp;
pub mod tls;
pub mod udp;

verus! {

/// Why a decoder did not produce a record.
#[derive(Debug, Clone, Copy, PartialEq, Eq, Structural)]
pub enum CentrifugeError {
    /// The input does not have the shape of this protocol at all.
    WrongProtocol,
    /// The input has the shape of this protocol, but a piece of it is malformed.
    ParsingError,
    /// The input is not in the encoding that this protocol is written in.
    InvalidPacket,
}

/// What `r` holds, by its view.
pub open spec fn result_view<T: View>(r: Result<T, CentrifugeError>) -> Result<
    T::V,
    CentrifugeError,
> {
    match r {
        Ok(value) => Ok(value@),
        Err(error) => Err(error),
    }
}

/// Big-endian number held in the two bytes of `data` from `at` on.
pub open spec fn be16(data: Seq<u8>, at: int) -> u16 {
    (data[at] as int * 256 + data[at + 1] as int) as u16
}

/// Big-endian number held in the four bytes of `data` from `at` on.
pub open spec fn be32(data: Seq<u8>, at: int) -> u32 {
    (data[at] as int * 0x100_0000 + data[at + 1] as int * 0x1_0000 + data[at + 2] as int * 0x100
        + data[at + 3] as int) as u32
}

} // verus!
