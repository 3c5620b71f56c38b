//! The User Datagram Protocol.
use crate::structs::be16;
use crate::structs::dropbox::{DropboxBeacon, DropboxBeaconView};
use vstd::prelude::*;

verus! {

/// The header of a UDP datagram.
#[derive(Debug, Clone, Copy, PartialEq, Eq, Structural)]
pub struct UdpHeader {
    pub source_port: u16,
    pub dest_port: u16,
    pub length: u16,
    pub checksum: u16,
}

/// Length of a UDP header in bytes.
pub const UDP_HEADER_LEN: usize = 8;

impl UdpHeader {
    /// The header at the start of `data` and the bytes that follow it, if
    /// `data` is long enough to hold one. The stated length is not held
    /// against the bytes that are there.
    pub open spec fn parse(data: Seq<u8>) -> Option<(UdpHeader, Seq<u8>)> {
        if data.len() < UDP_HEADER_LEN {
            None
        } else {
            Some(
                (
                    UdpHeader {
                        source_port: be16(data, 0),
                        dest_port: be16(data, 2),
                        length: be16(data, 4),
                        checksum: be16(data, 6),
                    },
                    data.skip(UDP_HEADER_LEN as int),
                ),
            )
        }
    }
}

/// What a UDP datagram carries.
#[derive(Debug, Clone, PartialEq, Eq)]
pub enum UDP {
    Dropbox(DropboxBeacon),
    /// Text in UTF-8.
    Text(String),
    /// Bytes that are not text, as they were found.
    Binary(Vec<u8>),
}

pub enum UDPView {
    Dropbox(DropboxBeaconView),
    Text(Seq<char>),
    Binary(Seq<u8>),
}

impl View for UDP {
    type V = UDPView;

    open spec fn view(&self) -> UDPView {
        match self {
            UDP::Dropbox(beacon) => UDPView::Dropbox(beacon@),
            UDP::Text(text) => UDPView::Text(text@),
            UDP::Binary(bytes) => UDPView::Binary(bytes@),
        }
    }
}

} // verus!
