//! The Transmission Control Protocol.
use crate::structs::dropbox::{DropboxBeacon, DropboxBeaconView};
use crate::structs::http::{Request, RequestView};
use crate::structs::tls::{ClientHello, ClientHelloView};
use crate::structs::{be16, be32};
use vstd::prelude::*;

verus! {

/// The fixed part of a TCP header.
#[derive(Debug, Clone, Copy, PartialEq, Eq, Structural)]
pub struct TcpHeader {
    pub source_port: u16,
    pub dest_port: u16,
    pub sequence_no: u32,
    pub ack_no: u32,
    /// Header length in 32-bit words, as the segment states it.
    pub data_offset: u8,
    pub reserved: u8,
    pub flag_urg: bool,
    pub flag_ack: bool,
    pub flag_psh: bool,
    pub flag_rst: bool,
    pub flag_syn: bool,
    pub flag_fin: bool,
    pub window: u16,
    pub checksum: u16,
    pub urgent_pointer: u16,
}

/// Length in bytes of the fixed part of a TCP header.
pub const TCP_HEADER_LEN: usize = 20;

impl TcpHeader {
    /// The header at the start of `data`, which must hold its fixed part.
    pub open spec fn fixed(data: Seq<u8>) -> TcpHeader {
        TcpHeader {
            source_port: be16(data, 0),
            dest_port: be16(data, 2),
            sequence_no: be32(data, 4),
            ack_no: be32(data, 8),
            data_offset: data[12] / 16,
            reserved: ((data[12] % 16) * 4 + data[13] / 64) as u8,
            flag_urg: (data[13] / 32) % 2 == 1,
            flag_ack: (data[13] / 16) % 2 == 1,
            flag_psh: (data[13] / 8) % 2 == 1,
            flag_rst: (data[13] / 4) % 2 == 1,
            flag_syn: (data[13] / 2) % 2 == 1,
            flag_fin: data[13] % 2 == 1,
            window: be16(data, 14),
            checksum: be16(data, 16),
            urgent_pointer: be16(data, 18),
        }
    }

    /// Number of option bytes that a header with this data offset has
    /// behind its fixed part.
    pub open spec fn options_len(data_offset: u8) -> int {
        if data_offset > 5 {
            (data_offset - 5) * 4
        } else {
            0
        }
    }

    /// The header at the start of `data` and the payload, if `data` holds
    /// the fixed part and the options that the data offset announces. The
    /// options are stepped over, not decoded.
    pub open spec fn parse(data: Seq<u8>) -> Option<(TcpHeader, Seq<u8>)> {
        if data.len() < TCP_HEADER_LEN {
            None
        } else {
            let header = TcpHeader::fixed(data);
            let payload_at = TCP_HEADER_LEN + TcpHeader::options_len(header.data_offset);
            if data.len() < payload_at {
                None
            } else {
                Some((header, data.skip(payload_at)))
            }
        }
    }
}

/// What a TCP segment carries.
#[derive(Debug, Clone, PartialEq, Eq)]
pub enum TCP {
    HTTP(Request),
    TLS(ClientHello),
    Dropbox(DropboxBeacon),
    /// Text in UTF-8.
    Text(String),
    /// Bytes that are not text, as they were found.
    Binary(Vec<u8>),
    /// No payload at all.
    Empty,
}

pub enum TCPView {
    HTTP(RequestView),
    TLS(ClientHelloView),
    Dropbox(DropboxBeaconView),
    Text(Seq<char>),
    Binary(Seq<u8>),
    Empty,
}

impl View for TCP {
    type V = TCPView;

    open spec fn view(&self) -> TCPView {
        match self {
            TCP::HTTP(request) => TCPView::HTTP(request@),
            TCP::TLS(hello) => TCPView::TLS(hello@),
            TCP::Dropbox(beacon) => TCPView::Dropbox(beacon@),
            TCP::Text(text) => TCPView::Text(text@),
            TCP::Binary(bytes) => TCPView::Binary(bytes@),
            TCP::Empty => TCPView::Empty,
        }
    }
}

} // verus!
