//! A decoded frame, from the link layer down.
use crate::structs::ether::{Ether, EtherView, EthernetFrame};
use vstd::prelude::*;

verus! {

/// A frame as far as it was decoded.
#[derive(Debug, Clone, PartialEq, Eq)]
pub enum Raw {
    /// An Ethernet frame: its header and what it carries.
    Ether(EthernetFrame, Ether),
    /// A frame with no link-layer header: what the IP packet in it carries.
    Tun(Ether),
    /// A frame in Linux cooked capture: what stands behind its header.
    Sll(Ether),
    /// A frame that could not be decoded at the link layer, as it was found.
    Unknown(Vec<u8>),
}

pub enum RawView {
    Ether(EthernetFrame, EtherView),
    Tun(EtherView),
    Sll(EtherView),
    Unknown(Seq<u8>),
}

impl View for Raw {
    type V = RawView;

    open spec fn view(&self) -> RawView {
        match self {
            Raw::Ether(frame, inner) => RawView::Ether(*frame, inner@),
            Raw::Tun(inner) => RawView::Tun(inner@),
            Raw::Sll(inner) => RawView::Sll(inner@),
            Raw::Unknown(bytes) => RawView::Unknown(bytes@),
        }
    }
}

} // verus!
