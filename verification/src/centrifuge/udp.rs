//! What a UDP datagram carries.
use crate::centrifuge::dropbox;
use crate::structs::udp::{UDPView, UDP};
use crate::text::{text_of, utf8_text};
use vstd::prelude::*;
use vstd::slice::slice_to_vec;

verus! {

/// What the payload `data` of a UDP datagram is taken for: a beacon where
/// the beacon sniffer accepts it, else text where it is UTF-8, and bytes
/// otherwise.
pub open spec fn payload(data: Seq<u8>) -> UDPView {
    if let Ok(beacon) = dropbox::extracted(data) {
        UDPView::Dropbox(beacon)
    } else if let Some(text) = text_of(data) {
        UDPView::Text(text)
    } else {
        UDPView::Binary(data)
    }
}

/// Decodes the payload of a UDP datagram.
pub fn extract(remaining: &[u8]) -> (r: UDP)
    ensures
        r@ == payload(remaining@),
{
    if let Ok(beacon) = dropbox::extract(remaining) {
        return UDP::Dropbox(beacon);
    }
    match utf8_text(remaining) {
        Some(text) => UDP::Text(text),
        None => UDP::Binary(slice_to_vec(remaining)),
    }
}

} // verus!
