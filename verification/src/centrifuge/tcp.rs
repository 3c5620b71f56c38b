//! What a TCP segment carries.
use crate::centrifuge::{dropbox, http, tls};
use crate::structs::tcp::{TCPView, TCP};
use crate::text::{text_of, utf8_text};
use vstd::prelude::*;
use vstd::slice::slice_to_vec;

verus! {

/// What the payload `data` of a TCP segment is taken for.
///
/// The sniffers are asked in a fixed order, and the first that accepts the
/// payload decides: HTTP, then TLS, then the beacon. A payload that none of
/// them accepts is text where it is UTF-8, and bytes otherwise.
pub open spec fn payload(data: Seq<u8>) -> TCPView {
    if data.len() == 0 {
        TCPView::Empty
    } else if let Ok(request) = http::extracted(data) {
        TCPView::HTTP(request)
    } else if let Ok(hello) = tls::extracted(data) {
        TCPView::TLS(hello)
    } else if let Ok(beacon) = dropbox::extracted(data) {
        TCPView::Dropbox(beacon)
    } else if let Some(text) = text_of(data) {
        TCPView::Text(text)
    } else {
        TCPView::Binary(data)
    }
}

/// Decodes the payload of a TCP segment.
pub fn extract(remaining: &[u8]) -> (r: TCP)
    ensures
        r@ == payload(remaining@),
{
    if remaining.len() == 0 {
        return TCP::Empty;
    }
    if let Ok(request) = http::extract(remaining) {
        return TCP::HTTP(request);
    }
    if let Ok(hello) = tls::extract(remaining) {
        return TCP::TLS(hello);
    }
    if let Ok(beacon) = dropbox::extract(remaining) {
        return TCP::Dropbox(beacon);
    }
    match utf8_text(remaining) {
        Some(text) => TCP::Text(text),
        None => TCP::Binary(slice_to_vec(remaining)),
    }
}

} // verus!
