//! The sniffer for HTTP requests.
use crate::http_syntax::{parse_request, request};
use crate::structs::http::{request_of, Request, RequestView};
use crate::structs::{result_view, CentrifugeError};
use vstd::prelude::*;

verus! {

/// What `extract` makes of `data`.
///
/// Bytes that do not start with the head of a request are not HTTP. A head
/// whose method, target or version is not text is a request that cannot be
/// read.
pub open spec fn extracted(data: Seq<u8>) -> Result<RequestView, CentrifugeError> {
    match request(data) {
        None => Err(CentrifugeError::WrongProtocol),
        Some((head, _)) => match request_of(head) {
            Some(found) => Ok(found),
            None => Err(CentrifugeError::ParsingError),
        },
    }
}

/// Reads the HTTP request at the start of `remaining`.
pub fn extract(remaining: &[u8]) -> (r: Result<Request, CentrifugeError>)
    ensures
        result_view(r) == extracted(remaining@),
{
    match parse_request(remaining) {
        Some((head, _)) => match Request::from_head(&head) {
            Some(found) => Ok(found),
            None => Err(CentrifugeError::ParsingError),
        },
        None => Err(CentrifugeError::WrongProtocol),
    }
}

} // verus!
