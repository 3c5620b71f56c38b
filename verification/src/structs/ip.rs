//! What the two versions of the Internet Protocol share.
use vstd::prelude::*;

verus! {

/// The protocol carried by an IP packet, as far as decoding goes on from it.
#[derive(Debug, Clone, Copy, PartialEq, Eq, Structural)]
pub enum IPProtocol {
    TCP,
    UDP,
    Other,
}

impl IPProtocol {
    /// The protocol that the IANA protocol number `raw` stands for.
    pub open spec fn of(raw: u8) -> IPProtocol {
        if raw == 6 {
            IPProtocol::TCP
        } else if raw == 17 {
            IPProtocol::UDP
        } else {
            IPProtocol::Other
        }
    }
}

} // verus!
