//! The link types of a capture that frames can be decoded under.
use vstd::prelude::*;

verus! {

/// How the outermost header of a frame is laid out.
#[derive(Debug, Clone, Copy, PartialEq, Eq, Structural)]
pub enum DataLink {
    /// Ethernet II frames.
    Ethernet,
    /// IP packets with no link-layer header before them.
    Tun,
    /// Frames in Linux cooked capture.
    Sll,
}

/// The link type that a capture reports for Ethernet.
pub const LINKTYPE_ETHERNET: i32 = 1;

/// The link type that a capture reports for raw IP.
pub const LINKTYPE_RAW: i32 = 12;

/// The link type that a capture reports for Linux cooked capture.
pub const LINKTYPE_LINUX_SLL: i32 = 113;

/// A link type that frames cannot be decoded under, by its code.
#[derive(Debug, Clone, Copy, PartialEq, Eq, Structural)]
pub struct UnsupportedLinkType(pub i32);

impl DataLink {
    /// The layout that goes with the link type `code`, where there is one.
    pub open spec fn of(code: i32) -> Result<DataLink, UnsupportedLinkType> {
        if code == LINKTYPE_ETHERNET {
            Ok(DataLink::Ethernet)
        } else if code == LINKTYPE_RAW {
            Ok(DataLink::Tun)
        } else if code == LINKTYPE_LINUX_SLL {
            Ok(DataLink::Sll)
        } else {
            Err(UnsupportedLinkType(code))
        }
    }

    /// Picks the layout for the link type that a capture reports.
    ///
    /// Fails with the code itself on every link type but the three that
    /// have a layout here.
    pub fn from_linktype(code: i32) -> (r: Result<DataLink, UnsupportedLinkType>)
        ensures
            r == DataLink::of(code),
    {
        if code == LINKTYPE_ETHERNET {
            Ok(DataLink::Ethernet)
        } else if code == LINKTYPE_RAW {
            Ok(DataLink::Tun)
        } else if code == LINKTYPE_LINUX_SLL {
            Ok(DataLink::Sll)
        } else {
            Err(UnsupportedLinkType(code))
        }
    }
}

} // verus!
