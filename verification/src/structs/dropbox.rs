//! The beacon by which Dropbox clients announce themselves on a LAN.
use vstd::prelude::*;

verus! {

/// The fields of a LAN sync beacon.
#[derive(Debug, Clone, PartialEq, Eq)]
pub struct DropboxBeacon {
    pub version: Vec<u8>,
    pub host_int: u128,
    pub namespaces: Vec<u64>,
    pub displayname: String,
    pub port: u16,
}

pub struct DropboxBeaconView {
    pub version: Seq<u8>,
    pub host_int: u128,
    pub namespaces: Seq<u64>,
    pub displayname: Seq<char>,
    pub port: u16,
}

impl View for DropboxBeacon {
    type V = DropboxBeaconView;

    open spec fn view(&self) -> DropboxBeaconView {
        DropboxBeaconView {
            version: self.version@,
            host_int: self.host_int,
            namespaces: self.namespaces@,
            displayname: self.displayname@,
            port: self.port,
        }
    }
}

} // verus!
