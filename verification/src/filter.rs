//! Which decoded frames are worth showing.
//!
//! Every record has a noise level: the less a frame tells, the noisier it
//! is. A filter shows the records whose noise level is at most its
//! verbosity.
use crate::structs::ether::{Ether, EtherView};
use crate::structs::ipv4::{IPv4, IPv4View};
use crate::structs::raw::{Raw, RawView};
use crate::structs::tcp::{TCPView, TcpHeader, TCP};
use crate::structs::udp::{UDPView, UDP};
use vstd::prelude::*;
use vstd::string::StrSliceExecFns;

verus! {

/// How little a record tells, from `Zero` for a record that is always
/// shown to `Maximum` for one that is shown at the highest verbosity only.
#[derive(Debug, Clone, Copy, PartialEq, Eq, Structural)]
pub enum NoiseLevel {
    Zero,
    One,
    Two,
    AlmostMaximum,
    Maximum,
}

impl NoiseLevel {
    /// The verbosity from which on a record of this noise level is shown.
    pub open spec fn rank(self) -> u8 {
        match self {
            NoiseLevel::Zero => 0,
            NoiseLevel::One => 1,
            NoiseLevel::Two => 2,
            NoiseLevel::AlmostMaximum => 3,
            NoiseLevel::Maximum => 4,
        }
    }

    /// The verbosity from which on a record of this noise level is shown.
    pub fn into_u8(self) -> (r: u8)
        ensures
            r == self.rank(),
    {
        match self {
            NoiseLevel::Zero => 0,
            NoiseLevel::One => 1,
            NoiseLevel::Two => 2,
            NoiseLevel::AlmostMaximum => 3,
            NoiseLevel::Maximum => 4,
        }
    }
}

/// A text of up to this many characters tells next to nothing.
pub const SHORT_TEXT_LEN: usize = 5;

/// The noise level of what a TCP segment with the header `header` carries.
///
/// A decoded application protocol is never noise. A segment without payload
/// is of interest only where it opens or closes a connection.
pub open spec fn tcp_noise(header: TcpHeader, inner: TCPView) -> NoiseLevel {
    match inner {
        TCPView::HTTP(_) => NoiseLevel::Zero,
        TCPView::TLS(_) => NoiseLevel::Zero,
        TCPView::Dropbox(_) => NoiseLevel::Zero,
        TCPView::Text(text) => if text.len() <= SHORT_TEXT_LEN {
            NoiseLevel::AlmostMaximum
        } else {
            NoiseLevel::Zero
        },
        TCPView::Binary(_) => NoiseLevel::AlmostMaximum,
        TCPView::Empty => if header.flag_rst || header.flag_syn || header.flag_fin {
            NoiseLevel::Two
        } else {
            NoiseLevel::AlmostMaximum
        },
    }
}

/// The noise level of what a UDP datagram carries.
pub open spec fn udp_noise(inner: UDPView) -> NoiseLevel {
    match inner {
        UDPView::Dropbox(_) => NoiseLevel::Zero,
        UDPView::Text(_) => NoiseLevel::Two,
        UDPView::Binary(_) => NoiseLevel::AlmostMaximum,
    }
}

/// The noise level of what an IP packet carries.
pub open spec fn transport_noise(inner: IPv4View) -> NoiseLevel {
    match inner {
        IPv4View::TCP(header, inner) => tcp_noise(header, inner),
        IPv4View::UDP(_, inner) => udp_noise(inner),
        IPv4View::Unknown(_) => NoiseLevel::Maximum,
    }
}

/// The noise level of what a frame carries.
pub open spec fn network_noise(inner: EtherView) -> NoiseLevel {
    match inner {
        EtherView::Arp(_) => NoiseLevel::One,
        EtherView::IPv4(_, inner) => transport_noise(inner),
        EtherView::IPv6(_, inner) => transport_noise(inner),
        EtherView::Unknown(_) => NoiseLevel::Maximum,
    }
}

/// The noise level of a decoded frame.
pub open spec fn noise(packet: RawView) -> NoiseLevel {
    match packet {
        RawView::Ether(_, inner) => network_noise(inner),
        RawView::Tun(inner) => network_noise(inner),
        RawView::Sll(inner) => network_noise(inner),
        RawView::Unknown(_) => NoiseLevel::Maximum,
    }
}

fn tcp_noise_level(header: &TcpHeader, inner: &TCP) -> (r: NoiseLevel)
    ensures
        r == tcp_noise(*header, inner@),
{
    match inner {
        TCP::HTTP(_) => NoiseLevel::Zero,
        TCP::TLS(_) => NoiseLevel::Zero,
        TCP::Dropbox(_) => NoiseLevel::Zero,
        TCP::Text(text) => if text.as_str().unicode_len() <= SHORT_TEXT_LEN {
            NoiseLevel::AlmostMaximum
        } else {
            NoiseLevel::Zero
        },
        TCP::Binary(_) => NoiseLevel::AlmostMaximum,
        TCP::Empty => if header.flag_rst || header.flag_syn || header.flag_fin {
            NoiseLevel::Two
        } else {
            NoiseLevel::AlmostMaximum
        },
    }
}

fn transport_noise_level(inner: &IPv4) -> (r: NoiseLevel)
    ensures
        r == transport_noise(inner@),
{
    match inner {
        IPv4::TCP(header, inner) => tcp_noise_level(header, inner),
        IPv4::UDP(_, UDP::Dropbox(_)) => NoiseLevel::Zero,
        IPv4::UDP(_, UDP::Text(_)) => NoiseLevel::Two,
        IPv4::UDP(_, UDP::Binary(_)) => NoiseLevel::AlmostMaximum,
        IPv4::Unknown(_) => NoiseLevel::Maximum,
    }
}

fn network_noise_level(inner: &Ether) -> (r: NoiseLevel)
    ensures
        r == network_noise(inner@),
{
    match inner {
        Ether::Arp(_) => NoiseLevel::One,
        Ether::IPv4(_, inner) => transport_noise_level(inner),
        Ether::IPv6(_, inner) => transport_noise_level(inner),
        Ether::Unknown(_) => NoiseLevel::Maximum,
    }
}

/// The noise level of `packet`.
pub fn noise_level(packet: &Raw) -> (r: NoiseLevel)
    ensures
        r == noise(packet@),
{
    match packet {
        Raw::Ether(_, inner) => network_noise_level(inner),
        Raw::Tun(inner) => network_noise_level(inner),
        Raw::Sll(inner) => network_noise_level(inner),
        Raw::Unknown(_) => NoiseLevel::Maximum,
    }
}

/// Shows the records whose noise level is at most a verbosity.
#[derive(Debug, Clone, Copy, PartialEq, Eq, Structural)]
pub struct Filter {
    pub verbosity: u8,
}

impl Filter {
    pub fn new(verbosity: u8) -> (filter: Filter)
        ensures
            filter.verbosity == verbosity,
    {
        Filter { verbosity }
    }

    /// Whether the filter shows a record with the view `packet`.
    pub open spec fn shows(self, packet: RawView) -> bool {
        noise(packet).rank() <= self.verbosity
    }

    /// Whether the filter shows `packet`.
    pub fn matches(&self, packet: &Raw) -> (r: bool)
        ensures
            r == self.shows(packet@),
    {
        noise_level(packet).into_u8() <= self.verbosity
    }
}

/// A frame in which an application protocol was decoded is shown at every
/// verbosity.
pub proof fn lemma_decoded_application_always_shown(filter: Filter, packet: RawView)
    requires
        noise(packet) == NoiseLevel::Zero,
    ensures
        filter.shows(packet),
{
}

/// At the highest verbosity every frame is shown.
pub proof fn lemma_everything_shown_at_maximum(filter: Filter, packet: RawView)
    requires
        filter.verbosity >= 4,
    ensures
        filter.shows(packet),
{
}

/// A frame that could not be decoded at all is shown at the highest
/// verbosity only.
pub proof fn lemma_unknown_is_noisiest(filter: Filter, bytes: Seq<u8>)
    ensures
        filter.shows(RawView::Unknown(bytes)) <==> filter.verbosity >= 4,
{
}

} // verus!
