//! What a sniffer for HTTP requests does with a decoded frame: it picks the
//! requests that were sent to one address and port, and keeps metrics of
//! them for each host that was asked for.
use crate::metrics::{cardinality_for, counter_for, with_metric, MetricView, Registry};
use crate::structs::ether::{Ether, EtherView};
use crate::structs::http::{value_of, Request, RequestView};
use crate::structs::ipv4::{IPv4, IPv4View};
use crate::structs::raw::{Raw, RawView};
use crate::structs::tcp::{TCPView, TCP};
use std::collections::HashMap;
use vstd::prelude::*;
use vstd::string::StringExecFns;

verus! {

/// The settings of the sniffer, as the command line gives them.
#[derive(Debug, Clone, PartialEq, Eq)]
pub struct Args {
    /// Where to report metrics to, as `host:port`.
    pub statsd_host: Option<String>,
    pub statsd_prefix: Option<String>,
    /// Seconds between two reports.
    pub duration: u64,
    pub promisc: bool,
    pub port: Option<u16>,
    pub verbose: u64,
    pub cpus: Option<usize>,
    pub device: Option<String>,
}

impl Args {
    /// The port that requests are picked for: the one given, or 0 for every port.
    pub fn port(&self) -> (port: u16)
        ensures
            port == match self.port {
                Some(port) => port,
                None => 0,
            },
    {
        match self.port {
            Some(port) => port,
            None => 0,
        }
    }
}

/// A request and the address that it came from.
pub type Message = ([u8; 4], Request);

/// The request in `packet` and the address that it came from, where
/// `packet` is an HTTP request over TCP and IPv4 in an Ethernet frame that
/// was sent to `addr`, and to `port` unless `port` is 0.
pub open spec fn http_request(packet: RawView, port: u16, addr: [u8; 4]) -> Option<
    ([u8; 4], RequestView),
> {
    match packet {
        RawView::Ether(_, EtherView::IPv4(ip, IPv4View::TCP(tcp, TCPView::HTTP(request)))) => if ip.dest_addr@
            == addr@ && (port == 0 || tcp.dest_port == port) {
            Some((ip.source_addr, request))
        } else {
            None
        },
        _ => None,
    }
}

/// What `message` holds, by its view.
pub open spec fn message_view(message: Option<Message>) -> Option<([u8; 4], RequestView)> {
    match message {
        Some((addr, request)) => Some((addr, request@)),
        None => None,
    }
}

fn same_addr(a: &[u8; 4], b: &[u8; 4]) -> (r: bool)
    ensures
        r == (a@ == b@),
{
    let r = a[0] == b[0] && a[1] == b[1] && a[2] == b[2] && a[3] == b[3];
    assert(r == (a@ =~= b@));
    r
}

/// Picks the HTTP request out of a decoded frame, if the frame holds one
/// that was sent to `addr`, and to `port` unless `port` is 0.
pub fn parse_http_request(packet: Raw, port: u16, addr: [u8; 4]) -> (r: Option<Message>)
    ensures
        message_view(r) == http_request(packet@, port, addr),
{
    match packet {
        Raw::Ether(_, ether) => match ether {
            Ether::IPv4(ipv4_header, ipv4) => {
                if !same_addr(&ipv4_header.dest_addr, &addr) {
                    return None;
                }
                match ipv4 {
                    IPv4::TCP(tcp_header, tcp) => {
                        if port != 0 && tcp_header.dest_port != port {
                            return None;
                        }
                        match tcp {
                            TCP::HTTP(request) => Some((ipv4_header.source_addr, request)),
                            _ => None,
                        }
                    },
                    _ => None,
                }
            },
            _ => None,
        },
        _ => None,
    }
}

/// `text` with `to` in the place of every `from`.
pub open spec fn replace_all(text: Seq<char>, from: char, to: Seq<char>) -> Seq<char>
    decreases text.len(),
{
    if text.len() == 0 {
        Seq::empty()
    } else {
        replace_all(text.drop_last(), from, to) + (if text.last() == from {
            to
        } else {
            seq![text.last()]
        })
    }
}

/// The digit that stands for `d`, which is below ten.
pub open spec fn digit_char(d: nat) -> char {
    (('0' as u8) + d as u8) as char
}

/// `n` written in decimal digits, without leading zeros.
pub open spec fn digits_of(n: nat) -> Seq<char>
    decreases n,
{
    if n < 10 {
        seq![digit_char(n)]
    } else {
        digits_of(n / 10).push(digit_char(n % 10))
    }
}

/// The UUID that `uuid::Uuid::parse_str` reads in `text`, written as the
/// `uuid` crate writes one: in lower case, with hyphens.
pub uninterp spec fn canonical_uuid(text: Seq<char>) -> Option<Seq<char>>;

/// `str::replace` with a character for its pattern: the standard library
/// documents that it replaces all matches of the pattern, from left to right.
#[verifier::external_body]
fn replaced(text: &str, from: char, to: &str) -> (r: String)
    ensures
        r@ == replace_all(text@, from, to@),
{
    text.replace(from, to)
}

/// `u64::to_string`: the number in decimal digits.
#[verifier::external_body]
fn u64_text(n: u64) -> (r: String)
    ensures
        r@ == digits_of(n as nat),
{
    n.to_string()
}

/// `uuid::Uuid::parse_str`, and `to_string` on what it gives.
#[verifier::external_body]
fn uuid_text(text: &str) -> (r: Option<String>)
    ensures
        match r {
            Some(uuid) => canonical_uuid(text@) == Some(uuid@),
            None => canonical_uuid(text@) is None,
        },
{
    match uuid::Uuid::parse_str(text) {
        Ok(uuid) => Some(uuid.to_string()),
        Err(_) => None,
    }
}

/// The key of the metric `what` over intervals of `duration` seconds.
pub open spec fn metric_key(what: Seq<char>, duration: u64) -> Seq<char> {
    what + "_per_"@ + digits_of(duration as nat) + "s"@
}

/// The name of the metric `what` of the host `host` over intervals of
/// `duration` seconds.
pub open spec fn metric_name(host: Seq<char>, what: Seq<char>, duration: u64) -> Seq<char> {
    host + "."@ + metric_key(what, duration)
}

/// The name that the metrics of a host go under: the host with an
/// underscore for every dot.
pub open spec fn host_label(host: Seq<char>) -> Seq<char> {
    replace_all(host, '.', "_"@)
}

/// The key of the metric `what` over intervals of `duration` seconds.
pub fn key_for(what: &str, duration: u64) -> (key: String)
    ensures
        key@ == metric_key(what@, duration),
{
    let mut key = what.to_owned();
    key.append("_per_");
    key.append(u64_text(duration).as_str());
    key.append("s");
    key
}

/// The name of the metric `what` of the host `host` over intervals of
/// `duration` seconds.
pub fn name_for(host: &str, what: &str, duration: u64) -> (name: String)
    ensures
        name@ == metric_name(host@, what@, duration),
{
    let mut name = host.to_owned();
    name.append(".");
    name.append(key_for(what, duration).as_str());
    assert(name@ =~= metric_name(host@, what@, duration));
    name
}

/// The name that the metrics of the request go under, if the request names
/// a host.
pub fn metric_host(request: &Request) -> (label: Option<String>)
    ensures
        match label {
            Some(label) => request@.host matches Some(host) && label@ == host_label(host),
            None => request@.host is None,
        },
{
    match &request.host {
        Some(host) => Some(replaced(host.as_str(), '.', "_")),
        None => None,
    }
}

/// The UUID that the device identifier `pdid` holds once its hyphens are
/// taken out, written in lower case with hyphens.
pub open spec fn device_id(pdid: Seq<char>) -> Option<Seq<char>> {
    canonical_uuid(replace_all(pdid, '-', Seq::empty()))
}

/// Brings the device identifier `pdid` into the one form that it is
/// counted in, or `None` where it is not a UUID.
pub fn normalize_device_id(pdid: &str) -> (r: Option<String>)
    ensures
        match r {
            Some(uuid) => device_id(pdid@) == Some(uuid@),
            None => device_id(pdid@) is None,
        },
{
    proof {
        reveal_strlit("");
    }
    let bare = replaced(pdid, '-', "");
    assert(""@ =~= Seq::<char>::empty());
    uuid_text(bare.as_str())
}

/// The metrics `metrics` after `item` was observed by the tracker `what`
/// of the host `host`.
pub open spec fn observed(
    metrics: Seq<MetricView>,
    host: Seq<char>,
    what: Seq<char>,
    duration: u64,
    tags: Map<String, String>,
    item: Seq<char>,
) -> Seq<MetricView> {
    let name = metric_name(host, what, duration);
    let card = cardinality_for(metrics, name, metric_key(what, duration), Some(tags));
    with_metric(metrics, name, MetricView::Cardinality(card.add(item)))
}

/// The metrics `metrics` after one more was counted by the counter `what`
/// of the host `host`. A counter that is full stays as it is.
pub open spec fn counted(
    metrics: Seq<MetricView>,
    host: Seq<char>,
    what: Seq<char>,
    duration: u64,
    tags: Map<String, String>,
) -> Seq<MetricView> {
    let name = metric_name(host, what, duration);
    let counter = counter_for(metrics, name, metric_key(what, duration), Some(tags));
    with_metric(
        metrics,
        name,
        MetricView::Counter(
            if counter.size < usize::MAX {
                counter.add(1)
            } else {
                counter
            },
        ),
    )
}

/// The metrics `metrics` after the request `request` to the host with the
/// label `host` was recorded: the address that the request was forwarded
/// for is observed, the request is counted, and the device that sent it is
/// observed, each where the request says so.
pub open spec fn recorded(
    metrics: Seq<MetricView>,
    request: RequestView,
    host: Seq<char>,
    tags: Map<String, String>,
    duration: u64,
) -> Seq<MetricView> {
    let metrics = match value_of(request.extra_headers, "x-forwarded-for"@) {
        Some(ip) => observed(metrics, host, "ips"@, duration, tags, ip),
        None => metrics,
    };
    let metrics = counted(metrics, host, "reqs"@, duration, tags);
    match value_of(request.extra_headers, "x-xcf-pdid"@) {
        Some(pdid) => match device_id(pdid) {
            Some(uuid) => observed(metrics, host, "pdids"@, duration, tags, uuid),
            None => metrics,
        },
        None => metrics,
    }
}

fn observe(
    registry: &mut Registry,
    host: &str,
    what: &str,
    duration: u64,
    tags: HashMap<String, String>,
    item: String,
)
    ensures
        final(registry)@ == observed(old(registry)@, host@, what@, duration, tags@, item@),
{
    let name = name_for(host, what, duration);
    let key = key_for(what, duration);
    let card = registry.get_cardinality(name, key, Some(tags));
    card.add(item);
}

fn count(
    registry: &mut Registry,
    host: &str,
    what: &str,
    duration: u64,
    tags: HashMap<String, String>,
)
    ensures
        final(registry)@ == counted(old(registry)@, host@, what@, duration, tags@),
{
    let name = name_for(host, what, duration);
    let key = key_for(what, duration);
    let counter = registry.get_counter(name, key, Some(tags));
    if counter.value() < usize::MAX {
        counter.add(1);
    }
}

/// Records a request to the host with the label `host` in the registry.
///
/// `tags` are the tags that a metric gets where the registry does not have
/// it yet.
pub fn record(
    registry: &mut Registry,
    request: &Request,
    host: &str,
    tags: HashMap<String, String>,
    duration: u64,
)
    ensures
        final(registry)@ == recorded(old(registry)@, request@, host@, tags@, duration),
{
    if let Some(ip) = request.extra_header("x-forwarded-for") {
        observe(registry, host, "ips", duration, tags.clone(), ip.clone());
    }
    count(registry, host, "reqs", duration, tags.clone());
    if let Some(pdid) = request.extra_header("x-xcf-pdid") {
        if let Some(uuid) = normalize_device_id(pdid.as_str()) {
            observe(registry, host, "pdids", duration, tags, uuid);
        }
    }
}

} // verus!
