use sniffglue::centrifuge::parse;
use sniffglue::httpsniffer::{
    key_for, metric_host, name_for, normalize_device_id, parse_http_request, record, Args,
};
use sniffglue::link::DataLink;
use sniffglue::metrics::{Cardinality, Counter, Registry, Report};
use sniffglue::structs::http::Request;
use sniffglue::structs::raw::Raw;
use std::collections::HashMap;

fn frame(dest_port: [u8; 2], payload: &[u8]) -> Vec<u8> {
    let mut frame = vec![1, 2, 3, 4, 5, 6, 7, 8, 9, 10, 11, 12, 8, 0];
    frame.extend([0x45, 0, 0, 0, 0, 0, 0, 0, 64, 6, 0, 0, 10, 0, 0, 1, 10, 0, 0, 2]);
    frame.extend([0xc3, 0x50]);
    frame.extend(dest_port);
    frame.extend([0, 0, 0, 0, 0, 0, 0, 0, 0x50, 0x18, 0, 0, 0, 0, 0, 0]);
    frame.extend(payload);
    frame
}

fn request(host: Option<&str>, extra: &[(&str, &str)]) -> Request {
    Request {
        method: "GET".to_string(),
        uri: "/".to_string(),
        version: "1.1".to_string(),
        host: host.map(|h| h.to_string()),
        agent: None,
        referer: None,
        auth: None,
        cookies: None,
        extra_headers: extra.iter().map(|(k, v)| (k.to_string(), v.to_string())).collect(),
    }
}

fn host_tags(host: &str) -> HashMap<String, String> {
    let mut tags = HashMap::new();
    tags.insert("host".to_string(), host.to_string());
    tags
}

fn reports(registry: &mut Registry) -> Vec<(String, usize, HashMap<String, String>)> {
    registry.flush().into_iter().map(|Report { key, value, tags }| (key, value, tags)).collect()
}

#[test]
fn picks_requests_for_the_address_and_port() {
    let data = frame([0, 80], b"GET /x HTTP/1.1\r\nHost: example.org\r\n\r\n");
    let packet = parse(&DataLink::Ethernet, &data);
    let found = parse_http_request(packet.clone(), 80, [10, 0, 0, 2]);
    let (addr, request) = found.unwrap();
    assert_eq!(addr, [10, 0, 0, 1]);
    assert_eq!(request.uri, "/x");
    assert!(parse_http_request(packet.clone(), 0, [10, 0, 0, 2]).is_some());
    assert_eq!(parse_http_request(packet.clone(), 8080, [10, 0, 0, 2]), None);
    assert_eq!(parse_http_request(packet.clone(), 80, [10, 0, 0, 3]), None);
    assert_eq!(parse_http_request(packet, 80, [11, 0, 0, 2]), None);
    let text = parse(&DataLink::Ethernet, &frame([0, 80], b"hello"));
    assert_eq!(parse_http_request(text, 80, [10, 0, 0, 2]), None);
    assert_eq!(parse_http_request(Raw::Unknown(vec![1]), 0, [10, 0, 0, 2]), None);
    let tun = parse(&DataLink::Tun, &data[14..]);
    assert_eq!(parse_http_request(tun, 0, [10, 0, 0, 2]), None);
}

#[test]
fn settings() {
    let mut args = Args {
        statsd_host: None,
        statsd_prefix: None,
        duration: 10,
        promisc: false,
        port: None,
        verbose: 0,
        cpus: None,
        device: None,
    };
    assert_eq!(args.port(), 0);
    args.port = Some(8080);
    assert_eq!(args.port(), 8080);
}

#[test]
fn metric_names() {
    assert_eq!(key_for("ips", 10), "ips_per_10s");
    assert_eq!(key_for("reqs", 0), "reqs_per_0s");
    assert_eq!(key_for("pdids", u64::MAX), "pdids_per_18446744073709551615s");
    assert_eq!(name_for("example_org", "reqs", 10), "example_org.reqs_per_10s");
    assert_eq!(name_for("", "ips", 7), ".ips_per_7s");
    assert_eq!(metric_host(&request(Some("www.example.org"), &[])), Some("www_example_org".to_string()));
    assert_eq!(metric_host(&request(Some("localhost"), &[])), Some("localhost".to_string()));
    assert_eq!(metric_host(&request(Some("..a."), &[])), Some("__a_".to_string()));
    assert_eq!(metric_host(&request(None, &[])), None);
}

#[test]
fn device_ids() {
    let canonical = Some("550e8400-e29b-41d4-a716-446655440000".to_string());
    assert_eq!(normalize_device_id("550e8400-e29b-41d4-a716-446655440000"), canonical);
    assert_eq!(normalize_device_id("550E8400E29B41D4A716446655440000"), canonical);
    assert_eq!(normalize_device_id("550e-8400-e29b41d4a716-4466-5544-0000"), canonical);
    assert_eq!(normalize_device_id("550e8400"), None);
    assert_eq!(normalize_device_id(""), None);
    assert_eq!(normalize_device_id("550e8400-e29b-41d4-a716-44665544000g"), None);
}

#[test]
fn records_a_request() {
    let mut registry = Registry::new();
    let tags = host_tags("example_org");
    let first = request(
        Some("example.org"),
        &[("x-forwarded-for", "10.1.1.1"), ("x-xcf-pdid", "550e8400-e29b-41d4-a716-446655440000")],
    );
    record(&mut registry, &first, "example_org", tags.clone(), 10);
    assert_eq!(registry.len(), 3);
    let second = request(
        Some("example.org"),
        &[("x-forwarded-for", "10.1.1.1"), ("x-xcf-pdid", "550E8400E29B41D4A716446655440000")],
    );
    record(&mut registry, &second, "example_org", tags.clone(), 10);
    let third = request(Some("example.org"), &[("x-forwarded-for", "10.1.1.2"), ("x-xcf-pdid", "nonsense")]);
    record(&mut registry, &third, "example_org", tags.clone(), 10);
    record(&mut registry, &request(Some("example.org"), &[]), "example_org", tags.clone(), 10);
    assert_eq!(registry.len(), 3);
    assert_eq!(
        reports(&mut registry),
        vec![
            ("ips_per_10s".to_string(), 2, tags.clone()),
            ("reqs_per_10s".to_string(), 4, tags.clone()),
            ("pdids_per_10s".to_string(), 1, tags.clone()),
        ]
    );
    assert_eq!(
        reports(&mut registry),
        vec![
            ("ips_per_10s".to_string(), 0, tags.clone()),
            ("reqs_per_10s".to_string(), 0, tags.clone()),
            ("pdids_per_10s".to_string(), 0, tags.clone()),
        ]
    );
    record(&mut registry, &request(Some("other.example"), &[]), "other_example", host_tags("other_example"), 10);
    assert_eq!(registry.len(), 4);
    assert_eq!(registry.get_counter("other_example.reqs_per_10s".to_string(), String::new(), None).value(), 1);
    assert_eq!(registry.get_counter("example_org.reqs_per_10s".to_string(), String::new(), None).value(), 0);
}

#[test]
fn registry_hands_out_the_same_metric_for_a_name() {
    let mut registry = Registry::new();
    assert_eq!(registry.len(), 0);
    assert!(registry.flush().is_empty());
    let tags = host_tags("a");
    let card = registry.get_cardinality("a.ips".to_string(), "ips".to_string(), Some(tags.clone()));
    assert_eq!(card.name(), "a.ips");
    assert_eq!(card.key(), "ips");
    assert!(card.add("x".to_string()));
    assert_eq!(registry.len(), 1);
    let card = registry.get_cardinality("a.ips".to_string(), "other".to_string(), None);
    assert_eq!(card.key(), "ips");
    assert_eq!(card.len(), 1);
    assert!(!card.add("x".to_string()));
    assert!(card.add("y".to_string()));
    assert_eq!(registry.len(), 1);
    let counter = registry.get_counter("a.reqs".to_string(), "reqs".to_string(), None);
    assert_eq!(counter.name(), "a.reqs");
    assert_eq!(counter.add(5), 0);
    assert_eq!(registry.get_counter("a.reqs".to_string(), "reqs".to_string(), Some(tags.clone())).add(2), 5);
    assert_eq!(registry.len(), 2);
    assert_eq!(
        reports(&mut registry),
        vec![("ips".to_string(), 2, tags.clone()), ("reqs".to_string(), 7, HashMap::new())]
    );
    // a counter asked for under the name of a tracker takes its place
    let counter = registry.get_counter("a.ips".to_string(), "ips2".to_string(), None);
    assert_eq!(counter.value(), 0);
    counter.add(1);
    assert_eq!(registry.len(), 2);
    assert_eq!(
        reports(&mut registry),
        vec![("ips2".to_string(), 1, HashMap::new()), ("reqs".to_string(), 0, HashMap::new())]
    );
    // and the other way round
    let card = registry.get_cardinality("a.reqs".to_string(), "reqs2".to_string(), Some(tags.clone()));
    assert_eq!(card.len(), 0);
    assert_eq!(registry.len(), 2);
}

#[test]
fn counter_counts_every_addition() {
    let threads = 8;
    let times = 1000;
    let counter = std::sync::Arc::new(std::sync::Mutex::new(Counter::new("n".to_string(), "k".to_string())));
    let mut order = Vec::new();
    for thread in 0..threads {
        for _ in 0..times {
            order.push(thread);
        }
    }
    // one interleaving of the additions of all threads
    let mut seed: u64 = 12345;
    for i in (1..order.len()).rev() {
        seed = seed.wrapping_mul(6364136223846793005).wrapping_add(1442695040888963407);
        order.swap(i, (seed >> 33) as usize % (i + 1));
    }
    for _thread in order {
        counter.lock().unwrap().add(1);
    }
    assert_eq!(counter.lock().unwrap().value(), threads * times);
    assert_eq!(counter.lock().unwrap().flush().0, threads * times);
    assert_eq!(counter.lock().unwrap().value(), 0);
    counter.lock().unwrap().add(3);
    assert_eq!(counter.lock().unwrap().flush().0, 3);
}

#[test]
fn cardinality_keeps_its_tags_over_a_flush() {
    let mut card = Cardinality::new("n".to_string(), "k".to_string());
    card.set_tags(Some(host_tags("a")));
    card.set_tags(None);
    assert_eq!(card.flush(), (0, host_tags("a")));
    card.set_tags(Some(host_tags("b")));
    card.add("x".to_string());
    assert_eq!(card.flush(), (1, host_tags("b")));
}
