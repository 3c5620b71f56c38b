use sniffglue::centrifuge::parse;
use sniffglue::link::DataLink;
use sniffglue::metrics::{Cardinality, Counter};
use sniffglue::structs::raw::Raw;
use std::sync::mpsc;
use std::sync::{Arc, Mutex};
use std::time::Duration;
use threadpool::ThreadPool;

fn frame(n: u8) -> Vec<u8> {
    let mut frame = vec![1, 2, 3, 4, 5, 6, 7, 8, 9, 10, 11, 12, 0x88, 0xb5];
    frame.push(n);
    frame
}

#[test]
fn every_frame_comes_out_of_the_pool_once() {
    let pool = ThreadPool::new(4);
    let (tx, rx) = mpsc::channel::<Raw>();
    let link = DataLink::Ethernet;
    for n in 1..=10 {
        let tx = tx.clone();
        let data = frame(n);
        pool.execute(move || {
            tx.send(parse(&link, &data)).unwrap();
        });
    }
    drop(tx);
    let mut seen = Vec::new();
    while let Ok(packet) = rx.recv_timeout(Duration::from_secs(10)) {
        seen.push(packet);
    }
    assert_eq!(seen.len(), 10);
    let mut expected: Vec<Raw> = (1..=10).map(|n| parse(&link, &frame(n))).collect();
    for packet in seen {
        let at = expected.iter().position(|e| *e == packet).expect("a frame that was not sent");
        expected.remove(at);
    }
    assert!(expected.is_empty());
}

#[test]
fn counter_shared_by_workers_loses_no_addition() {
    let workers = 8;
    let times = 500;
    let pool = ThreadPool::new(workers);
    let counter = Arc::new(Mutex::new(Counter::new("reqs".to_string(), "reqs".to_string())));
    for _ in 0..workers {
        let counter = counter.clone();
        pool.execute(move || {
            for _ in 0..times {
                counter.lock().unwrap().add(1);
            }
        });
    }
    pool.join();
    assert_eq!(counter.lock().unwrap().value(), workers * times);
    assert_eq!(counter.lock().unwrap().flush().0, workers * times);
    assert_eq!(counter.lock().unwrap().value(), 0);
}

#[test]
fn flushes_between_additions_report_every_addition_once() {
    let workers = 4;
    let times = 500;
    let pool = ThreadPool::new(workers + 1);
    let counter = Arc::new(Mutex::new(Counter::new("reqs".to_string(), "reqs".to_string())));
    let reported = Arc::new(Mutex::new(0usize));
    for _ in 0..workers {
        let counter = counter.clone();
        pool.execute(move || {
            for _ in 0..times {
                counter.lock().unwrap().add(1);
            }
        });
    }
    {
        let counter = counter.clone();
        let reported = reported.clone();
        pool.execute(move || {
            for _ in 0..100 {
                let (sum, _) = counter.lock().unwrap().flush();
                *reported.lock().unwrap() += sum;
            }
        });
    }
    pool.join();
    let rest = counter.lock().unwrap().flush().0;
    assert_eq!(*reported.lock().unwrap() + rest, workers * times);
}

#[test]
fn tracker_shared_by_workers_counts_each_key_once() {
    let workers = 4;
    let pool = ThreadPool::new(workers);
    let card = Arc::new(Mutex::new(Cardinality::new("ips".to_string(), "ips".to_string())));
    for _ in 0..workers {
        let card = card.clone();
        pool.execute(move || {
            for n in 0..50 {
                card.lock().unwrap().add(format!("10.0.0.{}", n));
            }
        });
    }
    pool.join();
    assert_eq!(card.lock().unwrap().len(), 50);
    assert_eq!(card.lock().unwrap().flush().0, 50);
    assert_eq!(card.lock().unwrap().len(), 0);
}
