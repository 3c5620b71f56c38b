//! The sniffer for the beacons of Dropbox LAN sync.
//!
//! A beacon is a JSON object in UTF-8 with the members `version` (an array
//! of small numbers), `host_int`, `namespaces` (an array of numbers),
//! `displayname` (a string) and `port`. Other members are passed over.
use crate::json::{
    array_items, document_members, items_view, json_items, json_members, json_string,
    members_view, string_value,
};
use crate::number::{decimal, parse_decimal};
use crate::structs::dropbox::{DropboxBeacon, DropboxBeaconView};
use crate::structs::{result_view, CentrifugeError};
use crate::text::{text_of, utf8_text};
use vstd::prelude::*;

verus! {

/// The value of the first member of `members` that is named `name`.
pub open spec fn member_of(members: Seq<(Seq<char>, Seq<char>)>, name: Seq<char>) -> Option<
    Seq<char>,
>
    decreases members.len(),
{
    if members.len() == 0 {
        None
    } else if members.first().0 == name {
        Some(members.first().1)
    } else {
        member_of(members.drop_first(), name)
    }
}

/// The numbers that `items` write, where each of them is a number in
/// decimal digits that fits a byte.
pub open spec fn bytes_of(items: Seq<Seq<char>>) -> Option<Seq<u8>>
    decreases items.len(),
{
    if items.len() == 0 {
        Some(Seq::empty())
    } else {
        match (bytes_of(items.drop_last()), decimal(items.last(), u8::MAX as nat)) {
            (Some(init), Some(n)) => Some(init.push(n as u8)),
            _ => None,
        }
    }
}

/// The numbers that `items` write, where each of them is a number in
/// decimal digits that fits 64 bits.
pub open spec fn u64s_of(items: Seq<Seq<char>>) -> Option<Seq<u64>>
    decreases items.len(),
{
    if items.len() == 0 {
        Some(Seq::empty())
    } else {
        match (u64s_of(items.drop_last()), decimal(items.last(), u64::MAX as nat)) {
            (Some(init), Some(n)) => Some(init.push(n as u64)),
            _ => None,
        }
    }
}

/// The items of the array that the member `name` of `members` holds.
pub open spec fn items_of(members: Seq<(Seq<char>, Seq<char>)>, name: Seq<char>) -> Option<
    Seq<Seq<char>>,
> {
    match member_of(members, name) {
        Some(raw) => array_items(raw),
        None => None,
    }
}

/// The number at most `max` that the member `name` of `members` holds.
pub open spec fn number_of(members: Seq<(Seq<char>, Seq<char>)>, name: Seq<char>, max: nat)
    -> Option<nat> {
    match member_of(members, name) {
        Some(raw) => decimal(raw, max),
        None => None,
    }
}

/// The string that the member `name` of `members` holds.
pub open spec fn string_of(members: Seq<(Seq<char>, Seq<char>)>, name: Seq<char>) -> Option<
    Seq<char>,
> {
    match member_of(members, name) {
        Some(raw) => string_value(raw),
        None => None,
    }
}

/// The beacon that a JSON object with the members `members` is, if it has
/// the five members of a beacon, each of its kind.
pub open spec fn beacon_of(members: Seq<(Seq<char>, Seq<char>)>) -> Option<DropboxBeaconView> {
    match (
        items_of(members, "version"@),
        number_of(members, "host_int"@, u128::MAX as nat),
        items_of(members, "namespaces"@),
        string_of(members, "displayname"@),
        number_of(members, "port"@, u16::MAX as nat),
    ) {
        (Some(version), Some(host_int), Some(namespaces), Some(displayname), Some(port)) => match (
            bytes_of(version),
            u64s_of(namespaces),
        ) {
            (Some(version), Some(namespaces)) => Some(
                DropboxBeaconView {
                    version,
                    host_int: host_int as u128,
                    namespaces,
                    displayname,
                    port: port as u16,
                },
            ),
            _ => None,
        },
        _ => None,
    }
}

/// What `extract` makes of `data`.
///
/// Whatever keeps `data` from being a beacon, be it the encoding, the JSON
/// or a member, makes it an invalid packet.
pub open spec fn extracted(data: Seq<u8>) -> Result<DropboxBeaconView, CentrifugeError> {
    match text_of(data) {
        None => Err(CentrifugeError::InvalidPacket),
        Some(text) => match document_members(text) {
            None => Err(CentrifugeError::InvalidPacket),
            Some(members) => match beacon_of(members) {
                Some(beacon) => Ok(beacon),
                None => Err(CentrifugeError::InvalidPacket),
            },
        },
    }
}

/// The beacon in `beacon`, if there is one, by its view.
pub open spec fn beacon_view(beacon: Option<DropboxBeacon>) -> Option<DropboxBeaconView> {
    match beacon {
        Some(beacon) => Some(beacon@),
        None => None,
    }
}

fn member<'a>(members: &'a Vec<(String, String)>, name: &str) -> (r: Option<&'a String>)
    ensures
        match r {
            Some(raw) => member_of(members_view(members@), name@) == Some(raw@),
            None => member_of(members_view(members@), name@) is None,
        },
{
    let ghost all = members_view(members@);
    let wanted = name.to_owned();
    let mut i: usize = 0;
    assert(all.skip(0) =~= all);
    while i < members.len()
        invariant
            i <= members.len(),
            wanted@ == name@,
            all == members_view(members@),
            member_of(all, name@) == member_of(all.skip(i as int), name@),
        decreases members.len() - i,
    {
        assert(all.skip(i as int).first() == (members@[i as int].0@, members@[i as int].1@));
        assert(all.skip(i as int).drop_first() =~= all.skip(i + 1));
        if members[i].0 == wanted {
            return Some(&members[i].1);
        }
        i += 1;
    }
    None
}

fn parse_bytes(items: &Vec<String>) -> (r: Option<Vec<u8>>)
    ensures
        match r {
            Some(numbers) => bytes_of(items_view(items@)) == Some(numbers@),
            None => bytes_of(items_view(items@)) is None,
        },
{
    let ghost all = items_view(items@);
    let mut numbers: Vec<u8> = Vec::new();
    let mut i: usize = 0;
    while i < items.len()
        invariant
            i <= items.len(),
            all == items_view(items@),
            bytes_of(all.take(i as int)) == Some(numbers@),
        decreases items.len() - i,
    {
        assert(all.take(i + 1).drop_last() =~= all.take(i as int));
        assert(all.take(i + 1).last() == items@[i as int]@);
        match parse_decimal(items[i].as_str(), u8::MAX as u128) {
            Some(n) => numbers.push(n as u8),
            None => {
                proof {
                    lemma_bytes_prefix(all, i + 1);
                }
                return None;
            },
        }
        i += 1;
    }
    assert(all.take(i as int) =~= all);
    Some(numbers)
}

fn parse_u64s(items: &Vec<String>) -> (r: Option<Vec<u64>>)
    ensures
        match r {
            Some(numbers) => u64s_of(items_view(items@)) == Some(numbers@),
            None => u64s_of(items_view(items@)) is None,
        },
{
    let ghost all = items_view(items@);
    let mut numbers: Vec<u64> = Vec::new();
    let mut i: usize = 0;
    while i < items.len()
        invariant
            i <= items.len(),
            all == items_view(items@),
            u64s_of(all.take(i as int)) == Some(numbers@),
        decreases items.len() - i,
    {
        assert(all.take(i + 1).drop_last() =~= all.take(i as int));
        assert(all.take(i + 1).last() == items@[i as int]@);
        match parse_decimal(items[i].as_str(), u64::MAX as u128) {
            Some(n) => numbers.push(n as u64),
            None => {
                proof {
                    lemma_u64s_prefix(all, i + 1);
                }
                return None;
            },
        }
        i += 1;
    }
    assert(all.take(i as int) =~= all);
    Some(numbers)
}

/// Where the first `k` items are not all bytes, the items are not.
proof fn lemma_bytes_prefix(items: Seq<Seq<char>>, k: int)
    requires
        0 <= k <= items.len(),
        bytes_of(items.take(k)) is None,
    ensures
        bytes_of(items) is None,
    decreases items.len(),
{
    if k == items.len() {
        assert(items.take(k) =~= items);
    } else {
        assert(items.drop_last().take(k) =~= items.take(k));
        lemma_bytes_prefix(items.drop_last(), k);
    }
}

/// Where the first `k` items are not all numbers of 64 bits, the items are not.
proof fn lemma_u64s_prefix(items: Seq<Seq<char>>, k: int)
    requires
        0 <= k <= items.len(),
        u64s_of(items.take(k)) is None,
    ensures
        u64s_of(items) is None,
    decreases items.len(),
{
    if k == items.len() {
        assert(items.take(k) =~= items);
    } else {
        assert(items.drop_last().take(k) =~= items.take(k));
        lemma_u64s_prefix(items.drop_last(), k);
    }
}

/// Reads a beacon off the members of a JSON object, each of which comes
/// with its value as JSON text.
pub fn beacon_from_members(members: &Vec<(String, String)>) -> (r: Option<DropboxBeacon>)
    ensures
        beacon_view(r) == beacon_of(members_view(members@)),
{
    let version = match member(members, "version") {
        Some(raw) => match json_items(raw.as_str()) {
            Some(items) => items,
            None => return None,
        },
        None => return None,
    };
    let host_int = match member(members, "host_int") {
        Some(raw) => match parse_decimal(raw.as_str(), u128::MAX) {
            Some(n) => n,
            None => return None,
        },
        None => return None,
    };
    let namespaces = match member(members, "namespaces") {
        Some(raw) => match json_items(raw.as_str()) {
            Some(items) => items,
            None => return None,
        },
        None => return None,
    };
    let displayname = match member(members, "displayname") {
        Some(raw) => match json_string(raw.as_str()) {
            Some(text) => text,
            None => return None,
        },
        None => return None,
    };
    let port = match member(members, "port") {
        Some(raw) => match parse_decimal(raw.as_str(), u16::MAX as u128) {
            Some(n) => n as u16,
            None => return None,
        },
        None => return None,
    };
    let version = match parse_bytes(&version) {
        Some(numbers) => numbers,
        None => return None,
    };
    let namespaces = match parse_u64s(&namespaces) {
        Some(numbers) => numbers,
        None => return None,
    };
    Some(DropboxBeacon { version, host_int, namespaces, displayname, port })
}

/// Reads the beacon that `data` is.
pub fn extract(data: &[u8]) -> (r: Result<DropboxBeacon, CentrifugeError>)
    ensures
        result_view(r) == extracted(data@),
{
    let text = match utf8_text(data) {
        Some(text) => text,
        None => return Err(CentrifugeError::InvalidPacket),
    };
    let members = match json_members(text.as_str()) {
        Some(members) => members,
        None => return Err(CentrifugeError::InvalidPacket),
    };
    match beacon_from_members(&members) {
        Some(beacon) => Ok(beacon),
        None => Err(CentrifugeError::InvalidPacket),
    }
}

} // verus!
