//! An HTTP request, as far as its first lines tell.
use crate::http_syntax::{headers_view, Header, HeaderView, RequestHead, RequestHeadView};
use crate::text::{text_of, utf8_text};
use vstd::prelude::*;
use vstd::utf8::{is_ascii_chars, is_ascii_chars_encode_utf8};

verus! {

/// The request line of an HTTP request and the headers that are kept of it.
///
/// `extra_headers` holds, under their names in lower case, the headers that
/// tell where a request came from and which request it is: at most one entry
/// for a name.
#[derive(Debug, Clone, PartialEq, Eq)]
pub struct Request {
    pub method: String,
    pub uri: String,
    pub version: String,
    pub host: Option<String>,
    pub agent: Option<String>,
    pub referer: Option<String>,
    pub auth: Option<String>,
    pub cookies: Option<String>,
    pub extra_headers: Vec<(String, String)>,
}

pub struct RequestView {
    pub method: Seq<char>,
    pub uri: Seq<char>,
    pub version: Seq<char>,
    pub host: Option<Seq<char>>,
    pub agent: Option<Seq<char>>,
    pub referer: Option<Seq<char>>,
    pub auth: Option<Seq<char>>,
    pub cookies: Option<Seq<char>>,
    pub extra_headers: Seq<(Seq<char>, Seq<char>)>,
}

/// The text in `field`, if there is any.
pub open spec fn text_view(field: Option<String>) -> Option<Seq<char>> {
    match field {
        Some(text) => Some(text@),
        None => None,
    }
}

/// The names and values in `pairs`, as text.
pub open spec fn pairs_view(pairs: Seq<(String, String)>) -> Seq<(Seq<char>, Seq<char>)> {
    Seq::new(pairs.len(), |i: int| (pairs[i].0@, pairs[i].1@))
}

impl View for Request {
    type V = RequestView;

    open spec fn view(&self) -> RequestView {
        RequestView {
            method: self.method@,
            uri: self.uri@,
            version: self.version@,
            host: text_view(self.host),
            agent: text_view(self.agent),
            referer: text_view(self.referer),
            auth: text_view(self.auth),
            cookies: text_view(self.cookies),
            extra_headers: pairs_view(self.extra_headers@),
        }
    }
}

/// The lower-case form of `b` where `b` is an upper-case ASCII letter, else `b`.
pub open spec fn ascii_lower(b: u8) -> u8 {
    if b >= 'A' as u8 && b <= 'Z' as u8 {
        (b + 32) as u8
    } else {
        b
    }
}

/// Whether `name` is the header name `wanted`, which is written in lower
/// case, whatever the case of the letters in `name`.
pub open spec fn header_named(name: Seq<u8>, wanted: Seq<char>) -> bool {
    &&& is_ascii_chars(wanted)
    &&& name.len() == wanted.len()
    &&& forall|i: int| 0 <= i < name.len() ==> ascii_lower(#[trigger] name[i]) == wanted[i] as u8
}

/// The value of the last header in `headers` that is named `wanted`.
pub open spec fn header_value(headers: Seq<HeaderView>, wanted: Seq<char>) -> Option<Seq<u8>>
    decreases headers.len(),
{
    if headers.len() == 0 {
        None
    } else if header_named(headers.last().name, wanted) {
        Some(headers.last().value)
    } else {
        header_value(headers.drop_last(), wanted)
    }
}

/// The value of the last header in `headers` that is named `wanted`, where
/// that value is text.
pub open spec fn header_text(headers: Seq<HeaderView>, wanted: Seq<char>) -> Option<Seq<char>> {
    match header_value(headers, wanted) {
        Some(value) => text_of(value),
        None => None,
    }
}

/// `found` with an entry for the header `wanted` behind it, where `headers`
/// has that header with a text for its value.
pub open spec fn with_extra(
    found: Seq<(Seq<char>, Seq<char>)>,
    headers: Seq<HeaderView>,
    wanted: Seq<char>,
) -> Seq<(Seq<char>, Seq<char>)> {
    match header_text(headers, wanted) {
        Some(value) => found.push((wanted, value)),
        None => found,
    }
}

/// The headers of `headers` that tell where a request came from and which
/// request it is, under their names in lower case.
pub open spec fn extra_headers(headers: Seq<HeaderView>) -> Seq<(Seq<char>, Seq<char>)> {
    let found = Seq::empty();
    let found = with_extra(found, headers, "x-forwarded-for"@);
    let found = with_extra(found, headers, "x-real-ip"@);
    let found = with_extra(found, headers, "via"@);
    let found = with_extra(found, headers, "origin"@);
    let found = with_extra(found, headers, "x-request-id"@);
    let found = with_extra(found, headers, "x-xcf-pdid"@);
    found
}

/// The request that the head `head` makes, if its method, target and
/// version are text. A header whose value is not text counts as absent.
pub open spec fn request_of(head: RequestHeadView) -> Option<RequestView> {
    match (text_of(head.method), text_of(head.uri), text_of(head.version)) {
        (Some(method), Some(uri), Some(version)) => Some(
            RequestView {
                method,
                uri,
                version,
                host: header_text(head.headers, "host"@),
                agent: header_text(head.headers, "user-agent"@),
                referer: header_text(head.headers, "referer"@),
                auth: header_text(head.headers, "authorization"@),
                cookies: header_text(head.headers, "cookie"@),
                extra_headers: extra_headers(head.headers),
            },
        ),
        _ => None,
    }
}

/// The request in `request`, if there is one, by its view.
pub open spec fn request_view(request: Option<Request>) -> Option<RequestView> {
    match request {
        Some(request) => Some(request@),
        None => None,
    }
}

fn name_is(name: &[u8], wanted: &str) -> (r: bool)
    ensures
        r == header_named(name@, wanted@),
{
    if !wanted.is_ascii() {
        return false;
    }
    let bytes = wanted.as_bytes();
    proof {
        is_ascii_chars_encode_utf8(wanted@);
    }
    if name.len() != bytes.len() {
        return false;
    }
    let mut i: usize = 0;
    while i < name.len()
        invariant
            i <= name.len(),
            name.len() == bytes.len(),
            name.len() == wanted@.len(),
            is_ascii_chars(wanted@),
            forall|j: int| 0 <= j < bytes.len() ==> wanted@[j] as u8 == #[trigger] bytes[j],
            forall|j: int| 0 <= j < i ==> ascii_lower(#[trigger] name[j]) == wanted@[j] as u8,
        decreases name.len() - i,
    {
        let b = name[i];
        let lower = if b >= 'A' as u8 && b <= 'Z' as u8 {
            b + 32
        } else {
            b
        };
        if lower != bytes[i] {
            assert(ascii_lower(name[i as int]) != wanted@[i as int] as u8);
            return false;
        }
        i += 1;
    }
    true
}

fn find_header<'a>(headers: &'a Vec<Header>, wanted: &str) -> (r: Option<&'a Header>)
    ensures
        match r {
            Some(found) => header_value(headers_view(headers@), wanted@)
                == Some(found@.value),
            None => header_value(headers_view(headers@), wanted@) is None,
        },
{
    let ghost all = headers_view(headers@);
    let mut i: usize = headers.len();
    assert(all.take(i as int) =~= all);
    while i > 0
        invariant
            i <= headers.len(),
            all == headers_view(headers@),
            header_value(all, wanted@) == header_value(all.take(i as int), wanted@),
        decreases i,
    {
        assert(all.take(i as int).last() == headers@[i - 1]@);
        assert(all.take(i as int).drop_last() =~= all.take(i - 1));
        if name_is(headers[i - 1].name.as_slice(), wanted) {
            return Some(&headers[i - 1]);
        }
        i -= 1;
    }
    assert(all.take(0).len() == 0);
    None
}

fn find_text(headers: &Vec<Header>, wanted: &str) -> (r: Option<String>)
    ensures
        text_view(r) == header_text(headers_view(headers@), wanted@),
{
    match find_header(headers, wanted) {
        Some(found) => utf8_text(found.value.as_slice()),
        None => None,
    }
}

fn push_extra(found: &mut Vec<(String, String)>, headers: &Vec<Header>, wanted: &str)
    ensures
        pairs_view(final(found)@) == with_extra(
            pairs_view(old(found)@),
            headers_view(headers@),
            wanted@,
        ),
{
    match find_text(headers, wanted) {
        Some(value) => {
            let ghost before = found@;
            let ghost value_view = value@;
            found.push((wanted.to_owned(), value));
            assert(pairs_view(found@) =~= pairs_view(before).push((wanted@, value_view)));
        },
        None => {},
    }
}

impl Request {
    /// The request that `head` makes.
    ///
    /// Returns `None` where the method, the target or the version is not
    /// text in UTF-8.
    pub fn from_head(head: &RequestHead) -> (r: Option<Request>)
        ensures
            request_view(r) == request_of(head@),
    {
        let method = match utf8_text(head.method.as_slice()) {
            Some(text) => text,
            None => return None,
        };
        let uri = match utf8_text(head.uri.as_slice()) {
            Some(text) => text,
            None => return None,
        };
        let version = match utf8_text(head.version.as_slice()) {
            Some(text) => text,
            None => return None,
        };
        let mut extra: Vec<(String, String)> = Vec::new();
        assert(pairs_view(extra@) =~= Seq::empty());
        push_extra(&mut extra, &head.headers, "x-forwarded-for");
        push_extra(&mut extra, &head.headers, "x-real-ip");
        push_extra(&mut extra, &head.headers, "via");
        push_extra(&mut extra, &head.headers, "origin");
        push_extra(&mut extra, &head.headers, "x-request-id");
        push_extra(&mut extra, &head.headers, "x-xcf-pdid");
        Some(
            Request {
                method,
                uri,
                version,
                host: find_text(&head.headers, "host"),
                agent: find_text(&head.headers, "user-agent"),
                referer: find_text(&head.headers, "referer"),
                auth: find_text(&head.headers, "authorization"),
                cookies: find_text(&head.headers, "cookie"),
                extra_headers: extra,
            },
        )
    }

    /// The value that the request has for the header `name` among those
    /// that `extra_headers` keeps; `name` is written in lower case.
    pub fn extra_header(&self, name: &str) -> (r: Option<&String>)
        ensures
            match r {
                Some(value) => value_of(self@.extra_headers, name@) == Some(value@),
                None => value_of(self@.extra_headers, name@) is None,
            },
    {
        let ghost all = self@.extra_headers;
        let wanted = name.to_owned();
        let mut i: usize = 0;
        assert(all.skip(0) =~= all);
        while i < self.extra_headers.len()
            invariant
                i <= self.extra_headers@.len(),
                wanted@ == name@,
                all == self@.extra_headers,
                value_of(all, name@) == value_of(all.skip(i as int), name@),
            decreases self.extra_headers@.len() - i,
        {
            assert(all.skip(i as int).first() == (
                self.extra_headers@[i as int].0@,
                self.extra_headers@[i as int].1@,
            ));
            assert(all.skip(i as int).drop_first() =~= all.skip(i + 1));
            if self.extra_headers[i].0 == wanted {
                return Some(&self.extra_headers[i].1);
            }
            i += 1;
        }
        None
    }
}

/// The value in `pairs` under the first name that is `name`.
pub open spec fn value_of(pairs: Seq<(Seq<char>, Seq<char>)>, name: Seq<char>) -> Option<
    Seq<char>,
>
    decreases pairs.len(),
{
    if pairs.len() == 0 {
        None
    } else if pairs.first().0 == name {
        Some(pairs.first().1)
    } else {
        value_of(pairs.drop_first(), name)
    }
}

} // verus!
