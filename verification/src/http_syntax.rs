//! The grammar of the head of an HTTP request: a request line, one or more
//! headers, and an empty line.
//!
//! The grammar is stated as spec functions over positions in a byte
//! sequence; the parser is proved to compute them.
use vstd::prelude::*;
use vstd::slice::{slice_subrange, slice_to_vec};

verus! {

/// The classes of bytes that the grammar is made of.
#[derive(Debug, Clone, Copy, PartialEq, Eq, Structural)]
pub enum ByteClass {
    /// A byte of a method or of a header name.
    Token,
    Space,
    NotSpace,
    /// A digit or a dot.
    Version,
    /// A space or a tab.
    HorizontalSpace,
    /// Any byte but carriage return and line feed.
    NotLineEnding,
}

/// Whether `b` is one of the printable ASCII characters that cannot stand in a token.
pub open spec fn is_separator(b: u8) -> bool {
    ||| b == '(' as u8
    ||| b == ')' as u8
    ||| b == '<' as u8
    ||| b == '>' as u8
    ||| b == '@' as u8
    ||| b == ',' as u8
    ||| b == ';' as u8
    ||| b == ':' as u8
    ||| b == '\\' as u8
    ||| b == '"' as u8
    ||| b == '/' as u8
    ||| b == '[' as u8
    ||| b == ']' as u8
    ||| b == '?' as u8
    ||| b == '=' as u8
    ||| b == '{' as u8
    ||| b == '}' as u8
}

/// Whether `b` can stand in a token: a printable ASCII character other than
/// the space and the separators.
pub open spec fn is_token(b: u8) -> bool {
    b > ' ' as u8 && b < 127 && !is_separator(b)
}

impl ByteClass {
    /// Whether `b` belongs to this class.
    pub open spec fn holds(self, b: u8) -> bool {
        match self {
            ByteClass::Token => is_token(b),
            ByteClass::Space => b == ' ' as u8,
            ByteClass::NotSpace => b != ' ' as u8,
            ByteClass::Version => (b >= '0' as u8 && b <= '9' as u8) || b == '.' as u8,
            ByteClass::HorizontalSpace => b == ' ' as u8 || b == '\t' as u8,
            ByteClass::NotLineEnding => b != '\r' as u8 && b != '\n' as u8,
        }
    }

    /// Whether `b` belongs to this class.
    pub fn test(self, b: u8) -> (r: bool)
        ensures
            r == self.holds(b),
    {
        match self {
            ByteClass::Token => {
                b > ' ' as u8 && b < 127 && !(b == '(' as u8 || b == ')' as u8 || b == '<' as u8
                    || b == '>' as u8 || b == '@' as u8 || b == ',' as u8 || b == ';' as u8 || b
                    == ':' as u8 || b == '\\' as u8 || b == '"' as u8 || b == '/' as u8 || b
                    == '[' as u8 || b == ']' as u8 || b == '?' as u8 || b == '=' as u8 || b
                    == '{' as u8 || b == '}' as u8)
            },
            ByteClass::Space => b == ' ' as u8,
            ByteClass::NotSpace => b != ' ' as u8,
            ByteClass::Version => (b >= '0' as u8 && b <= '9' as u8) || b == '.' as u8,
            ByteClass::HorizontalSpace => b == ' ' as u8 || b == '\t' as u8,
            ByteClass::NotLineEnding => b != '\r' as u8 && b != '\n' as u8,
        }
    }
}

/// Where the longest run of bytes of `class` that starts at `from` ends.
pub open spec fn run_end(data: Seq<u8>, from: int, class: ByteClass) -> int
    decreases data.len() - from,
{
    if 0 <= from < data.len() && class.holds(data[from]) {
        run_end(data, from + 1, class)
    } else {
        from
    }
}

/// Where the run of bytes of `class` at `from` ends, if it is not empty.
pub open spec fn run(data: Seq<u8>, from: int, class: ByteClass) -> Option<int> {
    if run_end(data, from, class) > from {
        Some(run_end(data, from, class))
    } else {
        None
    }
}

/// Where the line ending at `from` ends, if there is one: a line feed, or a
/// carriage return and a line feed.
pub open spec fn line_ending(data: Seq<u8>, from: int) -> Option<int> {
    if 0 <= from && from + 1 < data.len() && data[from] == '\r' as u8 && data[from + 1]
        == '\n' as u8 {
        Some(from + 2)
    } else if 0 <= from < data.len() && data[from] == '\n' as u8 {
        Some(from + 1)
    } else {
        None
    }
}

/// Where the word `HTTP/` at `from` ends, if it stands there.
pub open spec fn version_tag(data: Seq<u8>, from: int) -> Option<int> {
    if 0 <= from && from + 5 <= data.len() && data[from] == 'H' as u8 && data[from + 1]
        == 'T' as u8 && data[from + 2] == 'T' as u8 && data[from + 3] == 'P' as u8 && data[from
        + 4] == '/' as u8 {
        Some(from + 5)
    } else {
        None
    }
}

/// A run never ends before it starts nor behind the data.
pub proof fn lemma_run_end_bounds(data: Seq<u8>, from: int, class: ByteClass)
    requires
        0 <= from <= data.len(),
    ensures
        from <= run_end(data, from, class) <= data.len(),
    decreases data.len() - from,
{
    if from < data.len() && class.holds(data[from]) {
        lemma_run_end_bounds(data, from + 1, class);
    }
}

fn take_while(data: &[u8], from: usize, class: ByteClass) -> (end: usize)
    requires
        from <= data.len(),
    ensures
        end == run_end(data@, from as int, class),
        from <= end <= data.len(),
{
    let mut i: usize = from;
    while i < data.len() && class.test(data[i])
        invariant
            from <= i <= data.len(),
            run_end(data@, from as int, class) == run_end(data@, i as int, class),
        decreases data.len() - i,
    {
        i += 1;
    }
    i
}

fn take_run(data: &[u8], from: usize, class: ByteClass) -> (end: Option<usize>)
    requires
        from <= data.len(),
    ensures
        match end {
            Some(e) => run(data@, from as int, class) == Some(e as int) && from < e <= data.len(),
            None => run(data@, from as int, class) is None,
        },
{
    let end = take_while(data, from, class);
    if end > from {
        Some(end)
    } else {
        None
    }
}

fn take_line_ending(data: &[u8], from: usize) -> (end: Option<usize>)
    requires
        from <= data.len(),
    ensures
        match end {
            Some(e) => line_ending(data@, from as int) == Some(e as int) && from < e
                <= data.len(),
            None => line_ending(data@, from as int) is None,
        },
{
    if data.len() - from >= 2 && data[from] == '\r' as u8 && data[from + 1] == '\n' as u8 {
        Some(from + 2)
    } else if data.len() - from >= 1 && data[from] == '\n' as u8 {
        Some(from + 1)
    } else {
        None
    }
}

fn take_version_tag(data: &[u8], from: usize) -> (end: Option<usize>)
    requires
        from <= data.len(),
    ensures
        match end {
            Some(e) => version_tag(data@, from as int) == Some(e as int) && from < e
                <= data.len(),
            None => version_tag(data@, from as int) is None,
        },
{
    if data.len() - from >= 5 && data[from] == 'H' as u8 && data[from + 1] == 'T' as u8
        && data[from + 2] == 'T' as u8 && data[from + 3] == 'P' as u8 && data[from + 4]
        == '/' as u8 {
        Some(from + 5)
    } else {
        None
    }
}

/// A header as the grammar cuts it: its name, and its value lines joined.
#[derive(Debug, Clone, PartialEq, Eq)]
pub struct Header {
    pub name: Vec<u8>,
    pub value: Vec<u8>,
}

pub struct HeaderView {
    pub name: Seq<u8>,
    pub value: Seq<u8>,
}

impl View for Header {
    type V = HeaderView;

    open spec fn view(&self) -> HeaderView {
        HeaderView { name: self.name@, value: self.value@ }
    }
}

/// The head of a request as the grammar cuts it, in bytes.
#[derive(Debug, Clone, PartialEq, Eq)]
pub struct RequestHead {
    pub method: Vec<u8>,
    pub uri: Vec<u8>,
    pub version: Vec<u8>,
    pub headers: Vec<Header>,
}

pub struct RequestHeadView {
    pub method: Seq<u8>,
    pub uri: Seq<u8>,
    pub version: Seq<u8>,
    pub headers: Seq<HeaderView>,
}

/// The headers in `headers`, each by its view.
pub open spec fn headers_view(headers: Seq<Header>) -> Seq<HeaderView> {
    headers.map_values(|h: Header| h@)
}

impl View for RequestHead {
    type V = RequestHeadView;

    open spec fn view(&self) -> RequestHeadView {
        RequestHeadView {
            method: self.method@,
            uri: self.uri@,
            version: self.version@,
            headers: headers_view(self.headers@),
        }
    }
}

/// The places that a request line is cut at.
pub struct RequestLineCut {
    pub method_end: int,
    pub uri_start: int,
    pub uri_end: int,
    pub version_start: int,
    pub version_end: int,
    pub next: int,
}

/// Where the request line at the start of `data` is cut, if one stands
/// there: a method, spaces, a target, spaces, `HTTP/` and a version, and a
/// line ending.
pub open spec fn request_line(data: Seq<u8>) -> Option<RequestLineCut> {
    match run(data, 0, ByteClass::Token) {
        None => None,
        Some(method_end) => match run(data, method_end, ByteClass::Space) {
            None => None,
            Some(uri_start) => match run(data, uri_start, ByteClass::NotSpace) {
                None => None,
                Some(uri_end) => match run(data, uri_end, ByteClass::Space) {
                    None => None,
                    Some(tag_start) => match version_tag(data, tag_start) {
                        None => None,
                        Some(version_start) => match run(data, version_start, ByteClass::Version) {
                            None => None,
                            Some(version_end) => match line_ending(data, version_end) {
                                None => None,
                                Some(next) => Some(
                                    RequestLineCut {
                                        method_end,
                                        uri_start,
                                        uri_end,
                                        version_start,
                                        version_end,
                                        next,
                                    },
                                ),
                            },
                        },
                    },
                },
            },
        },
    }
}

/// Where the value line at `from` starts, ends and is followed, if one
/// stands there: spaces or tabs, a value that is not empty, and a line
/// ending.
pub open spec fn value_line(data: Seq<u8>, from: int) -> Option<(int, int, int)> {
    match run(data, from, ByteClass::HorizontalSpace) {
        None => None,
        Some(start) => match run(data, start, ByteClass::NotLineEnding) {
            None => None,
            Some(end) => match line_ending(data, end) {
                None => None,
                Some(next) => Some((start, end, next)),
            },
        },
    }
}

/// A value line lies within the data and is not empty.
pub proof fn lemma_value_line_bounds(data: Seq<u8>, from: int)
    requires
        0 <= from <= data.len(),
    ensures
        match value_line(data, from) {
            Some((start, end, next)) => from < start < end < next <= data.len(),
            None => true,
        },
{
    lemma_run_end_bounds(data, from, ByteClass::HorizontalSpace);
    let start = run_end(data, from, ByteClass::HorizontalSpace);
    lemma_run_end_bounds(data, start, ByteClass::NotLineEnding);
}

/// The values of the value lines that follow one another from `from` on,
/// joined, and the place behind the last of them.
pub open spec fn value_lines(data: Seq<u8>, from: int) -> (Seq<u8>, int)
    decreases data.len() - from,
    when 0 <= from <= data.len()
{
    match value_line(data, from) {
        Some((start, end, next)) => {
            proof {
                lemma_value_line_bounds(data, from);
            }
            let rest = value_lines(data, next);
            (data.subrange(start, end) + rest.0, rest.1)
        },
        None => (Seq::empty(), from),
    }
}

/// The header at `from` and the place behind it, if one stands there: a
/// name, a colon, and one value line or more.
pub open spec fn header(data: Seq<u8>, from: int) -> Option<(HeaderView, int)> {
    match run(data, from, ByteClass::Token) {
        None => None,
        Some(name_end) => if name_end < data.len() && data[name_end] == ':' as u8 && value_line(
            data,
            name_end + 1,
        ) is Some {
            let lines = value_lines(data, name_end + 1);
            Some((HeaderView { name: data.subrange(from, name_end), value: lines.0 }, lines.1))
        } else {
            None
        },
    }
}

/// The value lines from a place within the data end within the data.
pub proof fn lemma_value_lines_bounds(data: Seq<u8>, from: int)
    requires
        0 <= from <= data.len(),
    ensures
        from <= value_lines(data, from).1 <= data.len(),
        value_line(data, from) is Some ==> from < value_lines(data, from).1,
    decreases data.len() - from,
{
    lemma_value_line_bounds(data, from);
    match value_line(data, from) {
        Some((start, end, next)) => {
            lemma_value_lines_bounds(data, next);
        },
        None => {},
    }
}

/// A header lies within the data and is not empty.
pub proof fn lemma_header_bounds(data: Seq<u8>, from: int)
    requires
        0 <= from <= data.len(),
    ensures
        match header(data, from) {
            Some((_, next)) => from < next <= data.len(),
            None => true,
        },
{
    lemma_run_end_bounds(data, from, ByteClass::Token);
    let name_end = run_end(data, from, ByteClass::Token);
    if name_end < data.len() {
        lemma_value_lines_bounds(data, name_end + 1);
    }
}

/// The headers that follow one another from `from` on, and the place behind
/// the last of them.
pub open spec fn headers(data: Seq<u8>, from: int) -> (Seq<HeaderView>, int)
    decreases data.len() - from,
    when 0 <= from <= data.len()
{
    match header(data, from) {
        Some((first, next)) => {
            proof {
                lemma_header_bounds(data, from);
            }
            let rest = headers(data, next);
            (seq![first] + rest.0, rest.1)
        },
        None => (Seq::empty(), from),
    }
}

/// The head of the request at the start of `data` and its length in bytes,
/// if one stands there: a request line, one header or more, and a line
/// ending. What follows the head is not looked at.
pub open spec fn request(data: Seq<u8>) -> Option<(RequestHeadView, int)> {
    match request_line(data) {
        None => None,
        Some(cut) => {
            let found = headers(data, cut.next);
            if found.0.len() == 0 {
                None
            } else {
                match line_ending(data, found.1) {
                    None => None,
                    Some(next) => Some(
                        (
                            RequestHeadView {
                                method: data.subrange(0, cut.method_end),
                                uri: data.subrange(cut.uri_start, cut.uri_end),
                                version: data.subrange(cut.version_start, cut.version_end),
                                headers: found.0,
                            },
                            next,
                        ),
                    ),
                }
            }
        },
    }
}

/// The bytes of `data` from `from` up to `to`, behind those of `acc`.
fn append(acc: &mut Vec<u8>, data: &[u8], from: usize, to: usize)
    requires
        from <= to <= data.len(),
    ensures
        final(acc)@ == old(acc)@ + data@.subrange(from as int, to as int),
{
    let mut i: usize = from;
    while i < to
        invariant
            from <= i <= to <= data.len(),
            acc@ == old(acc)@ + data@.subrange(from as int, i as int),
        decreases to - i,
    {
        acc.push(data[i]);
        i += 1;
        assert(acc@ =~= old(acc)@ + data@.subrange(from as int, i as int));
    }
}

fn parse_value_line(data: &[u8], from: usize) -> (r: Option<(usize, usize, usize)>)
    requires
        from <= data.len(),
    ensures
        match r {
            Some((start, end, next)) => value_line(data@, from as int) == Some(
                (start as int, end as int, next as int),
            ) && from < start < end < next <= data.len(),
            None => value_line(data@, from as int) is None,
        },
{
    proof {
        lemma_value_line_bounds(data@, from as int);
    }
    let start = match take_run(data, from, ByteClass::HorizontalSpace) {
        Some(start) => start,
        None => return None,
    };
    let end = match take_run(data, start, ByteClass::NotLineEnding) {
        Some(end) => end,
        None => return None,
    };
    match take_line_ending(data, end) {
        Some(next) => Some((start, end, next)),
        None => None,
    }
}

fn parse_value_lines(data: &[u8], from: usize) -> (r: (Vec<u8>, usize))
    requires
        from <= data.len(),
    ensures
        (r.0@, r.1 as int) == value_lines(data@, from as int),
        from <= r.1 <= data.len(),
{
    let mut value: Vec<u8> = Vec::new();
    let mut at: usize = from;
    loop
        invariant
            from <= at <= data.len(),
            value_lines(data@, from as int) == (
                value@ + value_lines(data@, at as int).0,
                value_lines(data@, at as int).1,
            ),
        ensures
            from <= at <= data.len(),
            (value@, at as int) == value_lines(data@, from as int),
        decreases data.len() - at,
    {
        match parse_value_line(data, at) {
            Some((start, end, next)) => {
                let ghost before = value@;
                append(&mut value, data, start, end);
                assert(before + (data@.subrange(start as int, end as int) + value_lines(
                    data@,
                    next as int,
                ).0) =~= value@ + value_lines(data@, next as int).0);
                at = next;
            },
            None => {
                assert(value@ + Seq::<u8>::empty() =~= value@);
                break ;
            },
        }
    }
    (value, at)
}

fn parse_header(data: &[u8], from: usize) -> (r: Option<(Header, usize)>)
    requires
        from <= data.len(),
    ensures
        match r {
            Some((found, next)) => header(data@, from as int) == Some((found@, next as int))
                && from < next <= data.len(),
            None => header(data@, from as int) is None,
        },
{
    proof {
        lemma_header_bounds(data@, from as int);
    }
    let name_end = match take_run(data, from, ByteClass::Token) {
        Some(end) => end,
        None => return None,
    };
    if name_end >= data.len() || data[name_end] != ':' as u8 {
        return None;
    }
    if parse_value_line(data, name_end + 1).is_none() {
        return None;
    }
    let (value, next) = parse_value_lines(data, name_end + 1);
    let name = slice_to_vec(slice_subrange(data, from, name_end));
    Some((Header { name, value }, next))
}

fn parse_headers(data: &[u8], from: usize) -> (r: (Vec<Header>, usize))
    requires
        from <= data.len(),
    ensures
        (headers_view(r.0@), r.1 as int) == headers(data@, from as int),
        from <= r.1 <= data.len(),
{
    let mut found: Vec<Header> = Vec::new();
    let mut at: usize = from;
    loop
        invariant
            from <= at <= data.len(),
            headers(data@, from as int) == (
                headers_view(found@) + headers(data@, at as int).0,
                headers(data@, at as int).1,
            ),
        ensures
            from <= at <= data.len(),
            (headers_view(found@), at as int) == headers(data@, from as int),
        decreases data.len() - at,
    {
        match parse_header(data, at) {
            Some((one, next)) => {
                let ghost before = found@;
                let ghost first = one@;
                found.push(one);
                assert(headers_view(found@) =~= headers_view(before) + seq![first]);
                assert(headers_view(before) + (seq![first] + headers(data@, next as int).0)
                    =~= headers_view(found@) + headers(data@, next as int).0);
                at = next;
            },
            None => {
                assert(headers_view(found@) + Seq::<HeaderView>::empty() =~= headers_view(
                    found@,
                ));
                break ;
            },
        }
    }
    (found, at)
}

fn parse_request_line(data: &[u8]) -> (r: Option<(usize, usize, usize, usize, usize, usize)>)
    ensures
        match r {
            Some(cut) => request_line(data@) == Some(
                RequestLineCut {
                    method_end: cut.0 as int,
                    uri_start: cut.1 as int,
                    uri_end: cut.2 as int,
                    version_start: cut.3 as int,
                    version_end: cut.4 as int,
                    next: cut.5 as int,
                },
            ) && cut.0 <= cut.1 <= cut.2 <= cut.3 <= cut.4 <= cut.5 <= data.len(),
            None => request_line(data@) is None,
        },
{
    let method_end = match take_run(data, 0, ByteClass::Token) {
        Some(end) => end,
        None => return None,
    };
    let uri_start = match take_run(data, method_end, ByteClass::Space) {
        Some(end) => end,
        None => return None,
    };
    let uri_end = match take_run(data, uri_start, ByteClass::NotSpace) {
        Some(end) => end,
        None => return None,
    };
    let tag_start = match take_run(data, uri_end, ByteClass::Space) {
        Some(end) => end,
        None => return None,
    };
    let version_start = match take_version_tag(data, tag_start) {
        Some(end) => end,
        None => return None,
    };
    let version_end = match take_run(data, version_start, ByteClass::Version) {
        Some(end) => end,
        None => return None,
    };
    match take_line_ending(data, version_end) {
        Some(next) => Some((method_end, uri_start, uri_end, version_start, version_end, next)),
        None => None,
    }
}

/// Cuts the head of an HTTP request off the start of `data`.
///
/// Returns the head and its length in bytes, or `None` where `data` does not
/// start with a request line, one header or more, and an empty line.
pub fn parse_request(data: &[u8]) -> (r: Option<(RequestHead, usize)>)
    ensures
        match r {
            Some((head, len)) => request(data@) == Some((head@, len as int)) && len
                <= data.len(),
            None => request(data@) is None,
        },
{
    let cut = match parse_request_line(data) {
        Some(cut) => cut,
        None => return None,
    };
    let (found, at) = parse_headers(data, cut.5);
    if found.len() == 0 {
        return None;
    }
    match take_line_ending(data, at) {
        Some(next) => {
            let head = RequestHead {
                method: slice_to_vec(slice_subrange(data, 0, cut.0)),
                uri: slice_to_vec(slice_subrange(data, cut.1, cut.2)),
                version: slice_to_vec(slice_subrange(data, cut.3, cut.4)),
                headers: found,
            };
            Some((head, next))
        },
        None => None,
    }
}

} // verus!
