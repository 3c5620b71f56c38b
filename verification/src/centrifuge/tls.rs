//! The sniffer for TLS ClientHello messages.
use crate::handshake::{
    extension, extension_len, messages_view, names_view, record_messages, tls_extension,
    tls_messages, Extension, ExtensionView, Message, MessageView,
};
use crate::structs::tls::{ClientHello, ClientHelloView};
use crate::structs::{result_view, CentrifugeError};
use crate::text::{text_of, utf8_text};
use vstd::prelude::*;

verus! {

/// Whether `data` starts as a TLS record does: with one of the five content
/// types and a version of the form 3.x.
pub open spec fn looks_like_record(data: Seq<u8>) -> bool {
    data.len() >= 5 && 20 <= data[0] <= 24 && data[1] == 3
}

/// The extension list of the first ClientHello among `messages`: `None`
/// where there is no ClientHello, `Some(None)` where the first one has no
/// extension list.
pub open spec fn first_client_hello(messages: Seq<MessageView>) -> Option<Option<Seq<u8>>>
    decreases messages.len(),
{
    if messages.len() == 0 {
        None
    } else {
        match messages.first() {
            MessageView::ClientHello(extensions) => Some(extensions),
            MessageView::Other => first_client_hello(messages.drop_first()),
        }
    }
}

/// The first name of the first server name indication among the extensions
/// in `extensions` that lists a name. The search ends without a name at the
/// first extension that cannot be read.
pub open spec fn server_name(extensions: Seq<u8>) -> Option<Seq<u8>>
    decreases extensions.len(),
{
    if extension_len(extensions) > extensions.len() {
        None
    } else {
        match extension(extensions) {
            None => None,
            Some(ExtensionView::ServerNames(names)) => if names.len() > 0 {
                Some(names[0])
            } else {
                server_name(extensions.skip(extension_len(extensions)))
            },
            Some(ExtensionView::Other) => server_name(extensions.skip(extension_len(extensions))),
        }
    }
}

/// The ClientHello that asks for the server `name`. A name that is not text
/// is a ClientHello that cannot be read.
pub open spec fn hello_for(name: Option<Seq<u8>>) -> Result<ClientHelloView, CentrifugeError> {
    match name {
        None => Ok(ClientHelloView { hostname: None }),
        Some(bytes) => match text_of(bytes) {
            Some(text) => Ok(ClientHelloView { hostname: Some(text) }),
            None => Err(CentrifugeError::ParsingError),
        },
    }
}

/// The ClientHello among `messages`. A record without one is not what this
/// sniffer looks for.
pub open spec fn hello_among(messages: Seq<MessageView>) -> Result<
    ClientHelloView,
    CentrifugeError,
> {
    match first_client_hello(messages) {
        None => Err(CentrifugeError::WrongProtocol),
        Some(None) => hello_for(None),
        Some(Some(extensions)) => hello_for(server_name(extensions)),
    }
}

/// What `extract` makes of `data`.
///
/// Bytes that cannot be read as a record are a malformed record where they
/// start as a record does, and not TLS otherwise.
pub open spec fn extracted(data: Seq<u8>) -> Result<ClientHelloView, CentrifugeError> {
    match record_messages(data) {
        None => if looks_like_record(data) {
            Err(CentrifugeError::ParsingError)
        } else {
            Err(CentrifugeError::WrongProtocol)
        },
        Some(messages) => hello_among(messages),
    }
}

/// The ClientHello that asks for the server `name`.
pub fn hello_from_name(name: Option<Vec<u8>>) -> (r: Result<ClientHello, CentrifugeError>)
    ensures
        result_view(r) == hello_for(
            match name {
                Some(bytes) => Some(bytes@),
                None => None,
            },
        ),
{
    match name {
        None => Ok(ClientHello::new(None)),
        Some(bytes) => match utf8_text(bytes.as_slice()) {
            Some(text) => Ok(ClientHello::new(Some(text))),
            None => Err(CentrifugeError::ParsingError),
        },
    }
}

/// Walks the extensions in `extensions` up to the first server name.
fn find_server_name(extensions: &[u8]) -> (r: Option<Vec<u8>>)
    ensures
        match r {
            Some(name) => server_name(extensions@) == Some(name@),
            None => server_name(extensions@) is None,
        },
{
    let mut rest: &[u8] = extensions;
    loop
        invariant
            server_name(extensions@) == server_name(rest@),
        decreases rest@.len(),
    {
        match tls_extension(rest) {
            None => {
                return None;
            },
            Some((Extension::ServerNames(names), next)) => {
                if names.len() > 0 {
                    assert(names_view(names@)[0] == names@[0]@);
                    return Some(names[0].clone());
                }
                assert(names_view(names@).len() == 0);
                rest = next;
            },
            Some((Extension::Other, next)) => {
                rest = next;
            },
        }
    }
}

/// Picks the first ClientHello out of the messages of a record and reads
/// the server name off its extensions.
pub fn hello_from_messages(messages: &Vec<Message>) -> (r: Result<ClientHello, CentrifugeError>)
    ensures
        result_view(r) == hello_among(messages_view(messages@)),
{
    let ghost all = messages_view(messages@);
    let mut i: usize = 0;
    assert(all.skip(0) =~= all);
    while i < messages.len()
        invariant
            i <= messages.len(),
            all == messages_view(messages@),
            first_client_hello(all) == first_client_hello(all.skip(i as int)),
        decreases messages.len() - i,
    {
        assert(all.skip(i as int).first() == messages@[i as int]@);
        assert(all.skip(i as int).drop_first() =~= all.skip(i + 1));
        match &messages[i] {
            Message::ClientHello(Some(extensions)) => {
                return hello_from_name(find_server_name(extensions.as_slice()));
            },
            Message::ClientHello(None) => {
                return hello_from_name(None);
            },
            Message::Other => {},
        }
        i += 1;
    }
    Err(CentrifugeError::WrongProtocol)
}

/// Reads the TLS record at the start of `remaining` and the ClientHello in it.
pub fn extract(remaining: &[u8]) -> (r: Result<ClientHello, CentrifugeError>)
    ensures
        result_view(r) == extracted(remaining@),
{
    match tls_messages(remaining) {
        Some(messages) => hello_from_messages(&messages),
        None => {
            if remaining.len() >= 5 && 20 <= remaining[0] && remaining[0] <= 24 && remaining[1]
                == 3 {
                Err(CentrifugeError::ParsingError)
            } else {
                Err(CentrifugeError::WrongProtocol)
            }
        },
    }
}

} // verus!
