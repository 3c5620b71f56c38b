//! TLS records, parsed by the `tls-parser` crate.
//!
//! What that crate makes of a record fills pages of its source, so the
//! contracts here give its results names and say of them only what its
//! source plainly shows. Verus does not look into these bodies.
use crate::structs::be16;
use vstd::prelude::*;

verus! {

/// A message of a TLS record, as far as decoding goes on from it.
#[derive(Debug, Clone, PartialEq, Eq)]
pub enum Message {
    /// A ClientHello with the bytes of its extension list, if it has one.
    ClientHello(Option<Vec<u8>>),
    Other,
}

pub enum MessageView {
    ClientHello(Option<Seq<u8>>),
    Other,
}

impl View for Message {
    type V = MessageView;

    open spec fn view(&self) -> MessageView {
        match self {
            Message::ClientHello(Some(extensions)) => MessageView::ClientHello(Some(extensions@)),
            Message::ClientHello(None) => MessageView::ClientHello(None),
            Message::Other => MessageView::Other,
        }
    }
}

/// The messages in `messages`, each by its view.
pub open spec fn messages_view(messages: Seq<Message>) -> Seq<MessageView> {
    messages.map_values(|m: Message| m@)
}

/// A TLS extension, as far as decoding goes on from it.
#[derive(Debug, Clone, PartialEq, Eq)]
pub enum Extension {
    /// A server name indication with the names that it lists.
    ServerNames(Vec<Vec<u8>>),
    Other,
}

pub enum ExtensionView {
    ServerNames(Seq<Seq<u8>>),
    Other,
}

/// The names in `names`, each by its view.
pub open spec fn names_view(names: Seq<Vec<u8>>) -> Seq<Seq<u8>> {
    names.map_values(|n: Vec<u8>| n@)
}

impl View for Extension {
    type V = ExtensionView;

    open spec fn view(&self) -> ExtensionView {
        match self {
            Extension::ServerNames(names) => ExtensionView::ServerNames(names_view(names@)),
            Extension::Other => ExtensionView::Other,
        }
    }
}

/// The messages that `tls_parser::parse_tls_plaintext` finds in the record
/// at the start of `data`, or `None` where it fails.
pub uninterp spec fn record_messages(data: Seq<u8>) -> Option<Seq<MessageView>>;

/// The extension that `tls_parser::parse_tls_extension` finds at the start
/// of `data`, or `None` where it fails.
pub uninterp spec fn extension(data: Seq<u8>) -> Option<ExtensionView>;

/// Number of bytes that the extension at the start of `data` takes: two of
/// type, two of length, and as many of content as the length says.
pub open spec fn extension_len(data: Seq<u8>) -> int {
    4 + be16(data, 2)
}

/// `tls_parser::parse_tls_plaintext`, on one record. Of each message it is
/// kept whether it is a ClientHello, and of a ClientHello the bytes of its
/// extension list.
#[verifier::external_body]
pub(crate) fn tls_messages(data: &[u8]) -> (r: Option<Vec<Message>>)
    ensures
        match r {
            Some(messages) => record_messages(data@) == Some(messages_view(messages@)),
            None => record_messages(data@) is None,
        },
{
    match tls_parser::parse_tls_plaintext(data) {
        Ok((_, record)) => Some(record.msg.into_iter().map(|m| match m {
            tls_parser::TlsMessage::Handshake(tls_parser::TlsMessageHandshake::ClientHello(h)) =>
                Message::ClientHello(h.ext.map(|bytes| bytes.to_vec())),
            _ => Message::Other,
        }).collect()),
        Err(_) => None,
    }
}

/// `tls_parser::parse_tls_extension`, on the extension at the start of
/// `data`. It reads a type and a length of two bytes each and takes as many
/// bytes as the length says before it looks at them, so where it succeeds
/// the rest starts behind those. Of the extension it is kept whether it is a
/// server name indication, and of that the names.
#[verifier::external_body]
pub(crate) fn tls_extension(data: &[u8]) -> (r: Option<(Extension, &[u8])>)
    ensures
        match r {
            Some((found, rest)) => extension(data@) == Some(found@) && extension_len(data@)
                <= data@.len() && rest@ == data@.skip(extension_len(data@)),
            None => extension(data@) is None,
        },
{
    match tls_parser::parse_tls_extension(data) {
        Ok((rest, tls_parser::TlsExtension::SNI(names))) => Some((
            Extension::ServerNames(names.into_iter().map(|name| name.1.to_vec()).collect()),
            rest,
        )),
        Ok((rest, _)) => Some((Extension::Other, rest)),
        Err(_) => None,
    }
}

} // verus!
