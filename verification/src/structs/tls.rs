//! What is kept of a TLS handshake.
use vstd::prelude::*;

verus! {

/// A TLS ClientHello, with the server name that it asks for, if it names one.
#[derive(Debug, Clone, PartialEq, Eq)]
pub struct ClientHello {
    pub hostname: Option<String>,
}

pub struct ClientHelloView {
    pub hostname: Option<Seq<char>>,
}

impl View for ClientHello {
    type V = ClientHelloView;

    open spec fn view(&self) -> ClientHelloView {
        ClientHelloView {
            hostname: match self.hostname {
                Some(name) => Some(name@),
                None => None,
            },
        }
    }
}

impl ClientHello {
    pub fn new(hostname: Option<String>) -> (hello: ClientHello)
        ensures
            hello.hostname == hostname,
    {
        ClientHello { hostname }
    }
}

} // verus!
