use vstd::prelude::*;

verus! {

/// The protocol version a request was made with; it is carried unchanged
/// from the inbound request to the outbound one.
#[derive(Clone, Copy, Debug, PartialEq, Eq, Structural)]
pub enum HttpVersion {
    Http09,
    Http10,
    Http11,
    Http2,
    Http3,
}

/// A request as the gateway receives it. Header entries keep their order
/// and may repeat a name; the body is never read.
#[derive(Debug)]
pub struct Request<B> {
    pub method: String,
    pub path: String,
    pub query: Option<String>,
    pub version: HttpVersion,
    pub headers: Vec<(String, Vec<u8>)>,
    pub body: B,
}

/// A request rebuilt for a backend: `uri` is absolute.
#[derive(Debug)]
pub struct OutboundRequest<B> {
    pub uri: String,
    pub method: String,
    pub version: HttpVersion,
    pub headers: Vec<(String, Vec<u8>)>,
    pub body: B,
}

/// A response that the gateway writes itself.
#[derive(Debug)]
pub struct Response {
    pub status: u16,
    pub body: String,
}

/// What to do with an inbound request: answer it at once, or send the
/// rebuilt request to a backend.
#[derive(Debug)]
pub enum Dispatch<B> {
    Respond(Response),
    Forward(OutboundRequest<B>),
}

/// What the caller finally receives for a forwarded request: the backend's
/// own response, or one that the gateway wrote.
#[derive(Debug)]
pub enum Reply<R> {
    Passthrough(R),
    Synthesized(Response),
}

} // verus!
