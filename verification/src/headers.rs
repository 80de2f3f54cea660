//! Models of the header values that compression negotiation reads and writes.
//!
//! A response is compressed at most once, so the only headers that matter are
//! the request's `Accept-Encoding` list, and the response's `Content-Encoding`
//! and `Content-Length`. The body is carried as its bytes.

use vstd::prelude::*;

verus! {

/// A single content-coding token as it appears in an `Accept-Encoding` or
/// `Content-Encoding` header. Tokens other than the three supported codings
/// and the wildcard are carried through untouched and never selected.
#[derive(Clone, PartialEq, Eq, Debug)]
pub enum Encoding {
    /// The token `"br"`.
    Brotli,
    /// The token `"gzip"`.
    Gzip,
    /// The token `"deflate"`.
    Deflate,
    /// The token `"*"`; recognized only in requests, where it stands for
    /// any coding and maps to gzip by server policy.
    Wildcard,
    /// Any other token, kept verbatim.
    Other(String),
}

/// One entry of an `Accept-Encoding` header: a token and its quality weight.
///
/// The quality is in thousandths, so `1000` stands for `q=1.0` and `0` for an
/// explicit refusal of the coding.
#[derive(Clone, PartialEq, Eq, Debug)]
pub struct QualityItem {
    pub item: Encoding,
    pub quality: u16,
}

/// The request headers that negotiation reads.
pub struct RequestHeaders {
    /// The parsed `Accept-Encoding` list, or `None` when the request does
    /// not carry the header.
    pub accept_encoding: Option<Vec<QualityItem>>,
}

/// A snapshot of an outgoing response: the two headers that compression
/// inspects or rewrites, and the body bytes.
pub struct Response {
    /// The `Content-Encoding` tokens already set on the response, if any.
    pub content_encoding: Option<Vec<Encoding>>,
    /// The declared `Content-Length`, if any.
    pub content_length: Option<u64>,
    /// The body bytes, or `None` for a bodiless response.
    pub body: Option<Vec<u8>>,
}

/// The mathematical value of a `RequestHeaders`.
#[verifier::ext_equal]
pub ghost struct RequestHeadersView {
    pub accept_encoding: Option<Seq<QualityItem>>,
}

/// The mathematical value of a `Response`.
#[verifier::ext_equal]
pub ghost struct ResponseView {
    pub content_encoding: Option<Seq<Encoding>>,
    pub content_length: Option<u64>,
    pub body: Option<Seq<u8>>,
}

impl View for RequestHeaders {
    type V = RequestHeadersView;

    open spec fn view(&self) -> RequestHeadersView {
        RequestHeadersView {
            accept_encoding: match self.accept_encoding {
                Some(items) => Some(items@),
                None => None,
            },
        }
    }
}

impl View for Response {
    type V = ResponseView;

    open spec fn view(&self) -> ResponseView {
        ResponseView {
            content_encoding: match self.content_encoding {
                Some(tokens) => Some(tokens@),
                None => None,
            },
            content_length: self.content_length,
            body: match self.body {
                Some(bytes) => Some(bytes@),
                None => None,
            },
        }
    }
}

} // verus!
