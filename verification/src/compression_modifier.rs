//! The interface a user-supplied compression step implements, and the
//! pipeline's way of applying one to a response.

use vstd::prelude::*;

verus! {

use crate::headers::{Encoding, Response, ResponseView};

/// A compression step that responds to a specific header token: it
/// advertises that token and compresses body bytes.
///
/// Unlike the built-in adapters, an implementation may fail; a failing step
/// leaves the response untouched when applied.
pub trait CompressionModifier {
    /// The `Content-Encoding` token this step advertises.
    spec fn header_spec(&self) -> Encoding;

    /// The bytes this step produces for a given body when it succeeds.
    spec fn encoded_spec(&self, body: Seq<u8>) -> Seq<u8>;

    /// Returns the encoding header token this step responds to.
    fn get_header(&self) -> (header: Encoding)
        ensures
            header == self.header_spec(),
    ;

    /// Returns the compressed body bytes, or an error message.
    fn compress_body(&self, body: &Vec<u8>) -> (r: Result<Vec<u8>, String>)
        ensures
            r matches Ok(compressed) ==> compressed@ == self.encoded_spec(body@),
    ;
}

/// What applying a step leaves of a response when the step succeeds: its
/// token as the sole `Content-Encoding`, the compressed bytes as the body,
/// and their length as the declared `Content-Length`.
pub open spec fn modified_response<M: CompressionModifier>(
    modifier: &M,
    body: Seq<u8>,
) -> ResponseView {
    ResponseView {
        content_encoding: Some(seq![modifier.header_spec()]),
        content_length: Some(modifier.encoded_spec(body).len() as u64),
        body: Some(modifier.encoded_spec(body)),
    }
}

/// Carries a compression step's outcome into the response: compressed bytes
/// replace the body, their length becomes the declared `Content-Length`, and
/// the given token the sole `Content-Encoding`; an error leaves the response
/// untouched. Returns whether the rewrite happened.
pub fn apply_compression_result(
    header: Encoding,
    encoded: Result<Vec<u8>, String>,
    res: &mut Response,
) -> (applied: bool)
    ensures
        encoded matches Ok(compressed) ==> (applied && final(res)@ == (ResponseView {
            content_encoding: Some(seq![header]),
            content_length: Some(compressed@.len() as u64),
            body: Some(compressed@),
        })),
        encoded matches Err(_) ==> (!applied && final(res)@ == old(res)@),
{
    match encoded {
        Ok(compressed) => {
            res.content_encoding = Some(vec![header]);
            res.content_length = Some(compressed.len() as u64);
            res.body = Some(compressed);
            true
        },
        Err(_) => false,
    }
}

/// Applies a compression step to a response and says whether it took: on a
/// response with a body whose compression succeeds, rewrites headers and
/// body; a bodiless response, or a failing step, leaves the response
/// unchanged and the application reports that nothing happened.
pub fn apply_modifier<M: CompressionModifier>(modifier: &M, res: &mut Response) -> (applied: bool)
    ensures
        applied ==> (old(res)@.body matches Some(body) && final(res)@ == modified_response(
            modifier,
            body,
        )),
        !applied ==> final(res)@ == old(res)@,
{
    let encoded = match &res.body {
        Some(body) => modifier.compress_body(body),
        None => {
            return false;
        },
    };
    let applied = apply_compression_result(modifier.get_header(), encoded, res);
    proof {
        if applied {
            assert(res@ =~~= modified_response(modifier, old(res)@.body->0));
        }
    }
    applied
}

} // verus!
