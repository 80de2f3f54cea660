//! A response modifier that compresses with raw deflate unconditionally,
//! without consulting the request.

use vstd::prelude::*;
use vstd::string::StringExecFns;

verus! {

use crate::compression_modifier::CompressionModifier;
use crate::deflate::{deflate_bytes, deflate_compress};
use crate::headers::{Encoding, Response, ResponseView};

/// Rewrites a response in place to carry its deflate-compressed body.
pub struct DeflateWriter;

impl DeflateWriter {
    /// Compresses the response's body with raw deflate, or reports the
    /// absence of one.
    pub fn get_compressed_body(&self, res: &Response) -> (r: Result<Vec<u8>, String>)
        ensures
            res@.body matches Some(body) ==> (r matches Ok(compressed) && compressed@
                == deflate_bytes(body)),
            res@.body is None ==> (r matches Err(message) && message@
                == "Error compressing body: No response body present."@),
    {
        match &res.body {
            Some(body) => Ok(deflate_compress(body)),
            None => Err(String::from_str("Error compressing body: No response body present.")),
        }
    }

    /// On a response with a body: announces `"deflate"` as the sole
    /// `Content-Encoding`, replaces the body with its deflate stream and
    /// declares that stream's length. A bodiless response stays unchanged.
    ///
    /// Unlike the negotiating hook, which strips `Content-Length`, a writer
    /// knows the compressed length and declares it.
    pub fn modify(self, res: &mut Response)
        ensures
            old(res)@.body matches Some(body) ==> final(res)@ == (ResponseView {
                content_encoding: Some(seq![Encoding::Deflate]),
                content_length: Some(deflate_bytes(body).len() as u64),
                body: Some(deflate_bytes(body)),
            }),
            old(res)@.body is None ==> final(res)@ == old(res)@,
    {
        let compressed = match self.get_compressed_body(res) {
            Ok(compressed) => compressed,
            Err(_) => {
                return ;
            },
        };
        res.content_encoding = Some(vec![Encoding::Deflate]);
        res.content_length = Some(compressed.len() as u64);
        res.body = Some(compressed);
    }
}

impl CompressionModifier for DeflateWriter {
    open spec fn header_spec(&self) -> Encoding {
        Encoding::Deflate
    }

    open spec fn encoded_spec(&self, body: Seq<u8>) -> Seq<u8> {
        deflate_bytes(body)
    }

    fn get_header(&self) -> (header: Encoding) {
        Encoding::Deflate
    }

    fn compress_body(&self, body: &Vec<u8>) -> (r: Result<Vec<u8>, String>) {
        Ok(deflate_compress(body))
    }
}

} // verus!
