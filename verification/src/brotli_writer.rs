//! A response modifier that compresses with brotli unconditionally, without
//! consulting the request.

use vstd::prelude::*;
use vstd::string::StringExecFns;

verus! {

use crate::br::{brotli_bytes, brotli_compress};
use crate::compression_modifier::CompressionModifier;
use crate::headers::{Encoding, Response, ResponseView};

/// Rewrites a response in place to carry its brotli-compressed body.
pub struct BrotliWriter;

impl BrotliWriter {
    /// Compresses the response's body with brotli, or reports the absence
    /// of one.
    pub fn get_compressed_body(&self, res: &Response) -> (r: Result<Vec<u8>, String>)
        ensures
            res@.body matches Some(body) ==> (r matches Ok(compressed) && compressed@
                == brotli_bytes(body)),
            res@.body is None ==> (r matches Err(message) && message@
                == "Error compressing body: No response body present."@),
    {
        match &res.body {
            Some(body) => Ok(brotli_compress(body)),
            None => Err(String::from_str("Error compressing body: No response body present.")),
        }
    }

    /// On a response with a body: announces `"br"` as the sole
    /// `Content-Encoding`, replaces the body with its brotli stream and
    /// declares that stream's length. A bodiless response stays unchanged.
    ///
    /// Unlike the negotiating hook, which strips `Content-Length`, a writer
    /// knows the compressed length and declares it.
    pub fn modify(self, res: &mut Response)
        ensures
            old(res)@.body matches Some(body) ==> final(res)@ == (ResponseView {
                content_encoding: Some(seq![Encoding::Brotli]),
                content_length: Some(brotli_bytes(body).len() as u64),
                body: Some(brotli_bytes(body)),
            }),
            old(res)@.body is None ==> final(res)@ == old(res)@,
    {
        let compressed = match self.get_compressed_body(res) {
            Ok(compressed) => compressed,
            Err(_) => {
                return ;
            },
        };
        res.content_encoding = Some(vec![Encoding::Brotli]);
        res.content_length = Some(compressed.len() as u64);
        res.body = Some(compressed);
    }
}

impl CompressionModifier for BrotliWriter {
    open spec fn header_spec(&self) -> Encoding {
        Encoding::Brotli
    }

    open spec fn encoded_spec(&self, body: Seq<u8>) -> Seq<u8> {
        brotli_bytes(body)
    }

    fn get_header(&self) -> (header: Encoding) {
        Encoding::Brotli
    }

    fn compress_body(&self, body: &Vec<u8>) -> (r: Result<Vec<u8>, String>) {
        Ok(brotli_compress(body))
    }
}

} // verus!
