//! The raw deflate coding: trusted bindings to `libflate::deflate`, and the
//! adapter built on them.

use vstd::prelude::*;
use vstd::string::StringExecFns;

verus! {

use crate::headers::{Encoding, Response};
use crate::writer::ContentEncoding;

/// The raw deflate stream that `libflate::deflate::Encoder` writes for a
/// given input with the default options; a function of the input alone.
pub uninterp spec fn deflate_bytes(body: Seq<u8>) -> Seq<u8>;

/// Relies on `libflate::deflate::Encoder`: writing the whole input and
/// finishing the encoder leaves the raw deflate stream, with no zlib wrapper,
/// in the sink. Writes into a `Vec` sink do not fail.
#[verifier::external_body]
pub(crate) fn deflate_compress(body: &Vec<u8>) -> (r: Vec<u8>)
    ensures
        r@ == deflate_bytes(body@),
{
    let mut encoder = libflate::deflate::Encoder::new(Vec::new());
    std::io::Write::write_all(&mut encoder, body.as_slice()).unwrap();
    encoder.finish().into_result().unwrap()
}

/// Decoding succeeds on every deflate stream of the encoder above and yields
/// the stream's original input.
pub open spec fn inverts_deflate(data: Seq<u8>, r: Option<Vec<u8>>) -> bool {
    forall|body: Seq<u8>| data == deflate_bytes(body) ==> (r matches Some(plain) && plain@ == body)
}

/// Relies on `libflate::deflate::Decoder`: reading it to the end recovers
/// exactly the bytes whose compression the input stream is.
#[verifier::external_body]
pub(crate) fn deflate_decompress(data: &Vec<u8>) -> (r: Option<Vec<u8>>)
    ensures
        inverts_deflate(data@, r),
{
    let mut decoder = libflate::deflate::Decoder::new(data.as_slice());
    let mut out: Vec<u8> = Vec::new();
    match std::io::Read::read_to_end(&mut decoder, &mut out) {
        Ok(_) => Some(out),
        Err(_) => None,
    }
}

/// The raw deflate encoder adapter.
pub struct Deflate;

impl ContentEncoding for Deflate {
    open spec fn header_spec(&self) -> Encoding {
        Encoding::Deflate
    }

    open spec fn encoded_spec(&self, body: Seq<u8>) -> Seq<u8> {
        deflate_bytes(body)
    }

    fn get_header(&self) -> (header: Encoding) {
        Encoding::Deflate
    }

    fn compress_body(&self, res: &Response) -> (r: Result<Vec<u8>, String>) {
        match &res.body {
            Some(body) => Ok(deflate_compress(body)),
            None => Err(String::from_str("Error compressing body: No response body present.")),
        }
    }
}

} // verus!
