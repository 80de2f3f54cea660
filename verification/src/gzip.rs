//! The gzip coding: trusted bindings to `libflate::gzip`, and the adapter
//! built on them.

use vstd::prelude::*;
use vstd::string::StringExecFns;

verus! {

use crate::headers::{Encoding, Response};
use crate::writer::ContentEncoding;

/// The gzip stream that `libflate::gzip::Encoder` writes for a given input,
/// with the default compression options and the header's modification-time
/// field pinned to zero. Pinning that one field makes the stream a function
/// of the input alone; the default header would stamp in the current time.
pub uninterp spec fn gzip_bytes(body: Seq<u8>) -> Seq<u8>;

/// Relies on `libflate::gzip::Encoder`: writing the whole input and finishing
/// the encoder leaves the header, the deflated input and the trailer in the
/// sink. Writes into a `Vec` sink do not fail.
#[verifier::external_body]
pub(crate) fn gzip_compress(body: &Vec<u8>) -> (r: Vec<u8>)
    ensures
        r@ == gzip_bytes(body@),
{
    let header = libflate::gzip::HeaderBuilder::new().modification_time(0).finish();
    let options = libflate::gzip::EncodeOptions::new().header(header);
    let mut encoder = libflate::gzip::Encoder::with_options(Vec::new(), options).unwrap();
    std::io::Write::write_all(&mut encoder, body.as_slice()).unwrap();
    encoder.finish().into_result().unwrap()
}

/// Decoding succeeds on every gzip stream of the encoder above and yields
/// the stream's original input.
pub open spec fn inverts_gzip(data: Seq<u8>, r: Option<Vec<u8>>) -> bool {
    forall|body: Seq<u8>| data == gzip_bytes(body) ==> (r matches Some(plain) && plain@ == body)
}

/// Relies on `libflate::gzip::Decoder`: reading it to the end recovers
/// exactly the bytes whose compression the input stream is.
#[verifier::external_body]
pub(crate) fn gzip_decompress(data: &Vec<u8>) -> (r: Option<Vec<u8>>)
    ensures
        inverts_gzip(data@, r),
{
    let mut decoder = match libflate::gzip::Decoder::new(data.as_slice()) {
        Ok(decoder) => decoder,
        Err(_) => return None,
    };
    let mut out: Vec<u8> = Vec::new();
    match std::io::Read::read_to_end(&mut decoder, &mut out) {
        Ok(_) => Some(out),
        Err(_) => None,
    }
}

/// The gzip encoder adapter.
pub struct GZip;

impl ContentEncoding for GZip {
    open spec fn header_spec(&self) -> Encoding {
        Encoding::Gzip
    }

    open spec fn encoded_spec(&self, body: Seq<u8>) -> Seq<u8> {
        gzip_bytes(body)
    }

    fn get_header(&self) -> (header: Encoding) {
        Encoding::Gzip
    }

    fn compress_body(&self, res: &Response) -> (r: Result<Vec<u8>, String>) {
        match &res.body {
            Some(body) => Ok(gzip_compress(body)),
            None => Err(String::from_str("Error compressing body: No response body present.")),
        }
    }
}

} // verus!
