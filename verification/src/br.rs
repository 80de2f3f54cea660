//! The brotli coding: trusted bindings to the `brotli` crate's stream writer
//! and reader, and the adapter built on them.

use vstd::prelude::*;
use vstd::string::StringExecFns;

verus! {

use crate::headers::{Encoding, Response};
use crate::writer::ContentEncoding;

const BUFFER_SIZE: usize = 4096;

const QUALITY: u32 = 8;

const LG_WINDOW_SIZE: u32 = 20;

/// The brotli stream that `brotli::CompressorWriter`, with a 4096-byte
/// buffer, quality 8 and a 2^20-byte window, writes for a given input. With
/// those parameters fixed the stream is a function of the input alone.
pub uninterp spec fn brotli_bytes(body: Seq<u8>) -> Seq<u8>;

/// Relies on `brotli::CompressorWriter`: writing the whole input and dropping
/// the writer leaves the finished brotli stream in the sink. Writes into a
/// `Vec` sink do not fail.
#[verifier::external_body]
pub(crate) fn brotli_compress(body: &Vec<u8>) -> (r: Vec<u8>)
    ensures
        r@ == brotli_bytes(body@),
{
    let mut data: Vec<u8> = Vec::new();
    {
        let mut encoder = brotli::CompressorWriter::new(
            &mut data,
            BUFFER_SIZE,
            QUALITY,
            LG_WINDOW_SIZE,
        );
        std::io::Write::write_all(&mut encoder, body.as_slice()).unwrap();
    }
    data
}

/// Decoding succeeds on every brotli stream of the encoder above and yields
/// the stream's original input.
pub open spec fn inverts_brotli(data: Seq<u8>, r: Option<Vec<u8>>) -> bool {
    forall|body: Seq<u8>| data == brotli_bytes(body) ==> (r matches Some(plain) && plain@ == body)
}

/// Relies on `brotli::Decompressor`: reading it to the end recovers exactly
/// the bytes whose compression the input stream is.
#[verifier::external_body]
pub(crate) fn brotli_decompress(data: &Vec<u8>) -> (r: Option<Vec<u8>>)
    ensures
        inverts_brotli(data@, r),
{
    let mut decoder = brotli::Decompressor::new(data.as_slice(), BUFFER_SIZE);
    let mut out: Vec<u8> = Vec::new();
    match std::io::Read::read_to_end(&mut decoder, &mut out) {
        Ok(_) => Some(out),
        Err(_) => None,
    }
}

/// The brotli encoder adapter.
pub struct Brotli;

impl ContentEncoding for Brotli {
    open spec fn header_spec(&self) -> Encoding {
        Encoding::Brotli
    }

    open spec fn encoded_spec(&self, body: Seq<u8>) -> Seq<u8> {
        brotli_bytes(body)
    }

    fn get_header(&self) -> (header: Encoding) {
        Encoding::Brotli
    }

    fn compress_body(&self, res: &Response) -> (r: Result<Vec<u8>, String>) {
        match &res.body {
            Some(body) => Ok(brotli_compress(body)),
            None => Err(String::from_str("Error compressing body: No response body present.")),
        }
    }
}

} // verus!
