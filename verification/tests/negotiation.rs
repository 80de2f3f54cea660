use iron_pack::br::Brotli;
use iron_pack::brotli_writer::BrotliWriter;
use iron_pack::compression_modifier::{apply_compression_result, apply_modifier};
use iron_pack::deflate_writer::DeflateWriter;
use iron_pack::gzip_writer::GzipWriter;
use iron_pack::headers::{Encoding, QualityItem, RequestHeaders, Response};
use iron_pack::writer::ContentEncoding;
use iron_pack::{
    decode_body, encoded_body_roundtrip, get_body, which_compression, CompressionEncoding,
    CompressionMiddleware,
};

fn plain_response(size: usize) -> Response {
    Response {
        content_encoding: None,
        content_length: Some(size as u64),
        body: Some(vec![b'a'; size]),
    }
}

fn gzip_request() -> RequestHeaders {
    RequestHeaders {
        accept_encoding: Some(vec![QualityItem { item: Encoding::Gzip, quality: 1000 }]),
    }
}

fn default_priority_list() -> Vec<CompressionEncoding> {
    vec![
        CompressionEncoding::Brotli,
        CompressionEncoding::Gzip,
        CompressionEncoding::Deflate,
    ]
}

#[test]
fn compresses_a_response_of_exactly_the_threshold_size() {
    let res = CompressionMiddleware.after(&gzip_request(), plain_response(860));
    assert_eq!(res.content_encoding, Some(vec![Encoding::Gzip]));
    assert_eq!(res.content_length, None);
}

#[test]
fn leaves_a_response_one_byte_below_the_threshold_alone() {
    let res = CompressionMiddleware.after(&gzip_request(), plain_response(859));
    assert_eq!(res.content_encoding, None);
    assert_eq!(res.content_length, Some(859));
    assert_eq!(res.body, Some(vec![b'a'; 859]));
}

#[test]
fn leaves_a_bodiless_response_alone() {
    let res = CompressionMiddleware.after(
        &gzip_request(),
        Response { content_encoding: None, content_length: Some(1000), body: None },
    );
    assert_eq!(res.content_encoding, None);
    assert_eq!(res.content_length, Some(1000));
    assert_eq!(res.body, None);
}

#[test]
fn leaves_a_response_without_declared_length_alone() {
    let res = CompressionMiddleware.after(
        &gzip_request(),
        Response {
            content_encoding: None,
            content_length: None,
            body: Some(vec![b'a'; 1000]),
        },
    );
    assert_eq!(res.content_encoding, None);
    assert_eq!(res.body, Some(vec![b'a'; 1000]));
}

#[test]
fn negotiation_returns_the_same_choice_for_the_same_inputs() {
    let req = gzip_request();
    let res = plain_response(1000);
    let priority = default_priority_list();
    let first = which_compression(&req, &res, &priority);
    let second = which_compression(&req, &res, &priority);
    assert_eq!(first, Some(CompressionEncoding::Gzip));
    assert_eq!(first, second);
}

#[test]
fn negotiation_ignores_an_empty_offer_list() {
    let req = RequestHeaders { accept_encoding: Some(vec![]) };
    let res = plain_response(1000);
    assert_eq!(which_compression(&req, &res, &default_priority_list()), None);
}

#[test]
fn a_wildcard_offer_of_quality_zero_is_refused() {
    let req = RequestHeaders {
        accept_encoding: Some(vec![QualityItem { item: Encoding::Wildcard, quality: 0 }]),
    };
    let res = CompressionMiddleware.after(&req, plain_response(1000));
    assert_eq!(res.content_encoding, None);
}

#[test]
fn compressed_bodies_decode_back_to_the_original() {
    let body = b"the quick brown fox jumps over the lazy dog".repeat(40);
    for encoding in [
        CompressionEncoding::Brotli,
        CompressionEncoding::Gzip,
        CompressionEncoding::Deflate,
    ] {
        let decoded = encoded_body_roundtrip(&encoding, body.clone());
        assert_eq!(decoded, body);
    }
}

#[test]
fn compression_actually_transforms_the_body() {
    let body = vec![b'a'; 1000];
    for encoding in [
        CompressionEncoding::Brotli,
        CompressionEncoding::Gzip,
        CompressionEncoding::Deflate,
    ] {
        let compressed = get_body(&encoding, body.clone());
        assert_ne!(compressed, body);
        assert!(compressed.len() < body.len());
        assert_eq!(decode_body(&encoding, &compressed), Some(body.clone()));
    }
}

#[test]
fn decoding_rejects_bytes_that_are_no_gzip_stream() {
    let garbage = vec![b'a'; 64];
    assert_eq!(decode_body(&CompressionEncoding::Gzip, &garbage), None);
}

#[test]
fn an_adapter_reports_a_missing_body() {
    let res = Response { content_encoding: None, content_length: None, body: None };
    let compressed = Brotli.compress_body(&res);
    assert_eq!(
        compressed,
        Err(String::from("Error compressing body: No response body present."))
    );
}

#[test]
fn a_writer_rewrites_headers_and_body() {
    let mut res = plain_response(1000);
    GzipWriter.modify(&mut res);
    assert_eq!(res.content_encoding, Some(vec![Encoding::Gzip]));
    let compressed = res.body.unwrap();
    assert_eq!(res.content_length, Some(compressed.len() as u64));
    assert_eq!(
        decode_body(&CompressionEncoding::Gzip, &compressed),
        Some(vec![b'a'; 1000])
    );
}

#[test]
fn a_writer_leaves_a_bodiless_response_alone() {
    let mut res = Response { content_encoding: None, content_length: Some(5), body: None };
    BrotliWriter.modify(&mut res);
    assert_eq!(res.content_encoding, None);
    assert_eq!(res.content_length, Some(5));
    assert_eq!(res.body, None);
}

#[test]
fn applying_a_modifier_rewrites_the_response() {
    let mut res = plain_response(1000);
    let applied = apply_modifier(&DeflateWriter, &mut res);
    assert!(applied);
    assert_eq!(res.content_encoding, Some(vec![Encoding::Deflate]));
    let compressed = res.body.unwrap();
    assert_eq!(res.content_length, Some(compressed.len() as u64));
    assert_eq!(
        decode_body(&CompressionEncoding::Deflate, &compressed),
        Some(vec![b'a'; 1000])
    );
}

#[test]
fn applying_a_modifier_to_a_bodiless_response_does_nothing() {
    let mut res = Response { content_encoding: None, content_length: Some(7), body: None };
    let applied = apply_modifier(&GzipWriter, &mut res);
    assert!(!applied);
    assert_eq!(res.content_encoding, None);
    assert_eq!(res.content_length, Some(7));
    assert_eq!(res.body, None);
}

#[test]
fn a_successful_compression_result_rewrites_the_response() {
    let mut res = plain_response(1000);
    let applied = apply_compression_result(Encoding::Gzip, Ok(vec![1, 2, 3]), &mut res);
    assert!(applied);
    assert_eq!(res.content_encoding, Some(vec![Encoding::Gzip]));
    assert_eq!(res.content_length, Some(3));
    assert_eq!(res.body, Some(vec![1, 2, 3]));
}

#[test]
fn a_failed_compression_result_leaves_the_response_alone() {
    let mut res = plain_response(1000);
    let applied = apply_compression_result(
        Encoding::Gzip,
        Err(String::from("sink closed")),
        &mut res,
    );
    assert!(!applied);
    assert_eq!(res.content_encoding, None);
    assert_eq!(res.content_length, Some(1000));
    assert_eq!(res.body, Some(vec![b'a'; 1000]));
}

#[test]
fn a_writer_reports_a_missing_body_with_the_same_message_as_the_adapters() {
    let res = Response { content_encoding: None, content_length: None, body: None };
    assert_eq!(
        GzipWriter.get_compressed_body(&res),
        Err(String::from("Error compressing body: No response body present."))
    );
}

#[test]
fn applying_the_hook_twice_changes_nothing_more() {
    let once = CompressionMiddleware.after(&gzip_request(), plain_response(1000));
    let once_encoding = once.content_encoding.clone();
    let once_length = once.content_length;
    let once_body = once.body.clone();
    let twice = CompressionMiddleware.after(&gzip_request(), once);
    assert_eq!(twice.content_encoding, once_encoding);
    assert_eq!(twice.content_length, once_length);
    assert_eq!(twice.body, once_body);
}
