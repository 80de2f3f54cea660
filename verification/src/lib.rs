//! Response-compression middleware: per-response negotiation of a content
//! coding from the client's `Accept-Encoding` preferences, and replacement of
//! the body by its brotli-, gzip- or deflate-compressed form.

use vstd::prelude::*;

pub mod br;
pub mod brotli_writer;
pub mod compression_modifier;
pub mod deflate;
pub mod deflate_writer;
pub mod gzip;
pub mod gzip_writer;
pub mod headers;
pub mod writer;

verus! {

use crate::br::{brotli_bytes, brotli_compress, brotli_decompress, inverts_brotli};
use crate::deflate::{deflate_bytes, deflate_compress, deflate_decompress, inverts_deflate};
use crate::gzip::{gzip_bytes, gzip_compress, gzip_decompress, inverts_gzip};
use crate::headers::{Encoding, QualityItem, RequestHeaders, RequestHeadersView, Response,
    ResponseView};

/// One of the content codings the middleware can apply.
#[derive(Clone, Copy, PartialEq, Eq, Structural, Debug)]
pub enum CompressionEncoding {
    Brotli,
    Deflate,
    Gzip,
}

/// Responses whose declared length is below this many bytes are not
/// compressed.
pub const DEFAULT_MIN_BYTES_FOR_COMPRESSION: u64 = 860;

/// Whether a supported coding is named by an `Accept-Encoding` token:
/// brotli by `"br"`, deflate by `"deflate"`, and gzip by `"gzip"` or by the
/// wildcard `"*"`, which maps to gzip by server policy.
pub open spec fn token_matches(encoding: CompressionEncoding, header: Encoding) -> bool {
    match encoding {
        CompressionEncoding::Brotli => header is Brotli,
        CompressionEncoding::Deflate => header is Deflate,
        CompressionEncoding::Gzip => header is Gzip || header is Wildcard,
    }
}

/// Whether a supported coding is named by an `Accept-Encoding` token.
pub fn encoding_matches_header(encoding: &CompressionEncoding, header: &Encoding) -> (r: bool)
    ensures
        r == token_matches(*encoding, *header),
{
    match encoding {
        CompressionEncoding::Brotli => matches!(header, Encoding::Brotli),
        CompressionEncoding::Deflate => matches!(header, Encoding::Deflate),
        CompressionEncoding::Gzip => (
            matches!(header, Encoding::Gzip) || matches!(header, Encoding::Wildcard)
        ),
    }
}

/// The greatest quality weight among the items of an `Accept-Encoding`
/// list, or `0` for the empty list.
pub open spec fn max_quality(items: Seq<QualityItem>) -> u16
    decreases items.len(),
{
    if items.len() == 0 {
        0
    } else {
        let rest = max_quality(items.drop_last());
        if items.last().quality > rest {
            items.last().quality
        } else {
            rest
        }
    }
}

/// A supported coding is acceptable when some `Accept-Encoding` item names it
/// with a non-zero quality equal to the greatest quality of the list.
pub open spec fn acceptable(encoding: CompressionEncoding, items: Seq<QualityItem>) -> bool {
    exists|i: int|
        0 <= i < items.len()
            && items[i].quality == max_quality(items)
            && items[i].quality != 0
            && token_matches(encoding, items[i].item)
}

/// The first coding of the server's priority list that is acceptable to the
/// client, or `None` when none is.
pub open spec fn first_acceptable(
    priority: Seq<CompressionEncoding>,
    items: Seq<QualityItem>,
) -> Option<CompressionEncoding>
    decreases priority.len(),
{
    if priority.len() == 0 {
        None
    } else if acceptable(priority[0], items) {
        Some(priority[0])
    } else {
        first_acceptable(priority.drop_first(), items)
    }
}

/// The negotiation rule in full: no coding is chosen when the response is
/// already encoded, when it declares no length or one below the threshold, or
/// when the request offers nothing; otherwise the server's priority order
/// breaks ties among the client's best-rated offers.
pub open spec fn negotiated(
    req: RequestHeadersView,
    res: ResponseView,
    priority: Seq<CompressionEncoding>,
) -> Option<CompressionEncoding> {
    match (res.content_encoding, res.content_length, req.accept_encoding) {
        (None, Some(content_length), Some(items)) => if content_length
            < DEFAULT_MIN_BYTES_FOR_COMPRESSION {
            None
        } else {
            first_acceptable(priority, items)
        },
        _ => None,
    }
}

/// The greatest quality weight among `items`, or `0` when there are none.
fn highest_quality(items: &Vec<QualityItem>) -> (m: u16)
    ensures
        m == max_quality(items@),
{
    let mut m: u16 = 0;
    let mut i: usize = 0;
    while i < items.len()
        invariant
            i <= items@.len(),
            m == max_quality(items@.take(i as int)),
        decreases items@.len() - i,
    {
        proof {
            assert(items@.take(i + 1).drop_last() =~= items@.take(i as int));
            assert(items@.take(i + 1).last() == items@[i as int]);
        }
        if items[i].quality > m {
            m = items[i].quality;
        }
        i = i + 1;
    }
    proof {
        assert(items@.take(items@.len() as int) =~= items@);
    }
    m
}

/// Whether some item of `items` makes `encoding` acceptable, given the
/// greatest quality `maxq` of the list.
fn some_item_accepts(encoding: &CompressionEncoding, items: &Vec<QualityItem>, maxq: u16) -> (r:
    bool)
    requires
        maxq == max_quality(items@),
    ensures
        r == acceptable(*encoding, items@),
{
    let mut i: usize = 0;
    while i < items.len()
        invariant
            i <= items@.len(),
            maxq == max_quality(items@),
            forall|j: int|
                0 <= j < i ==> !(items@[j].quality == maxq && items@[j].quality != 0
                    && token_matches(*encoding, items@[j].item)),
        decreases items@.len() - i,
    {
        if items[i].quality == maxq && items[i].quality != 0 && encoding_matches_header(
            encoding,
            &items[i].item,
        ) {
            return true;
        }
        i = i + 1;
    }
    false
}

/// Server priority breaks ties: when the codings before position `i` of the
/// priority list are all unacceptable and the one at `i` is acceptable, the
/// one at `i` is chosen.
pub proof fn lemma_first_acceptable_at(
    priority: Seq<CompressionEncoding>,
    items: Seq<QualityItem>,
    i: int,
)
    requires
        0 <= i < priority.len(),
        acceptable(priority[i], items),
        forall|j: int| 0 <= j < i ==> !acceptable(priority[j], items),
    ensures
        first_acceptable(priority, items) == Some(priority[i]),
    decreases i,
{
    if i > 0 {
        assert(forall|j: int|
            0 <= j < i - 1 ==> priority.drop_first()[j] == priority[j + 1]);
        lemma_first_acceptable_at(priority.drop_first(), items, i - 1);
    }
}

proof fn lemma_first_acceptable_none(priority: Seq<CompressionEncoding>, items: Seq<QualityItem>)
    requires
        forall|j: int| 0 <= j < priority.len() ==> !acceptable(priority[j], items),
    ensures
        first_acceptable(priority, items) is None,
    decreases priority.len(),
{
    if priority.len() > 0 {
        lemma_first_acceptable_none(priority.drop_first(), items);
    }
}

/// Picks the coding to compress with, or `None` to leave the response alone.
///
/// The choice is a function of the given headers and priority list alone, as
/// the postcondition states: same inputs, same output.
pub fn which_compression(
    req: &RequestHeaders,
    res: &Response,
    priority: &Vec<CompressionEncoding>,
) -> (r: Option<CompressionEncoding>)
    ensures
        r == negotiated(req@, res@, priority@),
{
    if res.content_encoding.is_some() {
        return None;
    }
    let content_length: u64 = match &res.content_length {
        Some(content_length) => *content_length,
        None => {
            return None;
        },
    };
    let items: &Vec<QualityItem> = match &req.accept_encoding {
        Some(items) => items,
        None => {
            return None;
        },
    };
    if content_length < DEFAULT_MIN_BYTES_FOR_COMPRESSION {
        return None;
    }
    let maxq = highest_quality(items);
    let mut i: usize = 0;
    while i < priority.len()
        invariant
            i <= priority@.len(),
            maxq == max_quality(items@),
            negotiated(req@, res@, priority@) == first_acceptable(priority@, items@),
            forall|j: int| 0 <= j < i ==> !acceptable(priority@[j], items@),
        decreases priority@.len() - i,
    {
        if some_item_accepts(&priority[i], items, maxq) {
            proof {
                lemma_first_acceptable_at(priority@, items@, i as int);
            }
            return Some(priority[i]);
        }
        i = i + 1;
    }
    proof {
        lemma_first_acceptable_none(priority@, items@);
    }
    None
}

/// The `Content-Encoding` token that a chosen coding is announced under.
pub open spec fn header_token(encoding: CompressionEncoding) -> Encoding {
    match encoding {
        CompressionEncoding::Brotli => Encoding::Brotli,
        CompressionEncoding::Deflate => Encoding::Deflate,
        CompressionEncoding::Gzip => Encoding::Gzip,
    }
}

/// The bytes a chosen coding's encoder produces for a given body.
pub open spec fn encoded_bytes(encoding: CompressionEncoding, body: Seq<u8>) -> Seq<u8> {
    match encoding {
        CompressionEncoding::Brotli => brotli_bytes(body),
        CompressionEncoding::Deflate => deflate_bytes(body),
        CompressionEncoding::Gzip => gzip_bytes(body),
    }
}

/// Decoding under a chosen coding succeeds on every stream its encoder
/// produces and yields the stream's original input.
pub open spec fn inverts_encoded(
    encoding: CompressionEncoding,
    data: Seq<u8>,
    r: Option<Vec<u8>>,
) -> bool {
    match encoding {
        CompressionEncoding::Brotli => inverts_brotli(data, r),
        CompressionEncoding::Deflate => inverts_deflate(data, r),
        CompressionEncoding::Gzip => inverts_gzip(data, r),
    }
}

/// Returns the `Content-Encoding` header value for a chosen coding.
pub fn get_header(encoding: &CompressionEncoding) -> (header: Encoding)
    ensures
        header == header_token(*encoding),
{
    match encoding {
        CompressionEncoding::Brotli => Encoding::Brotli,
        CompressionEncoding::Deflate => Encoding::Deflate,
        CompressionEncoding::Gzip => Encoding::Gzip,
    }
}

/// Replaces a body by its compressed form under the chosen coding.
pub fn get_body(encoding: &CompressionEncoding, wrapped_body: Vec<u8>) -> (r: Vec<u8>)
    ensures
        r@ == encoded_bytes(*encoding, wrapped_body@),
{
    match encoding {
        CompressionEncoding::Brotli => brotli_compress(&wrapped_body),
        CompressionEncoding::Deflate => deflate_compress(&wrapped_body),
        CompressionEncoding::Gzip => gzip_compress(&wrapped_body),
    }
}

/// Decodes a body that was compressed under the chosen coding; `None` when
/// the bytes are no stream of that coding's decoder.
pub fn decode_body(encoding: &CompressionEncoding, data: &Vec<u8>) -> (r: Option<Vec<u8>>)
    ensures
        inverts_encoded(*encoding, data@, r),
{
    match encoding {
        CompressionEncoding::Brotli => brotli_decompress(data),
        CompressionEncoding::Deflate => deflate_decompress(data),
        CompressionEncoding::Gzip => gzip_decompress(data),
    }
}

/// Compression is lossless: for every body and every coding, decoding the
/// compressed body yields the body again.
pub fn encoded_body_roundtrip(encoding: &CompressionEncoding, body: Vec<u8>) -> (r: Vec<u8>)
    ensures
        r@ == body@,
{
    let ghost original: Seq<u8> = body@;
    let encoded = get_body(encoding, body);
    let decoded = decode_body(encoding, &encoded);
    proof {
        assert(decoded matches Some(plain) && plain@ == original);
    }
    decoded.unwrap()
}

/// The server-side priority order: brotli first, then gzip, then deflate.
pub open spec fn default_priority() -> Seq<CompressionEncoding> {
    seq![CompressionEncoding::Brotli, CompressionEncoding::Gzip, CompressionEncoding::Deflate]
}

/// What the hook leaves of a response: untouched unless it has a body and
/// negotiation under the default priority chooses a coding; then the chosen
/// token is the sole `Content-Encoding`, `Content-Length` is dropped, and the
/// body is replaced by its compressed form.
pub open spec fn hook_spec(req: RequestHeadersView, res: ResponseView) -> ResponseView {
    match (res.body, negotiated(req, res, default_priority())) {
        (Some(body), Some(encoding)) => ResponseView {
            content_encoding: Some(seq![header_token(encoding)]),
            content_length: None,
            body: Some(encoded_bytes(encoding, body)),
        },
        _ => res,
    }
}

/// The response-compression middleware: its hook runs after an upstream
/// handler has produced the response and before the response is written out.
pub struct CompressionMiddleware;

impl CompressionMiddleware {
    /// The post-response hook: negotiates a coding and, on a hit, rewrites
    /// the headers and compresses the body.
    pub fn after(&self, req: &RequestHeaders, res: Response) -> (r: Response)
        ensures
            r@ == hook_spec(req@, res@),
    {
        let brotli = CompressionEncoding::Brotli;
        let deflate = CompressionEncoding::Deflate;
        let gzip = CompressionEncoding::Gzip;
        let default_priorities = vec![brotli, gzip, deflate];
        proof {
            assert(default_priorities@ =~= default_priority());
        }
        if res.body.is_some() {
            match which_compression(req, &res, &default_priorities) {
                Some(compression) => {
                    let body = res.body.unwrap();
                    let compressed = Response {
                        content_encoding: Some(vec![get_header(&compression)]),
                        content_length: None,
                        body: Some(get_body(&compression, body)),
                    };
                    proof {
                        assert(compressed@ =~~= hook_spec(req@, res@));
                    }
                    compressed
                },
                None => res,
            }
        } else {
            res
        }
    }
}

/// The scan of the priority list succeeds exactly when some coding of the
/// list is acceptable.
proof fn lemma_first_acceptable_iff(priority: Seq<CompressionEncoding>, items: Seq<QualityItem>)
    ensures
        first_acceptable(priority, items) is Some <==> exists|j: int|
            0 <= j < priority.len() && acceptable(priority[j], items),
    decreases priority.len(),
{
    if priority.len() == 0 {
    } else if acceptable(priority[0], items) {
        assert(0 <= 0 < priority.len() && acceptable(priority[0], items));
    } else {
        lemma_first_acceptable_iff(priority.drop_first(), items);
        assert(forall|k: int|
            0 <= k < priority.drop_first().len() ==> priority.drop_first()[k] == priority[k + 1]);
        if exists|j: int| 0 <= j < priority.len() && acceptable(priority[j], items) {
            let j = choose|j: int| 0 <= j < priority.len() && acceptable(priority[j], items);
            assert(acceptable(priority.drop_first()[j - 1], items));
        }
        if exists|k: int|
            0 <= k < priority.drop_first().len() && acceptable(priority.drop_first()[k], items) {
            let k = choose|k: int|
                0 <= k < priority.drop_first().len() && acceptable(
                    priority.drop_first()[k],
                    items,
                );
            assert(acceptable(priority[k + 1], items));
        }
    }
}

/// The negotiator chooses a coding exactly when every gate passes — no prior
/// `Content-Encoding`, a declared length at or above the threshold, an
/// `Accept-Encoding` offer — and some coding of the priority list is
/// acceptable under that offer. In particular, a declared length of exactly
/// the threshold is compressed.
pub proof fn lemma_negotiated_some_iff(
    req: RequestHeadersView,
    res: ResponseView,
    priority: Seq<CompressionEncoding>,
)
    ensures
        negotiated(req, res, priority) is Some <==> {
            &&& res.content_encoding is None
            &&& (res.content_length matches Some(content_length) && content_length
                >= DEFAULT_MIN_BYTES_FOR_COMPRESSION)
            &&& (req.accept_encoding matches Some(items) && exists|j: int|
                0 <= j < priority.len() && acceptable(priority[j], items))
        },
{
    match req.accept_encoding {
        Some(items) => lemma_first_acceptable_iff(priority, items),
        None => (),
    }
}

/// A response that already carries a `Content-Encoding` — whatever its value
/// — passes through the hook unchanged.
pub proof fn lemma_already_encoded_identity(req: RequestHeadersView, res: ResponseView)
    requires
        res.content_encoding is Some,
    ensures
        hook_spec(req, res) == res,
{
}

/// A response that declares no `Content-Length`, or one below the
/// minimum-compressable threshold, passes through the hook unchanged.
pub proof fn lemma_small_response_identity(req: RequestHeadersView, res: ResponseView)
    requires
        res.content_length matches Some(content_length) ==> content_length
            < DEFAULT_MIN_BYTES_FOR_COMPRESSION,
    ensures
        hook_spec(req, res) == res,
{
}

/// When the request offers no `Accept-Encoding`, the hook leaves the
/// response unchanged.
pub proof fn lemma_no_offer_identity(req: RequestHeadersView, res: ResponseView)
    requires
        req.accept_encoding is None,
    ensures
        hook_spec(req, res) == res,
{
}

/// When compression is applied, the output carries no `Content-Length`, and
/// its `Content-Encoding` holds exactly one token, which is one of the three
/// supported codings'.
pub proof fn lemma_compressed_response_headers(req: RequestHeadersView, res: ResponseView)
    requires
        res.body is Some,
        negotiated(req, res, default_priority()) is Some,
    ensures
        hook_spec(req, res).content_length is None,
        hook_spec(req, res).content_encoding matches Some(tokens) && tokens.len() == 1 && (
        tokens[0] is Brotli || tokens[0] is Gzip || tokens[0] is Deflate),
{
}

/// Applying the hook twice yields exactly what applying it once yields: the
/// first application either leaves the response alone or marks it with a
/// `Content-Encoding`, which disqualifies it from a second transformation.
pub proof fn lemma_hook_idempotent(req: RequestHeadersView, res: ResponseView)
    ensures
        hook_spec(req, hook_spec(req, res)) == hook_spec(req, res),
{
    let once = hook_spec(req, res);
    if res.body is Some && negotiated(req, res, default_priority()) is Some {
        assert(once.content_encoding is Some);
    }
}

/// An offer of quality zero is an explicit refusal: when every offered item
/// carries quality zero, nothing is chosen — even when such an item is the
/// sole entry of the list.
pub proof fn lemma_zero_quality_excluded(
    req: RequestHeadersView,
    res: ResponseView,
    priority: Seq<CompressionEncoding>,
    items: Seq<QualityItem>,
)
    requires
        req.accept_encoding == Some(items),
        forall|i: int| 0 <= i < items.len() ==> items[i].quality == 0,
    ensures
        negotiated(req, res, priority) is None,
{
    assert(forall|j: int| 0 <= j < priority.len() ==> !acceptable(priority[j], items));
    lemma_first_acceptable_none(priority, items);
}

/// Under the default priority, a wildcard offer at the top quality selects
/// gzip whenever no `"br"` offer shares that quality — in particular when no
/// explicit `"gzip"` token appears at all.
pub proof fn lemma_wildcard_selects_gzip(
    req: RequestHeadersView,
    res: ResponseView,
    items: Seq<QualityItem>,
)
    requires
        req.accept_encoding == Some(items),
        res.content_encoding is None,
        res.content_length matches Some(content_length) && content_length
            >= DEFAULT_MIN_BYTES_FOR_COMPRESSION,
        exists|i: int|
            0 <= i < items.len() && items[i].item is Wildcard && items[i].quality == max_quality(
                items,
            ) && items[i].quality != 0,
        forall|i: int|
            0 <= i < items.len() ==> !(items[i].item is Brotli && items[i].quality == max_quality(
                items,
            ) && items[i].quality != 0),
    ensures
        negotiated(req, res, default_priority()) == Some(CompressionEncoding::Gzip),
{
    let wildcard = choose|i: int|
        0 <= i < items.len() && items[i].item is Wildcard && items[i].quality == max_quality(items)
            && items[i].quality != 0;
    assert(token_matches(CompressionEncoding::Gzip, items[wildcard].item));
    assert(acceptable(CompressionEncoding::Gzip, items));
    assert(!acceptable(CompressionEncoding::Brotli, items));
    lemma_first_acceptable_at(default_priority(), items, 1);
}

} // verus!
