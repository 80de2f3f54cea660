//! The interface every encoder adapter offers: advertise a header token and
//! compress a response body.

use vstd::prelude::*;

verus! {

use crate::headers::{Encoding, Response};

/// An encoder adapter for one content coding: it advertises the header token
/// it produces and compresses a response's body into a buffer.
pub trait ContentEncoding {
    /// The `Content-Encoding` token this adapter advertises.
    spec fn header_spec(&self) -> Encoding;

    /// The bytes this adapter's encoder produces for a given body.
    spec fn encoded_spec(&self, body: Seq<u8>) -> Seq<u8>;

    /// Returns the `Content-Encoding` token this adapter advertises.
    fn get_header(&self) -> (header: Encoding)
        ensures
            header == self.header_spec(),
    ;

    /// Compresses the response's body, or reports the absence of one.
    fn compress_body(&self, res: &Response) -> (r: Result<Vec<u8>, String>)
        ensures
            res@.body matches Some(body) ==> (r matches Ok(compressed) && compressed@
                == self.encoded_spec(body)),
            res@.body is None ==> (r matches Err(message) && message@
                == "Error compressing body: No response body present."@),
    ;
}

} // verus!
