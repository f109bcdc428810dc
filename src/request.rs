//! A decoded request and the record that is logged for it.
use vstd::prelude::*;
use vstd::utf8::{decode_utf8, decode_utf8_encode_utf8, encode_utf8, valid_utf8};

verus! {

/// The text that lossy UTF-8 decoding makes of `bytes`: each invalid
/// sequence becomes the replacement character.
pub uninterp spec fn lossy_text(bytes: Seq<u8>) -> Seq<char>;

/// Relies on `String::from_utf8_lossy`: it decodes `bytes` as UTF-8, replacing
/// invalid sequences, and hands valid UTF-8 back as the text it encodes.
#[verifier::external_body]
fn lossy_utf8(bytes: &[u8]) -> (r: String)
    ensures
        r@ == lossy_text(bytes@),
        valid_utf8(bytes@) ==> r@ == decode_utf8(bytes@),
{
    String::from_utf8_lossy(bytes).into_owned()
}

/// One request as the protocol layer decoded it.
pub struct IncomingRequest {
    /// The method, as the protocol layer spells it.
    pub method: String,
    /// The full request target.
    pub uri: String,
    /// The path part of the request target.
    pub path: String,
    /// The header fields in the order received; names may repeat.
    pub headers: Vec<(String, Vec<u8>)>,
    /// The body bytes, possibly none.
    pub body: Vec<u8>,
}

/// What is logged for one request.
pub struct LogRecord {
    pub method: String,
    pub uri: String,
    /// Each header name with its value decoded as lossy UTF-8.
    pub headers: Vec<(String, String)>,
    /// The body decoded as lossy UTF-8; absent where the body is empty.
    pub body: Option<String>,
}

/// `logged` is the log form of the header field `raw`.
pub open spec fn header_logged(raw: (String, Vec<u8>), logged: (String, String)) -> bool {
    logged.0@ == raw.0@ && logged.1@ == lossy_text(raw.1@)
}

/// `rec` is the log record of `req`.
pub open spec fn logs(req: &IncomingRequest, rec: &LogRecord) -> bool {
    &&& rec.method@ == req.method@
    &&& rec.uri@ == req.uri@
    &&& rec.headers@.len() == req.headers@.len()
    &&& forall|i: int|
        0 <= i < req.headers@.len() ==> #[trigger] header_logged(
            req.headers@[i],
            rec.headers@[i],
        )
    &&& match rec.body {
        None => req.body@.len() == 0,
        Some(text) => req.body@.len() > 0 && text@ == lossy_text(req.body@),
    }
}

/// The record to log for `req`: method, target and headers always, the body
/// only where it is not empty. A body of valid UTF-8 is logged as the text it
/// encodes, so the logged text encodes back to exactly the body bytes.
pub fn request_log(req: &IncomingRequest) -> (r: LogRecord)
    ensures
        logs(req, &r),
        r.body is None <==> req.body@.len() == 0,
        req.body@.len() > 0 && valid_utf8(req.body@) ==> ({
            &&& r.body is Some
            &&& r.body->Some_0@ == decode_utf8(req.body@)
            &&& encode_utf8(r.body->Some_0@) == req.body@
        }),
{
    let mut headers: Vec<(String, String)> = Vec::new();
    let mut i: usize = 0;
    while i < req.headers.len()
        invariant
            i <= req.headers@.len(),
            headers@.len() == i,
            forall|j: int| 0 <= j < i ==> #[trigger] header_logged(req.headers@[j], headers@[j]),
        decreases req.headers@.len() - i,
    {
        let field = &req.headers[i];
        let name = field.0.clone();
        let value = lossy_utf8(field.1.as_slice());
        headers.push((name, value));
        i = i + 1;
    }
    let body = if req.body.len() == 0 {
        None
    } else {
        let text = lossy_utf8(req.body.as_slice());
        proof {
            if valid_utf8(req.body@) {
                decode_utf8_encode_utf8(req.body@);
            }
        }
        Some(text)
    };
    LogRecord { method: req.method.clone(), uri: req.uri.clone(), headers, body }
}

} // verus!
