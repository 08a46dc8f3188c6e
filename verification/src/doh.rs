//! The DNS-over-HTTPS endpoint's decisions.
//!
//! The HTTP server itself lives outside the library; what is verified here is
//! the handling of the `dns` query parameter of a GET request and the mapping
//! of each processing outcome to its HTTP status code.

use vstd::prelude::*;

verus! {

/// What `data_encoding::BASE64URL_NOPAD.decode` returns on a byte text:
/// the decoded bytes, or nothing when the text is not valid unpadded
/// base64url. The result is a function of the input alone.
pub uninterp spec fn base64url_decoded(s: Seq<u8>) -> Option<Seq<u8>>;

/// Relies on `data_encoding::BASE64URL_NOPAD.decode`: it returns the bytes
/// the input encodes, and fails exactly on input that is not valid unpadded
/// base64url (a bad length, an invalid symbol, nonzero trailing bits).
#[verifier::external_body]
fn base64url_decode(input: &[u8]) -> (r: Option<Vec<u8>>)
    ensures
        match r {
            Some(b) => base64url_decoded(input@) == Some(b@),
            None => base64url_decoded(input@) is None,
        },
{
    data_encoding::BASE64URL_NOPAD.decode(input).ok()
}

/// Decodes the `dns` parameter of a DoH GET request: base64url without
/// padding, carrying the raw wire message. `None` is answered with an HTTP
/// 400 by the endpoint.
pub fn doh_get_query(dns: &[u8]) -> (r: Option<Vec<u8>>)
    ensures
        match r {
            Some(b) => base64url_decoded(dns@) == Some(b@),
            None => base64url_decoded(dns@) is None,
        },
{
    base64url_decode(dns)
}

/// How one DoH exchange ended: with wire bytes to send back, or refused at
/// one of the three stages.
#[derive(Debug, Clone, PartialEq, Eq)]
pub enum DohOutcome {
    /// The response, encoded; sent with HTTP 200.
    Reply(Vec<u8>),
    /// The GET parameter was not valid base64url.
    InvalidBase64,
    /// The payload did not decode as a DNS message.
    InvalidMessage,
    /// The response could not be encoded.
    EncodeFailed,
}

/// The HTTP status code of an outcome: 200 for a reply, 400 for input the
/// endpoint could not read, 500 when the response could not be encoded.
pub fn doh_status(outcome: &DohOutcome) -> (r: u16)
    ensures
        r == match outcome {
            DohOutcome::Reply(_) => 200u16,
            DohOutcome::InvalidBase64 => 400u16,
            DohOutcome::InvalidMessage => 400u16,
            DohOutcome::EncodeFailed => 500u16,
        },
{
    match outcome {
        DohOutcome::Reply(_) => 200,
        DohOutcome::InvalidBase64 => 400,
        DohOutcome::InvalidMessage => 400,
        DohOutcome::EncodeFailed => 500,
    }
}

/// The content type every DoH reply carries.
pub fn doh_content_type() -> (r: &'static str)
    ensures
        r@ == "application/dns-message"@,
{
    "application/dns-message"
}

} // verus!
