//! The decoded DNS message model the pipeline works on.
//!
//! The unverified rim decodes wire bytes into a `DnsRequest` and encodes the
//! returned `DnsResponse` back to wire bytes; everything between the two is
//! verified against these plain-value types.

use vstd::prelude::*;

use crate::name::DnsName;
use crate::resource_record::{Record, RecordType};

verus! {

/// The response codes the server emits.
#[derive(Debug, Clone, Copy, PartialEq, Eq, Structural)]
pub enum Rcode {
    NoError,
    ServFail,
    NXDomain,
    Refused,
}

/// One entry of a request's question section.
#[derive(Debug, Clone, PartialEq, Eq)]
pub struct DnsQuestion {
    pub name: DnsName,
    pub qtype: RecordType,
    pub qclass: u16,
}

/// What the request's EDNS OPT pseudo-record advertised.
#[derive(Debug, Clone, Copy, PartialEq, Eq, Structural)]
pub struct EdnsRequest {
    pub dnssec_ok: bool,
    pub udp_payload: u16,
}

/// A decoded request, reduced to what the pipeline reads.
#[derive(Debug, Clone, PartialEq, Eq)]
pub struct DnsRequest {
    pub id: u16,
    pub op_code: u8,
    pub rd: bool,
    pub edns: Option<EdnsRequest>,
    pub queries: Vec<DnsQuestion>,
}

/// Whether the request asked for DNSSEC records along with the answer.
pub open spec fn dnssec_ok_spec(req: DnsRequest) -> bool {
    match req.edns {
        Some(e) => e.dnssec_ok,
        None => false,
    }
}

impl DnsRequest {
    /// Whether the request asked for DNSSEC records along with the answer.
    pub fn dnssec_ok(&self) -> (r: bool)
        ensures
            r == dnssec_ok_spec(*self),
    {
        match &self.edns {
            Some(e) => e.dnssec_ok,
            None => false,
        }
    }
}

/// The largest response, in wire bytes, that may be sent back over UDP: what
/// the request's EDNS OPT advertised, or 512 when it carried none. A longer
/// response must be truncated and flagged as such.
pub fn udp_payload_limit(req: &DnsRequest) -> (r: u16)
    ensures
        r == match req.edns {
            Some(e) => e.udp_payload,
            None => 512u16,
        },
{
    match &req.edns {
        Some(e) => e.udp_payload,
        None => 512,
    }
}

/// A decoded response as the pipeline builds it. The rim encodes it; every
/// field is plain data.
#[derive(Debug, Clone, PartialEq, Eq)]
pub struct DnsResponse {
    pub id: u16,
    pub op_code: u8,
    pub rd: bool,
    pub aa: bool,
    pub ra: bool,
    /// The message-type flag: always a response, never a query.
    pub response: bool,
    /// The truncation flag: set only when a datagram could not carry the
    /// whole response.
    pub tc: bool,
    pub rcode: Rcode,
    /// The EDNS OPT payload size the server advertises.
    pub edns_udp_payload: u16,
    pub queries: Vec<DnsQuestion>,
    pub answers: Vec<Record>,
    pub authority: Vec<Record>,
}

/// Cuts a response down for a datagram it does not fit: the answer and
/// authority sections are dropped and the truncation flag is set, telling
/// the client to retry over TCP.
pub fn truncate_response(resp: DnsResponse) -> (r: DnsResponse)
    ensures
        r == (DnsResponse { tc: true, answers: r.answers, authority: r.authority, ..resp }),
        r.answers@.len() == 0,
        r.authority@.len() == 0,
{
    let mut r = resp;
    r.tc = true;
    r.answers = Vec::new();
    r.authority = Vec::new();
    r
}

/// Fails a response some record of which the wire format could not express:
/// such a record is invalid store data, so the response keeps only the
/// records encoded before it — `encoded_answers` of the answer section and
/// `encoded_authority` of the authority section — and answers `ServFail`.
/// A response whose sections encoded whole is returned unchanged.
pub fn fail_encoding(resp: DnsResponse, encoded_answers: usize, encoded_authority: usize) -> (r:
    DnsResponse)
    requires
        encoded_answers <= resp.answers@.len(),
        encoded_authority <= resp.authority@.len(),
    ensures
        (encoded_answers == resp.answers@.len() && encoded_authority == resp.authority@.len())
            ==> r == resp,
        !(encoded_answers == resp.answers@.len() && encoded_authority == resp.authority@.len())
            ==> {
            &&& r == (DnsResponse {
                rcode: Rcode::ServFail,
                answers: r.answers,
                authority: r.authority,
                ..resp
            })
            &&& r.answers@ == resp.answers@.take(encoded_answers as int)
            &&& r.authority@ == resp.authority@.take(encoded_authority as int)
        },
{
    if encoded_answers == resp.answers.len() && encoded_authority == resp.authority.len() {
        return resp;
    }
    let mut r = resp;
    r.rcode = Rcode::ServFail;
    r.answers.truncate(encoded_answers);
    r.authority.truncate(encoded_authority);
    proof {
        assert(r.answers@ =~= resp.answers@.take(encoded_answers as int));
        assert(r.authority@ =~= resp.authority@.take(encoded_authority as int));
    }
    r
}

} // verus!
