//! An authoritative DNS server core.
//!
//! Authoritative data lives in an external key-value store; this crate holds
//! the verified logic of the server: the key schema, the interpretation of
//! store lookups, the response-building pipeline, the TCP length framing and
//! the DNS-over-HTTPS parameter handling. The unverified binary around it
//! performs the socket, HTTP and store I/O and drives the pipeline.

use vstd::prelude::*;

pub mod config;
pub mod doh;
pub mod framing;
pub mod message;
pub mod name;
pub mod persistence;
pub mod resource_record;

use crate::message::{dnssec_ok_spec, DnsQuestion, DnsRequest, DnsResponse, Rcode};
use crate::name::{name_parse, zone_of, DnsName};
use crate::persistence::{
    rrset_key, rrset_key_spec, rrset_response, rrsig_key, rrsig_key_spec, QueryResponse,
    StoreValue,
};
use crate::resource_record::{Record, RecordType, ResourceRecord, StoreEntry};

verus! {

/// The single error sum type used across all components.
///
/// Request-scoped errors never kill the process; the pipeline maps them to
/// the `ServFail` response code.
#[derive(Debug, Clone, PartialEq, Eq)]
pub enum PektinError {
    /// An environment variable held an unparseable value; the payload names it.
    CommonError(EnvVarError),
    /// Connection or round-trip failure talking to the store.
    DbError,
    /// A connection could not be acquired from the pool.
    PoolError,
    /// Socket or bind failure.
    IoError,
    /// A store value could not be parsed as JSON.
    JsonError,
    /// Request bytes did not parse as a DNS message, or a response could not
    /// be serialised.
    ProtoError,
    /// Data in the store was readable but invalid (a bad zone name, an RRset
    /// whose records do not match its type).
    InvalidDbData,
    /// A store key returned a value of an unexpected kind (not a string where
    /// a string was required).
    WickedDbValue,
}

/// Configuration failure at startup: the named environment variable was
/// missing or invalid. The name is kept as bytes so that the caller can
/// report which variable was at fault without echoing its value.
#[derive(Debug, Clone, Copy, PartialEq, Eq, Structural)]
pub enum EnvVarError {
    Invalid(crate::config::EnvVar),
    Missing(crate::config::EnvVar),
}

pub type PektinResult<T> = Result<T, PektinError>;

/// Where the pipeline stands: which event it expects next.
#[derive(Debug)]
pub enum Phase {
    /// Waiting for a connection from the main pool.
    Start,
    /// Waiting for the RRset values of query `i`.
    QueryLoop { i: usize },
    /// Waiting for a connection from the DNSSEC pool, for query `i`.
    RrsigPool { i: usize },
    /// Waiting for the RRSIG values of query `i`.
    Rrsig { i: usize },
    /// Waiting for the list of authoritative zones.
    Zones,
    /// Waiting for the SOA values of the closest enclosing zone.
    Soa { zone: DnsName },
    /// The response is complete.
    Finished,
}

/// What the pipeline asks its driver to do next. The driver performs the
/// store I/O and feeds the outcome back in as the matching event.
#[derive(Debug)]
pub enum Action {
    /// Acquire a connection, from the DNSSEC pool or the main one, and
    /// report back with `on_connection`.
    GetConnection { dnssec: bool },
    /// Read the two keys in one round trip, in this order, and report back
    /// with `on_values`.
    GetValues { dnssec: bool, definitive_key: Vec<u8>, wildcard_key: Vec<u8> },
    /// Read the authoritative-zones index and report back with `on_zones`.
    GetZones,
    /// Take the finished response with `finish`.
    Respond,
}

/// The wildcard form of a name: its leftmost label replaced by `*`.
pub open spec fn wildcard_view(n: Seq<Seq<u8>>) -> Seq<Seq<u8>> {
    if n.len() == 0 {
        n
    } else {
        n.update(0, seq![42u8])
    }
}

/// The entry a lookup outcome contributes to the answer: none when both keys
/// were absent, the definitive entry when both were present (an explicit
/// RRset masks a wildcard one), and the lookup's error otherwise.
pub open spec fn lookup_entry(result: PektinResult<(StoreValue, StoreValue)>) -> Result<
    Option<StoreEntry>,
    PektinError,
> {
    match result {
        Err(e) => Err(e),
        Ok((d, w)) => match rrset_response(d, w) {
            Err(e) => Err(e),
            Ok(QueryResponse::Empty) => Ok(None),
            Ok(QueryResponse::Definitive(e)) => Ok(Some(e)),
            Ok(QueryResponse::Wildcard(e)) => Ok(Some(e)),
            Ok(QueryResponse::Both { definitive, .. }) => Ok(Some(definitive)),
        },
    }
}

/// A definitive RRset always masks a wildcard one: when both keys hold
/// well-formed entries, the answer comes from the definitive entry and never
/// from the wildcard.
pub proof fn lemma_definitive_masks_wildcard(d: StoreEntry, w: StoreEntry)
    requires
        d.wf(),
        w.wf(),
    ensures
        lookup_entry(Ok((StoreValue::Entry(d), StoreValue::Entry(w)))) == Ok::<
            Option<StoreEntry>,
            PektinError,
        >(Some(d)),
{
}

/// The first query at or after `from` whose type the server understands;
/// queries of unknown type are passed over as if their lookup came back
/// empty. Yields the query count when none is left.
pub open spec fn next_known(qs: Seq<DnsQuestion>, from: int) -> int
    decreases qs.len() - from,
{
    if from < 0 || from >= qs.len() {
        qs.len() as int
    } else if !(qs[from].qtype is Unknown) {
        from
    } else {
        next_known(qs, from + 1)
    }
}

/// `new_a` is `old_a` with one record per rdata of `rrs` appended: owner
/// `name` (the case the client sent), the shared `ttl`, the rdata in order.
pub open spec fn answers_appended(
    old_a: Seq<Record>,
    new_a: Seq<Record>,
    name: Seq<Seq<u8>>,
    ttl: u32,
    rrs: Seq<ResourceRecord>,
) -> bool {
    &&& new_a.len() == old_a.len() + rrs.len()
    &&& forall|j: int| 0 <= j < old_a.len() ==> new_a[j] == old_a[j]
    &&& forall|j: int|
        0 <= j < rrs.len() ==> {
            &&& (#[trigger] new_a[old_a.len() + j]).name@ == name
            &&& new_a[old_a.len() + j].ttl == ttl
            &&& new_a[old_a.len() + j].rdata == rrs[j]
        }
}

/// The authority section synthesised from a zone's SOA entry: one record per
/// rdata, owned by the queried name truncated to the zone's label count (so
/// the client's casing is kept), with the entry's TTL.
pub open spec fn authority_built(
    auth: Seq<Record>,
    qname: Seq<Seq<u8>>,
    zone_labels: int,
    e: StoreEntry,
) -> bool {
    &&& auth.len() == e.rr_set@.len()
    &&& forall|j: int|
        0 <= j < auth.len() ==> {
            &&& (#[trigger] auth[j]).name@ == qname.skip(qname.len() - zone_labels)
            &&& auth[j].ttl == e.ttl
            &&& auth[j].rdata == e.rr_set@[j]
        }
}

/// The pipeline failed the request: the response so far, with `ServFail`.
pub open spec fn failed(before: Pipeline, p2: Pipeline, a: Action) -> bool {
    &&& p2.resp() == (DnsResponse { rcode: Rcode::ServFail, ..before.resp() })
    &&& p2.stored() == before.stored()
    &&& p2.phase() is Finished
    &&& a is Respond
}

/// Where the pipeline goes once query `from` is done: to the next query the
/// server understands, or past the loop — straight to the response if some
/// answer was stored, to `Refused` if there was no query at all, and to the
/// authority synthesis otherwise.
pub open spec fn advance_outcome(
    req: DnsRequest,
    stored: bool,
    base: DnsResponse,
    from: int,
    p2: Pipeline,
    action: Action,
) -> bool {
    let qs = req.queries@;
    let j = next_known(qs, from);
    &&& p2.req() == req
    &&& p2.stored() == stored
    &&& if j < qs.len() {
        &&& p2.resp() == base
        &&& p2.phase() == (Phase::QueryLoop { i: j as usize })
        &&& (action matches Action::GetValues { dnssec, definitive_key, wildcard_key }
            && dnssec == false && definitive_key@ == rrset_key_spec(qs[j].name@, qs[j].qtype)
            && wildcard_key@ == rrset_key_spec(wildcard_view(qs[j].name@), qs[j].qtype))
    } else if stored {
        &&& p2.resp() == base
        &&& p2.phase() is Finished
        &&& action is Respond
    } else if qs.len() == 0 {
        &&& p2.resp() == (DnsResponse { rcode: Rcode::Refused, ..base })
        &&& p2.phase() is Finished
        &&& action is Respond
    } else {
        &&& p2.resp() == base
        &&& p2.phase() is Zones
        &&& action is GetZones
    }
}

/// The byte views of a vector of texts.
pub open spec fn texts_views(texts: Seq<Vec<u8>>) -> Seq<Seq<u8>> {
    texts.map_values(|x: Vec<u8>| x@)
}

/// Every element is the text of a name.
pub open spec fn all_parse(texts: Seq<Seq<u8>>) -> bool {
    forall|i: int| 0 <= i < texts.len() ==> name_parse(#[trigger] texts[i]) is Some
}

/// The names the texts denote, element for element.
pub open spec fn parsed_zones(texts: Seq<Seq<u8>>) -> Seq<Seq<Seq<u8>>> {
    texts.map_values(|t: Seq<u8>| name_parse(t)->0)
}

/// `z` is a closest enclosing zone of `qname` among `zones`: it encloses
/// `qname`, it is listed, and no listed zone enclosing `qname` has more
/// labels.
pub open spec fn best_zone(zones: Seq<Seq<Seq<u8>>>, qname: Seq<Seq<u8>>, z: Seq<Seq<u8>>) -> bool {
    &&& zone_of(z, qname)
    &&& exists|k: int| 0 <= k < zones.len() && #[trigger] zones[k] == z
    &&& forall|m: int|
        0 <= m < zones.len() && zone_of(#[trigger] zones[m], qname) ==> zones[m].len() <= z.len()
}

/// Seeds the response for a request: the request's id, opcode and
/// recursion-desired flag echoed, the authoritative-answer flag set,
/// recursion not available, an EDNS OPT advertising 4096 bytes, and no
/// sections yet. The first thing the driver must do is acquire a store
/// connection.
pub fn process_request(req: DnsRequest) -> (r: (Pipeline, Action))
    ensures
        ({
            let (p, action) = r;
            &&& p.inv()
            &&& p.req() == req
            &&& p.phase() is Start
            &&& !p.stored()
            &&& p.resp().id == req.id
            &&& p.resp().op_code == req.op_code
            &&& p.resp().rd == req.rd
            &&& p.resp().aa == true
            &&& p.resp().ra == false
            &&& p.resp().response == true
            &&& p.resp().rcode == Rcode::NoError
            &&& p.resp().edns_udp_payload == 4096
            &&& p.resp().queries@.len() == 0
            &&& p.resp().answers@.len() == 0
            &&& p.resp().authority@.len() == 0
            &&& action == (Action::GetConnection { dnssec: false })
        }),
{
    let resp = DnsResponse {
        id: req.id,
        op_code: req.op_code,
        rd: req.rd,
        aa: true,
        ra: false,
        response: true,
        tc: false,
        rcode: Rcode::NoError,
        edns_udp_payload: 4096,
        queries: Vec::new(),
        answers: Vec::new(),
        authority: Vec::new(),
    };
    let p = Pipeline { req, resp, answer_stored: false, phase: Phase::Start };
    (p, Action::GetConnection { dnssec: false })
}

/// The response-building pipeline for one request.
///
/// `process_request` seeds it; the driver then performs each returned
/// `Action` and reports the outcome through the matching `on_` method until
/// the action is `Respond`, upon which `finish` hands out the response. The
/// pipeline itself never does I/O, so everything it decides is verified; the
/// driver decides nothing.
pub struct Pipeline {
    req: DnsRequest,
    resp: DnsResponse,
    answer_stored: bool,
    phase: Phase,
}

impl Pipeline {
    /// The request being answered.
    pub closed spec fn req(&self) -> DnsRequest {
        self.req
    }

    /// The response as built so far. Its question section stays empty until
    /// `finish` echoes the request's queries into it.
    pub closed spec fn resp(&self) -> DnsResponse {
        self.resp
    }

    /// Whether some lookup has contributed an answer record yet.
    pub closed spec fn stored(&self) -> bool {
        self.answer_stored
    }

    /// Which event the pipeline expects next.
    pub closed spec fn phase(&self) -> Phase {
        self.phase
    }

    pub open spec fn expects_connection(&self) -> bool {
        self.phase() is Start || self.phase() is RrsigPool
    }

    pub open spec fn expects_values(&self) -> bool {
        self.phase() is QueryLoop || self.phase() is Rrsig || self.phase() is Soa
    }

    pub open spec fn expects_zones(&self) -> bool {
        self.phase() is Zones
    }

    pub open spec fn is_finished(&self) -> bool {
        self.phase() is Finished
    }

    /// What holds of the pipeline between any two steps: the response echoes
    /// the request's header fields, carries the fixed EDNS advertisement,
    /// and each phase finds the state it relies on.
    pub closed spec fn inv(&self) -> bool {
        &&& self.resp.id == self.req.id
        &&& self.resp.op_code == self.req.op_code
        &&& self.resp.rd == self.req.rd
        &&& self.resp.aa == true
        &&& self.resp.ra == false
        &&& self.resp.response == true
        &&& self.resp.tc == false
        &&& self.resp.edns_udp_payload == 4096
        &&& self.resp.queries@.len() == 0
        &&& (self.resp.answers@.len() > 0 ==> self.answer_stored)
        &&& match self.phase {
            Phase::Start => {
                &&& !self.answer_stored
                &&& self.resp.authority@.len() == 0
                &&& self.resp.rcode == Rcode::NoError
            },
            Phase::QueryLoop { i } => {
                &&& i < self.req.queries@.len()
                &&& !(self.req.queries@[i as int].qtype is Unknown)
                &&& self.resp.authority@.len() == 0
                &&& self.resp.rcode == Rcode::NoError
            },
            Phase::RrsigPool { i } => {
                &&& i < self.req.queries@.len()
                &&& !(self.req.queries@[i as int].qtype is Unknown)
                &&& self.answer_stored
                &&& self.resp.authority@.len() == 0
                &&& self.resp.rcode == Rcode::NoError
            },
            Phase::Rrsig { i } => {
                &&& i < self.req.queries@.len()
                &&& !(self.req.queries@[i as int].qtype is Unknown)
                &&& self.answer_stored
                &&& self.resp.authority@.len() == 0
                &&& self.resp.rcode == Rcode::NoError
            },
            Phase::Zones => {
                &&& self.req.queries@.len() > 0
                &&& !self.answer_stored
                &&& self.resp.authority@.len() == 0
                &&& self.resp.rcode == Rcode::NoError
            },
            Phase::Soa { zone } => {
                &&& self.req.queries@.len() > 0
                &&& !self.answer_stored
                &&& self.resp.authority@.len() == 0
                &&& self.resp.rcode == Rcode::NoError
                &&& zone.wf()
                &&& zone_of(zone@, self.req.queries@[0].name@)
            },
            Phase::Finished => true,
        }
    }

    /// Fails the request: `ServFail`, nothing more to do.
    fn fail(self) -> (r: (Pipeline, Action))
        requires
            self.inv(),
        ensures
            ({
                let (p2, a) = r;
                &&& p2.inv()
                &&& p2.req() == self.req()
                &&& failed(self, p2, a)
            }),
    {
        let mut p = self;
        p.resp.rcode = Rcode::ServFail;
        p.phase = Phase::Finished;
        (p, Action::Respond)
    }

    /// Moves to the next query the server understands, or past the loop.
    fn advance(self, from: usize) -> (r: (Pipeline, Action))
        requires
            self.inv(),
            self.resp().rcode == Rcode::NoError,
            self.resp().authority@.len() == 0,
            from <= self.req().queries@.len(),
        ensures
            ({
                let (p2, a) = r;
                &&& p2.inv()
                &&& p2.req() == self.req()
                &&& advance_outcome(self.req(), self.stored(), self.resp(), from as int, p2, a)
            }),
    {
        let mut p = self;
        let mut i = from;
        while i < p.req.queries.len() && !p.req.queries[i].qtype.is_known()
            invariant
                from <= i <= p.req.queries@.len(),
                p == self,
                next_known(p.req.queries@, from as int) == next_known(p.req.queries@, i as int),
            decreases p.req.queries@.len() - i,
        {
            i += 1;
        }
        if i < p.req.queries.len() {
            let q = &p.req.queries[i];
            let definitive_key = rrset_key(&q.name, q.qtype);
            let wildcard_key = rrset_key(&q.name.to_wildcard(), q.qtype);
            p.phase = Phase::QueryLoop { i };
            (p, Action::GetValues { dnssec: false, definitive_key, wildcard_key })
        } else if p.answer_stored {
            p.phase = Phase::Finished;
            (p, Action::Respond)
        } else if p.req.queries.len() == 0 {
            p.resp.rcode = Rcode::Refused;
            p.phase = Phase::Finished;
            (p, Action::Respond)
        } else {
            p.phase = Phase::Zones;
            (p, Action::GetZones)
        }
    }

    /// Appends one answer record per rdata — owner `name` in the client's
    /// casing, the entry's TTL — and notes that an answer was stored.
    fn push_answers(&mut self, name: &DnsName, ttl: u32, rr_set: Vec<ResourceRecord>)
        ensures
            answers_appended(
                old(self).resp().answers@,
                final(self).resp().answers@,
                name@,
                ttl,
                rr_set@,
            ),
            final(self).resp() == (DnsResponse {
                answers: final(self).resp().answers,
                ..old(self).resp()
            }),
            final(self).req() == old(self).req(),
            final(self).stored() == true,
            final(self).phase() == old(self).phase(),
    {
        let ghost orig = rr_set@;
        let ghost base = self.resp.answers@;
        self.answer_stored = true;
        let mut rest = rr_set;
        let ghost mut idx: int = 0;
        while rest.len() > 0
            invariant
                0 <= idx,
                idx + rest@.len() == orig.len(),
                rest@ == orig.skip(idx),
                self.resp.answers@.len() == base.len() + idx,
                forall|j: int| 0 <= j < base.len() ==> self.resp.answers@[j] == base[j],
                forall|j: int|
                    0 <= j < idx ==> {
                        &&& (#[trigger] self.resp.answers@[base.len() + j]).name@ == name@
                        &&& self.resp.answers@[base.len() + j].ttl == ttl
                        &&& self.resp.answers@[base.len() + j].rdata == orig[j]
                    },
                self.resp == (DnsResponse { answers: self.resp.answers, ..old(self).resp }),
                self.req == old(self).req,
                self.answer_stored == true,
                self.phase == old(self).phase,
            decreases rest@.len(),
        {
            let rr = rest.remove(0);
            proof {
                assert(rr == orig[idx]);
                assert(rest@ =~= orig.skip(idx + 1));
            }
            self.resp.answers.push(Record { name: name.copy(), ttl, rdata: rr });
            proof {
                idx = idx + 1;
            }
        }
    }


    /// Feeds back whether a connection could be acquired from the pool the
    /// last action named. A failure fails the whole request; the first
    /// connection opens the answering loop; a DNSSEC connection leads to the
    /// RRSIG lookup for the query just answered.
    pub fn on_connection(self, ok: bool) -> (r: (Pipeline, Action))
        requires
            self.inv(),
            self.expects_connection(),
        ensures
            ({
                let (p2, a) = r;
                &&& p2.inv()
                &&& p2.req() == self.req()
                &&& if !ok {
                    failed(self, p2, a)
                } else {
                    match self.phase() {
                        Phase::Start => advance_outcome(
                            self.req(),
                            self.stored(),
                            self.resp(),
                            0,
                            p2,
                            a,
                        ),
                        Phase::RrsigPool { i } => {
                            let q = self.req().queries@[i as int];
                            &&& p2.resp() == self.resp()
                            &&& p2.stored() == self.stored()
                            &&& p2.phase() == (Phase::Rrsig { i })
                            &&& (a matches Action::GetValues { dnssec, definitive_key, wildcard_key }
                                && dnssec == true && definitive_key@ == rrsig_key_spec(
                                q.name@,
                                q.qtype,
                            ) && wildcard_key@ == rrsig_key_spec(wildcard_view(q.name@), q.qtype))
                        },
                        _ => false,
                    }
                }
            }),
    {
        if !ok {
            return self.fail();
        }
        let mut p = self;
        match &p.phase {
            Phase::Start => p.advance(0),
            Phase::RrsigPool { i } => {
                let i = *i;
                let q = &p.req.queries[i];
                let definitive_key = rrsig_key(&q.name, q.qtype);
                let wildcard_key = rrsig_key(&q.name.to_wildcard(), q.qtype);
                p.phase = Phase::Rrsig { i };
                (p, Action::GetValues { dnssec: true, definitive_key, wildcard_key })
            },
            _ => {
                proof {
                    assert(false);
                }
                (p, Action::Respond)
            },
        }
    }

    /// Appends one authority record per rdata, owned by `owner`, with the
    /// entry's TTL.
    fn push_authority(&mut self, owner: &DnsName, ttl: u32, rr_set: Vec<ResourceRecord>)
        ensures
            final(self).resp().authority@.len() == old(self).resp().authority@.len()
                + rr_set@.len(),
            forall|j: int|
                0 <= j < old(self).resp().authority@.len() ==> final(self).resp().authority@[j]
                    == old(self).resp().authority@[j],
            forall|j: int|
                0 <= j < rr_set@.len() ==> {
                    &&& (#[trigger] final(self).resp().authority@[old(
                        self,
                    ).resp().authority@.len() + j]).name@ == owner@
                    &&& final(self).resp().authority@[old(self).resp().authority@.len() + j].ttl
                        == ttl
                    &&& final(self).resp().authority@[old(self).resp().authority@.len() + j].rdata
                        == rr_set@[j]
                },
            final(self).resp() == (DnsResponse {
                authority: final(self).resp().authority,
                ..old(self).resp()
            }),
            final(self).req() == old(self).req(),
            final(self).stored() == old(self).stored(),
            final(self).phase() == old(self).phase(),
    {
        let ghost orig = rr_set@;
        let ghost base = self.resp.authority@;
        let mut rest = rr_set;
        let ghost mut idx: int = 0;
        while rest.len() > 0
            invariant
                0 <= idx,
                idx + rest@.len() == orig.len(),
                rest@ == orig.skip(idx),
                self.resp.authority@.len() == base.len() + idx,
                forall|j: int| 0 <= j < base.len() ==> self.resp.authority@[j] == base[j],
                forall|j: int|
                    0 <= j < idx ==> {
                        &&& (#[trigger] self.resp.authority@[base.len() + j]).name@ == owner@
                        &&& self.resp.authority@[base.len() + j].ttl == ttl
                        &&& self.resp.authority@[base.len() + j].rdata == orig[j]
                    },
                self.resp == (DnsResponse { authority: self.resp.authority, ..old(self).resp }),
                self.req == old(self).req,
                self.answer_stored == old(self).answer_stored,
                self.phase == old(self).phase,
            decreases rest@.len(),
        {
            let rr = rest.remove(0);
            proof {
                assert(rr == orig[idx]);
                assert(rest@ =~= orig.skip(idx + 1));
            }
            self.resp.authority.push(Record { name: owner.copy(), ttl, rdata: rr });
            proof {
                idx = idx + 1;
            }
        }
    }

    /// Feeds back what a dual-key lookup returned. In the answering loop the
    /// entry's records are appended to the answer section under the queried
    /// name; after the loop the closest zone's SOA entry becomes the
    /// authority section and the `NXDomain` code. A store error fails the
    /// request; an empty lookup leaves the response as it was — except after
    /// the loop, where a zone without an SOA entry refuses the query.
    pub fn on_values(self, result: PektinResult<(StoreValue, StoreValue)>) -> (r: (
        Pipeline,
        Action,
    ))
        requires
            self.inv(),
            self.expects_values(),
        ensures
            ({
                let (p2, a) = r;
                &&& p2.inv()
                &&& p2.req() == self.req()
                &&& match self.phase() {
                    Phase::QueryLoop { i } => {
                        let q = self.req().queries@[i as int];
                        match lookup_entry(result) {
                            Err(_) => failed(self, p2, a),
                            Ok(None) => advance_outcome(
                                self.req(),
                                self.stored(),
                                self.resp(),
                                i + 1,
                                p2,
                                a,
                            ),
                            Ok(Some(e)) => {
                                &&& answers_appended(
                                    self.resp().answers@,
                                    p2.resp().answers@,
                                    q.name@,
                                    e.ttl,
                                    e.rr_set@,
                                )
                                &&& p2.resp() == (DnsResponse {
                                    answers: p2.resp().answers,
                                    ..self.resp()
                                })
                                &&& p2.stored() == true
                                &&& if dnssec_ok_spec(self.req()) {
                                    &&& p2.phase() == (Phase::RrsigPool { i })
                                    &&& a == (Action::GetConnection { dnssec: true })
                                } else {
                                    advance_outcome(self.req(), true, p2.resp(), i + 1, p2, a)
                                }
                            },
                        }
                    },
                    Phase::Rrsig { i } => {
                        let q = self.req().queries@[i as int];
                        match lookup_entry(result) {
                            Err(_) => failed(self, p2, a),
                            Ok(None) => advance_outcome(
                                self.req(),
                                self.stored(),
                                self.resp(),
                                i + 1,
                                p2,
                                a,
                            ),
                            Ok(Some(e)) => {
                                &&& answers_appended(
                                    self.resp().answers@,
                                    p2.resp().answers@,
                                    q.name@,
                                    e.ttl,
                                    e.rr_set@,
                                )
                                &&& p2.resp() == (DnsResponse {
                                    answers: p2.resp().answers,
                                    ..self.resp()
                                })
                                &&& advance_outcome(self.req(), true, p2.resp(), i + 1, p2, a)
                            },
                        }
                    },
                    Phase::Soa { zone } => {
                        let qname = self.req().queries@[0].name@;
                        match lookup_entry(result) {
                            Err(_) => failed(self, p2, a),
                            Ok(None) => {
                                &&& p2.resp() == (DnsResponse {
                                    rcode: Rcode::Refused,
                                    ..self.resp()
                                })
                                &&& p2.resp().answers@.len() == 0
                                &&& p2.resp().authority@.len() == 0
                                &&& p2.phase() is Finished
                                &&& a is Respond
                            },
                            Ok(Some(e)) => {
                                &&& p2.phase() is Finished
                                &&& a is Respond
                                &&& p2.resp().answers@.len() == 0
                                &&& if e.rr_type == RecordType::SOA && e.rr_set@.len() > 0 {
                                    &&& authority_built(
                                        p2.resp().authority@,
                                        qname,
                                        zone@.len() as int,
                                        e,
                                    )
                                    &&& p2.resp() == (DnsResponse {
                                        authority: p2.resp().authority,
                                        rcode: Rcode::NXDomain,
                                        ..self.resp()
                                    })
                                } else {
                                    p2.resp() == self.resp()
                                }
                            },
                        }
                    },
                    _ => false,
                }
            }),
    {
        let entry_res: Result<Option<StoreEntry>, PektinError> = match result {
            Err(e) => Err(e),
            Ok((d, w)) => match crate::persistence::get_rrset(d, w) {
                Err(e) => Err(e),
                Ok(QueryResponse::Empty) => Ok(None),
                Ok(QueryResponse::Definitive(e)) => Ok(Some(e)),
                Ok(QueryResponse::Wildcard(e)) => Ok(Some(e)),
                Ok(QueryResponse::Both { definitive, wildcard: _ }) => Ok(Some(definitive)),
            },
        };
        proof {
            assert(entry_res == lookup_entry(result));
        }
        let mut p = self;
        let mut ph = Phase::Finished;
        core::mem::swap(&mut ph, &mut p.phase);
        match ph {
            Phase::QueryLoop { i } => {
                let n = p.req.queries.len();
                proof {
                    assert(i < n);
                }
                match entry_res {
                    Err(_) => p.fail(),
                    Ok(None) => p.advance(i + 1),
                    Ok(Some(e)) => {
                        let qname = p.req.queries[i].name.copy();
                        p.push_answers(&qname, e.ttl, e.rr_set);
                        if p.req.dnssec_ok() {
                            p.phase = Phase::RrsigPool { i };
                            (p, Action::GetConnection { dnssec: true })
                        } else {
                            p.advance(i + 1)
                        }
                    },
                }
            },
            Phase::Rrsig { i } => {
                let n = p.req.queries.len();
                proof {
                    assert(i < n);
                }
                match entry_res {
                    Err(_) => p.fail(),
                    Ok(None) => p.advance(i + 1),
                    Ok(Some(e)) => {
                        let qname = p.req.queries[i].name.copy();
                        p.push_answers(&qname, e.ttl, e.rr_set);
                        p.advance(i + 1)
                    },
                }
            },
            Phase::Soa { zone } => {
                match entry_res {
                    Err(_) => p.fail(),
                    Ok(None) => {
                        p.resp.rcode = Rcode::Refused;
                        p.phase = Phase::Finished;
                        (p, Action::Respond)
                    },
                    Ok(Some(e)) => {
                        if e.rr_type == RecordType::SOA && e.rr_set.len() > 0 {
                            let ghost ge = e;
                            let ghost qname = self.req().queries@[0].name@;
                            let zl = zone.num_labels();
                            let owner = p.req.queries[0].name.truncated_to(zl);
                            let ghost before = p.resp.authority@;
                            p.push_authority(&owner, e.ttl, e.rr_set);
                            proof {
                                assert(before.len() == 0);
                                assert(owner@ == qname.skip(qname.len() - zone@.len()));
                                assert forall|j: int|
                                    0 <= j < p.resp.authority@.len() implies {
                                    &&& (#[trigger] p.resp.authority@[j]).name@ == qname.skip(
                                        qname.len() - zone@.len(),
                                    )
                                    &&& p.resp.authority@[j].ttl == ge.ttl
                                    &&& p.resp.authority@[j].rdata == ge.rr_set@[j]
                                } by {
                                    assert(p.resp.authority@[before.len() + j].name@ == owner@);
                                    assert(p.resp.authority@[before.len() + j].ttl == ge.ttl);
                                    assert(p.resp.authority@[before.len() + j].rdata
                                        == ge.rr_set@[j]);
                                }
                                assert(authority_built(
                                    p.resp.authority@,
                                    qname,
                                    zone@.len() as int,
                                    ge,
                                ));
                            }
                            p.resp.rcode = Rcode::NXDomain;
                            p.phase = Phase::Finished;
                            (p, Action::Respond)
                        } else {
                            p.phase = Phase::Finished;
                            (p, Action::Respond)
                        }
                    },
                }
            },
            _ => {
                proof {
                    assert(false);
                }
                (p, Action::Respond)
            },
        }
    }

    /// Feeds back the authoritative-zones index, as the raw texts the store
    /// holds. A store error or an unparseable zone name fails the request; a
    /// queried name no listed zone encloses is refused; otherwise the
    /// pipeline asks for the SOA entry of the closest enclosing zone.
    pub fn on_zones(self, result: PektinResult<Vec<Vec<u8>>>) -> (r: (Pipeline, Action))
        requires
            self.inv(),
            self.expects_zones(),
        ensures
            ({
                let (p2, a) = r;
                &&& p2.inv()
                &&& p2.req() == self.req()
                &&& ({
                    let qname = self.req().queries@[0].name@;
                    match result {
                        Err(_) => failed(self, p2, a),
                        Ok(texts) => {
                            let tviews = texts_views(texts@);
                            if !all_parse(tviews) {
                                failed(self, p2, a)
                            } else {
                                let zones = parsed_zones(tviews);
                                if exists|k: int|
                                    0 <= k < zones.len() && zone_of(#[trigger] zones[k], qname) {
                                    &&& p2.resp() == self.resp()
                                    &&& p2.stored() == self.stored()
                                    &&& (p2.phase() matches Phase::Soa { zone } && best_zone(
                                        zones,
                                        qname,
                                        zone@,
                                    ) && (a matches Action::GetValues {
                                        dnssec,
                                        definitive_key,
                                        wildcard_key,
                                    } && dnssec == false && definitive_key@ == rrset_key_spec(
                                        zone@,
                                        RecordType::SOA,
                                    ) && wildcard_key@ == rrset_key_spec(
                                        wildcard_view(zone@),
                                        RecordType::SOA,
                                    )))
                                } else {
                                    &&& p2.resp() == (DnsResponse {
                                        rcode: Rcode::Refused,
                                        ..self.resp()
                                    })
                                    &&& p2.resp().answers@.len() == 0
                                    &&& p2.resp().authority@.len() == 0
                                    &&& p2.phase() is Finished
                                    &&& a is Respond
                                }
                            }
                        },
                    }
                })
            }),
    {
        let mut p = self;
        match result {
            Err(_) => p.fail(),
            Ok(texts) => {
                let ghost tviews = texts_views(texts@);
                let mut zs: Vec<DnsName> = Vec::new();
                let mut t: usize = 0;
                while t < texts.len()
                    invariant
                        0 <= t <= texts@.len(),
                        p == self,
                        p.inv(),
                        self.expects_zones(),
                        result == Ok::<Vec<Vec<u8>>, PektinError>(texts),
                        tviews == texts_views(texts@),
                        zs@.len() == t,
                        forall|j: int| 0 <= j < t ==> name_parse(#[trigger] tviews[j]) is Some,
                        forall|j: int|
                            0 <= j < t ==> (#[trigger] zs@[j])@ == name_parse(tviews[j])->0
                                && zs@[j].wf(),
                    decreases texts@.len() - t,
                {
                    proof {
                        assert(tviews[t as int] == texts@[t as int]@);
                    }
                    match DnsName::parse(texts[t].as_slice()) {
                        None => {
                            proof {
                                assert(name_parse(tviews[t as int]) is None);
                                assert(!all_parse(tviews));
                            }
                            return p.fail();
                        },
                        Some(n) => {
                            zs.push(n);
                        },
                    }
                    t += 1;
                }
                let ghost zones = parsed_zones(tviews);
                proof {
                    assert(all_parse(tviews));
                    assert forall|j: int| 0 <= j < zones.len() implies zones[j] == zs@[j]@ by {
                        assert(name_parse(tviews[j]) is Some);
                    }
                }
                // the closest enclosing zone: the matching zone with the most labels
                let mut best: usize = 0;
                let mut found = false;
                let mut m: usize = 0;
                while m < zs.len()
                    invariant
                        0 <= m <= zs@.len(),
                        p == self,
                        p.inv(),
                        self.req().queries@.len() > 0,
                        zones.len() == zs@.len(),
                        forall|j: int| 0 <= j < zs@.len() ==> zones[j] == (#[trigger] zs@[j])@,
                        found ==> best < m && zone_of(
                            zs@[best as int]@,
                            self.req().queries@[0].name@,
                        ),
                        found ==> forall|j: int|
                            0 <= j < m && zone_of(
                                #[trigger] zs@[j]@,
                                self.req().queries@[0].name@,
                            ) ==> zs@[j]@.len() <= zs@[best as int]@.len(),
                        !found ==> forall|j: int|
                            0 <= j < m ==> !zone_of(#[trigger] zs@[j]@, self.req().queries@[0].name@),
                    decreases zs@.len() - m,
                {
                    let is_match = zs[m].zone_of(&p.req.queries[0].name);
                    if is_match && (!found || zs[m].num_labels() > zs[best].num_labels()) {
                        best = m;
                        found = true;
                    }
                    m += 1;
                }
                if found {
                    let zone = zs[best].copy();
                    let definitive_key = rrset_key(&zone, RecordType::SOA);
                    let wildcard_key = rrset_key(&zone.to_wildcard(), RecordType::SOA);
                    proof {
                        assert(zones[best as int] == zs@[best as int]@);
                        assert(best_zone(zones, self.req().queries@[0].name@, zone@));
                    }
                    p.phase = Phase::Soa { zone };
                    (p, Action::GetValues { dnssec: false, definitive_key, wildcard_key })
                } else {
                    proof {
                        if exists|k: int|
                            0 <= k < zones.len() && zone_of(
                                #[trigger] zones[k],
                                self.req().queries@[0].name@,
                            ) {
                            let k = choose|k: int|
                                0 <= k < zones.len() && zone_of(
                                    #[trigger] zones[k],
                                    self.req().queries@[0].name@,
                                );
                            assert(zone_of(zs@[k]@, self.req().queries@[0].name@));
                            assert(false);
                        }
                    }
                    p.resp.rcode = Rcode::Refused;
                    p.phase = Phase::Finished;
                    (p, Action::Respond)
                }
            },
        }
    }

    /// Hands out the finished response, echoing the request's question
    /// section into it last. Every response echoes the request's id, opcode
    /// and recursion-desired flag, answers authoritatively, and offers no
    /// recursion.
    pub fn finish(self) -> (r: DnsResponse)
        requires
            self.inv(),
            self.is_finished(),
        ensures
            r == (DnsResponse { queries: self.req().queries, ..self.resp() }),
            r.id == self.req().id,
            r.op_code == self.req().op_code,
            r.rd == self.req().rd,
            r.aa == true,
            r.ra == false,
            r.response == true,
            r.tc == false,
            r.edns_udp_payload == 4096,
            r.queries == self.req().queries,
    {
        let Pipeline { req, mut resp, answer_stored: _, phase: _ } = self;
        resp.queries = req.queries;
        resp
    }
}

} // verus!
