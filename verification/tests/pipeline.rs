use pektin_server::message::{fail_encoding, truncate_response, DnsQuestion, DnsRequest, DnsResponse, EdnsRequest, Rcode};
use pektin_server::name::DnsName;
use pektin_server::persistence::StoreValue;
use pektin_server::resource_record::{RecordType, ResourceRecord, StoreEntry};
use pektin_server::{process_request, Action, PektinError};

fn name(s: &str) -> DnsName {
    DnsName::parse(s.as_bytes()).unwrap()
}

fn question(s: &str, qtype: RecordType) -> DnsQuestion {
    DnsQuestion { name: name(s), qtype, qclass: 1 }
}

fn request(queries: Vec<DnsQuestion>) -> DnsRequest {
    DnsRequest { id: 0x1234, op_code: 0, rd: true, edns: None, queries }
}

/// A scripted store the test drives the pipeline against.
struct TestStore {
    entries: Vec<(Vec<u8>, StoreValue)>,
    zones: Result<Vec<Vec<u8>>, PektinError>,
    pool_ok: bool,
    dnssec_pool_ok: bool,
    values_err: Option<PektinError>,
}

impl TestStore {
    fn new() -> TestStore {
        TestStore {
            entries: Vec::new(),
            zones: Ok(Vec::new()),
            pool_ok: true,
            dnssec_pool_ok: true,
            values_err: None,
        }
    }

    fn with_entry(mut self, key: &str, value: StoreValue) -> TestStore {
        self.entries.push((key.as_bytes().to_vec(), value));
        self
    }

    fn with_zones(mut self, zones: &[&str]) -> TestStore {
        self.zones = Ok(zones.iter().map(|z| z.as_bytes().to_vec()).collect());
        self
    }

    fn lookup(&self, key: &[u8]) -> StoreValue {
        for (k, v) in &self.entries {
            if k.as_slice() == key {
                return v.clone();
            }
        }
        StoreValue::Missing
    }
}

fn run(req: DnsRequest, store: &TestStore) -> DnsResponse {
    let (mut p, mut action) = process_request(req);
    loop {
        match action {
            Action::GetConnection { dnssec } => {
                let ok = if dnssec { store.dnssec_pool_ok } else { store.pool_ok };
                let (p2, a) = p.on_connection(ok);
                p = p2;
                action = a;
            }
            Action::GetValues { definitive_key, wildcard_key, .. } => {
                let result = match &store.values_err {
                    Some(e) => Err(e.clone()),
                    None => Ok((store.lookup(&definitive_key), store.lookup(&wildcard_key))),
                };
                let (p2, a) = p.on_values(result);
                p = p2;
                action = a;
            }
            Action::GetZones => {
                let (p2, a) = p.on_zones(store.zones.clone());
                p = p2;
                action = a;
            }
            Action::Respond => return p.finish(),
        }
    }
}

fn a_entry(ttl: u32, addr: u32) -> StoreEntry {
    StoreEntry { rr_type: RecordType::A, ttl, rr_set: vec![ResourceRecord::A(addr)] }
}

fn soa_entry(ttl: u32) -> StoreEntry {
    StoreEntry {
        rr_type: RecordType::SOA,
        ttl,
        rr_set: vec![ResourceRecord::SOA {
            mname: b"ns.example.com.".to_vec(),
            rname: b"hostmaster.example.com.".to_vec(),
            serial: 1,
            refresh: 3600,
            retry: 600,
            expire: 86400,
            minimum: 300,
        }],
    }
}

#[test]
fn definitive_a_record() {
    let store = TestStore::new()
        .with_entry("example.com.:A", StoreValue::Entry(a_entry(300, 0x01020304)));
    let resp = run(request(vec![question("example.com.", RecordType::A)]), &store);
    assert_eq!(resp.rcode, Rcode::NoError);
    assert!(resp.aa);
    assert!(!resp.ra);
    assert!(resp.response);
    assert_eq!(resp.id, 0x1234);
    assert!(resp.rd);
    assert_eq!(resp.answers.len(), 1);
    assert_eq!(resp.answers[0].name, name("example.com."));
    assert_eq!(resp.answers[0].ttl, 300);
    assert_eq!(resp.answers[0].rdata, ResourceRecord::A(0x01020304));
    assert!(resp.authority.is_empty());
    assert_eq!(resp.queries, vec![question("example.com.", RecordType::A)]);
}

#[test]
fn wildcard_hit_preserves_query_case() {
    let store = TestStore::new()
        .with_entry("*.example.com.:A", StoreValue::Entry(a_entry(60, 0x05060708)));
    let resp = run(request(vec![question("FoO.example.com.", RecordType::A)]), &store);
    assert_eq!(resp.rcode, Rcode::NoError);
    assert_eq!(resp.answers.len(), 1);
    // the owner name keeps the casing the client sent
    assert_eq!(resp.answers[0].name, name("FoO.example.com."));
    assert_eq!(resp.answers[0].ttl, 60);
    assert_eq!(resp.answers[0].rdata, ResourceRecord::A(0x05060708));
}

#[test]
fn definitive_masks_wildcard() {
    let store = TestStore::new()
        .with_entry("foo.example.com.:A", StoreValue::Entry(a_entry(300, 0x01020304)))
        .with_entry("*.example.com.:A", StoreValue::Entry(a_entry(60, 0x05060708)));
    let resp = run(request(vec![question("foo.example.com.", RecordType::A)]), &store);
    assert_eq!(resp.answers.len(), 1);
    assert_eq!(resp.answers[0].ttl, 300);
    assert_eq!(resp.answers[0].rdata, ResourceRecord::A(0x01020304));
}

#[test]
fn nxdomain_with_soa_in_authority() {
    let store = TestStore::new()
        .with_zones(&["example.com."])
        .with_entry("example.com.:SOA", StoreValue::Entry(soa_entry(3600)));
    let resp = run(request(vec![question("missing.example.com.", RecordType::A)]), &store);
    assert_eq!(resp.rcode, Rcode::NXDomain);
    assert!(resp.answers.is_empty());
    assert_eq!(resp.authority.len(), 1);
    assert_eq!(resp.authority[0].name, name("example.com."));
    assert_eq!(resp.authority[0].ttl, 3600);
    match &resp.authority[0].rdata {
        ResourceRecord::SOA { mname, serial, .. } => {
            assert_eq!(mname, b"ns.example.com.");
            assert_eq!(*serial, 1);
        }
        other => panic!("expected an SOA record, got {:?}", other),
    }
}

#[test]
fn soa_owner_keeps_query_case() {
    let store = TestStore::new()
        .with_zones(&["example.com."])
        .with_entry("example.com.:SOA", StoreValue::Entry(soa_entry(3600)));
    let resp = run(request(vec![question("missing.ExAmPlE.CoM.", RecordType::A)]), &store);
    assert_eq!(resp.rcode, Rcode::NXDomain);
    assert_eq!(resp.authority[0].name, name("ExAmPlE.CoM."));
}

#[test]
fn longest_zone_wins() {
    let store = TestStore::new()
        .with_zones(&["example.com.", "sub.example.com."])
        .with_entry("example.com.:SOA", StoreValue::Entry(soa_entry(3600)))
        .with_entry("sub.example.com.:SOA", StoreValue::Entry(soa_entry(60)));
    let resp = run(request(vec![question("a.sub.example.com.", RecordType::A)]), &store);
    assert_eq!(resp.rcode, Rcode::NXDomain);
    assert_eq!(resp.authority.len(), 1);
    assert_eq!(resp.authority[0].name, name("sub.example.com."));
    assert_eq!(resp.authority[0].ttl, 60);
}

#[test]
fn refused_outside_every_zone() {
    let store = TestStore::new()
        .with_zones(&["example.com."])
        .with_entry("example.com.:SOA", StoreValue::Entry(soa_entry(3600)));
    let resp = run(request(vec![question("other.tld.", RecordType::A)]), &store);
    assert_eq!(resp.rcode, Rcode::Refused);
    assert!(resp.answers.is_empty());
    assert!(resp.authority.is_empty());
    assert_eq!(resp.queries, vec![question("other.tld.", RecordType::A)]);
}

#[test]
fn refused_when_no_query() {
    let store = TestStore::new();
    let resp = run(request(vec![]), &store);
    assert_eq!(resp.rcode, Rcode::Refused);
    assert!(resp.answers.is_empty());
    assert!(resp.authority.is_empty());
    assert!(resp.queries.is_empty());
}

#[test]
fn servfail_on_pool_exhaustion() {
    let mut store = TestStore::new()
        .with_entry("example.com.:A", StoreValue::Entry(a_entry(300, 0x01020304)));
    store.pool_ok = false;
    let resp = run(request(vec![question("example.com.", RecordType::A)]), &store);
    assert_eq!(resp.rcode, Rcode::ServFail);
    assert!(resp.answers.is_empty());
    assert!(resp.authority.is_empty());
    assert_eq!(resp.queries, vec![question("example.com.", RecordType::A)]);
}

#[test]
fn servfail_on_store_error() {
    let mut store = TestStore::new();
    store.values_err = Some(PektinError::DbError);
    let resp = run(request(vec![question("example.com.", RecordType::A)]), &store);
    assert_eq!(resp.rcode, Rcode::ServFail);
    assert!(resp.answers.is_empty());
}

#[test]
fn servfail_on_zones_error() {
    let mut store = TestStore::new();
    store.zones = Err(PektinError::DbError);
    let resp = run(request(vec![question("example.com.", RecordType::A)]), &store);
    assert_eq!(resp.rcode, Rcode::ServFail);
}

#[test]
fn servfail_on_bad_zone_name_in_store() {
    let store = TestStore::new().with_zones(&["not a name"]);
    let resp = run(request(vec![question("example.com.", RecordType::A)]), &store);
    assert_eq!(resp.rcode, Rcode::ServFail);
}

#[test]
fn refused_when_zone_has_no_soa_entry() {
    let store = TestStore::new().with_zones(&["example.com."]);
    let resp = run(request(vec![question("missing.example.com.", RecordType::A)]), &store);
    assert_eq!(resp.rcode, Rcode::Refused);
    assert!(resp.authority.is_empty());
}

#[test]
fn no_error_when_soa_key_holds_other_type() {
    // an entry of another type under the zone's SOA lookup adds nothing
    let store = TestStore::new()
        .with_zones(&["example.com."])
        .with_entry("example.com.:SOA", StoreValue::Entry(a_entry(300, 1)));
    let resp = run(request(vec![question("missing.example.com.", RecordType::A)]), &store);
    assert_eq!(resp.rcode, Rcode::NoError);
    assert!(resp.answers.is_empty());
    assert!(resp.authority.is_empty());
}

#[test]
fn unknown_query_type_gets_empty_answer() {
    let store = TestStore::new()
        .with_zones(&["example.com."])
        .with_entry("example.com.:SOA", StoreValue::Entry(soa_entry(3600)));
    let resp = run(request(vec![question("example.com.", RecordType::Unknown(999))]), &store);
    // the name is in an authoritative zone but the type is not served
    assert_eq!(resp.rcode, Rcode::NXDomain);
    assert!(resp.answers.is_empty());
}

#[test]
fn stored_answer_suppresses_authority_synthesis() {
    // once any query was answered, the zones index is never consulted
    let mut store = TestStore::new()
        .with_entry("a.example.com.:A", StoreValue::Entry(a_entry(100, 1)));
    store.zones = Err(PektinError::DbError);
    let resp = run(
        request(vec![
            question("a.example.com.", RecordType::A),
            question("b.example.com.", RecordType::A),
        ]),
        &store,
    );
    assert_eq!(resp.rcode, Rcode::NoError);
    assert_eq!(resp.answers.len(), 1);
    assert!(resp.authority.is_empty());
}

#[test]
fn multiple_queries_answered_in_order() {
    let store = TestStore::new()
        .with_entry("a.example.com.:A", StoreValue::Entry(a_entry(100, 1)))
        .with_entry("b.example.com.:A", StoreValue::Entry(a_entry(200, 2)));
    let resp = run(
        request(vec![
            question("a.example.com.", RecordType::A),
            question("b.example.com.", RecordType::A),
        ]),
        &store,
    );
    assert_eq!(resp.answers.len(), 2);
    assert_eq!(resp.answers[0].ttl, 100);
    assert_eq!(resp.answers[1].ttl, 200);
    assert_eq!(resp.queries.len(), 2);
}

#[test]
fn dnssec_ok_appends_rrsig_records() {
    let rrsig = StoreEntry {
        rr_type: RecordType::RRSIG,
        ttl: 300,
        rr_set: vec![ResourceRecord::RRSIG {
            type_covered: 1,
            algorithm: 15,
            labels: 2,
            original_ttl: 300,
            signature_expiration: 4,
            signature_inception: 3,
            key_tag: 7,
            signer_name: b"example.com.".to_vec(),
            signature: vec![1, 2, 3],
        }],
    };
    let store = TestStore::new()
        .with_entry("example.com.:A", StoreValue::Entry(a_entry(300, 0x01020304)))
        .with_entry("example.com.:RRSIG:A", StoreValue::Entry(rrsig));
    let mut req = request(vec![question("example.com.", RecordType::A)]);
    req.edns = Some(EdnsRequest { dnssec_ok: true, udp_payload: 4096 });
    let resp = run(req, &store);
    assert_eq!(resp.rcode, Rcode::NoError);
    assert_eq!(resp.answers.len(), 2);
    assert_eq!(resp.answers[0].rdata, ResourceRecord::A(0x01020304));
    assert!(matches!(resp.answers[1].rdata, ResourceRecord::RRSIG { .. }));
}

#[test]
fn servfail_on_dnssec_pool_exhaustion() {
    let mut store = TestStore::new()
        .with_entry("example.com.:A", StoreValue::Entry(a_entry(300, 0x01020304)));
    store.dnssec_pool_ok = false;
    let mut req = request(vec![question("example.com.", RecordType::A)]);
    req.edns = Some(EdnsRequest { dnssec_ok: true, udp_payload: 4096 });
    let resp = run(req, &store);
    assert_eq!(resp.rcode, Rcode::ServFail);
}

#[test]
fn no_rrsig_lookup_without_dnssec_ok() {
    // with DO unset the RRSIG entry is never consulted
    let store = TestStore::new()
        .with_entry("example.com.:A", StoreValue::Entry(a_entry(300, 0x01020304)))
        .with_entry(
            "example.com.:RRSIG:A",
            StoreValue::NotAString, // would fail the request if it were read
        );
    let resp = run(request(vec![question("example.com.", RecordType::A)]), &store);
    assert_eq!(resp.rcode, Rcode::NoError);
    assert_eq!(resp.answers.len(), 1);
}

#[test]
fn truncation_empties_sections_and_sets_the_flag() {
    let store = TestStore::new()
        .with_entry("example.com.:A", StoreValue::Entry(a_entry(300, 0x01020304)));
    let resp = run(request(vec![question("example.com.", RecordType::A)]), &store);
    assert!(!resp.tc);
    let cut = truncate_response(resp);
    assert!(cut.tc);
    assert!(cut.answers.is_empty());
    assert!(cut.authority.is_empty());
    assert_eq!(cut.rcode, Rcode::NoError);
    assert_eq!(cut.id, 0x1234);
    assert_eq!(cut.queries, vec![question("example.com.", RecordType::A)]);
}

#[test]
fn unencodable_record_fails_the_response() {
    let store = TestStore::new().with_entry(
        "example.com.:A",
        StoreValue::Entry(StoreEntry {
            rr_type: RecordType::A,
            ttl: 300,
            rr_set: vec![ResourceRecord::A(1), ResourceRecord::A(2), ResourceRecord::A(3)],
        }),
    );
    let resp = run(request(vec![question("example.com.", RecordType::A)]), &store);
    // only the first record of the answer section could be encoded
    let failed = fail_encoding(resp.clone(), 1, 0);
    assert_eq!(failed.rcode, Rcode::ServFail);
    assert_eq!(failed.answers.len(), 1);
    assert_eq!(failed.answers[0].rdata, ResourceRecord::A(1));
    assert!(failed.authority.is_empty());
    assert_eq!(failed.queries, resp.queries);
    // everything encoded: the response is untouched
    let fine = fail_encoding(resp.clone(), resp.answers.len(), resp.authority.len());
    assert_eq!(fine, resp);
}

#[test]
fn response_echoes_header_fields() {
    let store = TestStore::new();
    let req = DnsRequest {
        id: 0xBEEF,
        op_code: 2,
        rd: false,
        edns: None,
        queries: vec![question("example.com.", RecordType::TXT)],
    };
    let resp = run(req, &store);
    assert_eq!(resp.id, 0xBEEF);
    assert_eq!(resp.op_code, 2);
    assert!(!resp.rd);
    assert!(resp.aa);
    assert!(!resp.ra);
    assert!(resp.response);
    assert_eq!(resp.edns_udp_payload, 4096);
}
