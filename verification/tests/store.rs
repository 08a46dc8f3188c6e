use pektin_server::name::DnsName;
use pektin_server::persistence::{get_rrset, rrset_key, rrsig_key, QueryResponse, StoreValue};
use pektin_server::resource_record::{RecordType, ResourceRecord, StoreEntry};
use pektin_server::PektinError;

fn name(s: &str) -> DnsName {
    DnsName::parse(s.as_bytes()).unwrap()
}

fn entry(ttl: u32) -> StoreEntry {
    StoreEntry { rr_type: RecordType::A, ttl, rr_set: vec![ResourceRecord::A(1)] }
}

#[test]
fn rrset_key_is_lowercased_name_colon_type() {
    assert_eq!(rrset_key(&name("Example.COM."), RecordType::A), b"example.com.:A".to_vec());
    assert_eq!(rrset_key(&name("example.com."), RecordType::AAAA), b"example.com.:AAAA".to_vec());
    assert_eq!(rrset_key(&name("example.com."), RecordType::SOA), b"example.com.:SOA".to_vec());
    assert_eq!(
        rrset_key(&name("*.example.com."), RecordType::TXT),
        b"*.example.com.:TXT".to_vec()
    );
    assert_eq!(rrset_key(&name("."), RecordType::NS), b".:NS".to_vec());
}

#[test]
fn rrsig_key_names_the_covered_type() {
    assert_eq!(
        rrsig_key(&name("Example.com."), RecordType::A),
        b"example.com.:RRSIG:A".to_vec()
    );
    assert_eq!(
        rrsig_key(&name("example.com."), RecordType::OPENPGPKEY),
        b"example.com.:RRSIG:OPENPGPKEY".to_vec()
    );
}

#[test]
fn both_keys_missing_is_empty() {
    assert_eq!(get_rrset(StoreValue::Missing, StoreValue::Missing), Ok(QueryResponse::Empty));
}

#[test]
fn definitive_only() {
    let r = get_rrset(StoreValue::Entry(entry(300)), StoreValue::Missing);
    assert_eq!(r, Ok(QueryResponse::Definitive(entry(300))));
}

#[test]
fn wildcard_only() {
    let r = get_rrset(StoreValue::Missing, StoreValue::Entry(entry(60)));
    assert_eq!(r, Ok(QueryResponse::Wildcard(entry(60))));
}

#[test]
fn both_present() {
    let r = get_rrset(StoreValue::Entry(entry(300)), StoreValue::Entry(entry(60)));
    assert_eq!(
        r,
        Ok(QueryResponse::Both { definitive: entry(300), wildcard: entry(60) })
    );
}

#[test]
fn non_string_value_is_wicked() {
    assert_eq!(
        get_rrset(StoreValue::NotAString, StoreValue::Missing),
        Err(PektinError::WickedDbValue)
    );
    assert_eq!(
        get_rrset(StoreValue::Missing, StoreValue::NotAString),
        Err(PektinError::WickedDbValue)
    );
    // a non-string beside a readable entry is caught before the entry is used
    assert_eq!(
        get_rrset(StoreValue::Entry(entry(300)), StoreValue::NotAString),
        Err(PektinError::WickedDbValue)
    );
}

#[test]
fn unparseable_value_is_a_json_error() {
    assert_eq!(
        get_rrset(StoreValue::Unparseable, StoreValue::Missing),
        Err(PektinError::JsonError)
    );
    assert_eq!(
        get_rrset(StoreValue::Missing, StoreValue::Unparseable),
        Err(PektinError::JsonError)
    );
    assert_eq!(
        get_rrset(StoreValue::Entry(entry(300)), StoreValue::Unparseable),
        Err(PektinError::JsonError)
    );
}

#[test]
fn mismatched_entry_type_is_invalid_data() {
    let bad = StoreEntry {
        rr_type: RecordType::A,
        ttl: 300,
        rr_set: vec![ResourceRecord::TXT(b"oops".to_vec())],
    };
    assert_eq!(
        get_rrset(StoreValue::Entry(bad), StoreValue::Missing),
        Err(PektinError::InvalidDbData)
    );
}

#[test]
fn type_codes_match_the_wire_numbers() {
    assert_eq!(RecordType::A.code(), 1);
    assert_eq!(RecordType::NS.code(), 2);
    assert_eq!(RecordType::CNAME.code(), 5);
    assert_eq!(RecordType::SOA.code(), 6);
    assert_eq!(RecordType::PTR.code(), 12);
    assert_eq!(RecordType::MX.code(), 15);
    assert_eq!(RecordType::TXT.code(), 16);
    assert_eq!(RecordType::AAAA.code(), 28);
    assert_eq!(RecordType::SRV.code(), 33);
    assert_eq!(RecordType::RRSIG.code(), 46);
    assert_eq!(RecordType::DNSKEY.code(), 48);
    assert_eq!(RecordType::TLSA.code(), 52);
    assert_eq!(RecordType::OPENPGPKEY.code(), 61);
    assert_eq!(RecordType::CAA.code(), 257);
    assert_eq!(RecordType::Unknown(999).code(), 999);
    assert_eq!(RecordType::of_code(257), RecordType::CAA);
    assert_eq!(RecordType::of_code(999), RecordType::Unknown(999));
    // the two directions invert on every understood type
    for code in [1u16, 2, 5, 6, 12, 15, 16, 28, 33, 46, 48, 52, 61, 257] {
        let rt = RecordType::of_code(code);
        assert_ne!(rt, RecordType::Unknown(code));
        assert_eq!(rt.code(), code);
    }
}

#[test]
fn entry_type_check() {
    assert!(entry(300).check());
    let mixed = StoreEntry {
        rr_type: RecordType::A,
        ttl: 1,
        rr_set: vec![ResourceRecord::A(1), ResourceRecord::AAAA(2)],
    };
    assert!(!mixed.check());
    let unknown = StoreEntry { rr_type: RecordType::Unknown(4242), ttl: 1, rr_set: vec![] };
    assert!(!unknown.check());
}
