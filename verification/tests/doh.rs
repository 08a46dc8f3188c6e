use data_encoding::BASE64URL_NOPAD;
use pektin_server::doh::{doh_content_type, doh_get_query, doh_status, DohOutcome};

#[test]
fn get_parameter_round_trips_through_base64url() {
    // a small wire query, as a DoH GET would carry it
    let wire: Vec<u8> = vec![
        0x12, 0x34, 0x01, 0x00, 0x00, 0x01, 0x00, 0x00, 0x00, 0x00, 0x00, 0x00, 0x07, b'e',
        b'x', b'a', b'm', b'p', b'l', b'e', 0x03, b'c', b'o', b'm', 0x00, 0x00, 0x01, 0x00,
        0x01,
    ];
    let param = BASE64URL_NOPAD.encode(&wire);
    let decoded = doh_get_query(param.as_bytes()).unwrap();
    assert_eq!(decoded, wire);
}

#[test]
fn invalid_base64_is_rejected() {
    assert!(doh_get_query(b"!!!not-base64!!!").is_none());
    // padding is not accepted in the URL-safe unpadded alphabet
    assert!(doh_get_query(b"AAA=").is_none());
    // a lone symbol cannot encode a whole byte
    assert!(doh_get_query(b"A").is_none());
}

#[test]
fn empty_parameter_decodes_to_nothing() {
    assert_eq!(doh_get_query(b"").unwrap(), Vec::<u8>::new());
}

#[test]
fn status_codes() {
    assert_eq!(doh_status(&DohOutcome::Reply(vec![1, 2, 3])), 200);
    assert_eq!(doh_status(&DohOutcome::InvalidBase64), 400);
    assert_eq!(doh_status(&DohOutcome::InvalidMessage), 400);
    assert_eq!(doh_status(&DohOutcome::EncodeFailed), 500);
}

#[test]
fn content_type_is_dns_message() {
    assert_eq!(doh_content_type(), "application/dns-message");
}
