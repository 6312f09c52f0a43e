use creme_brulee::alpn::decode_protocol_list;
use creme_brulee::alpn::encode_protocol_list;
use creme_brulee::alpn::is_offered;
use creme_brulee::alpn::negotiate;
use creme_brulee::alpn::quic_protocols;
use creme_brulee::alpn::select;
use creme_brulee::alpn::tls_protocols;
use creme_brulee::alpn::AlpnNegotiationFailure;
use creme_brulee::alpn::NegotiatedProtocol;
use creme_brulee::alpn::ProtocolId;

fn id(text: &str) -> ProtocolId {
    ProtocolId::new(text.as_bytes().to_vec())
}

#[test]
fn protocol_constants_are_the_wire_tokens() {
    assert_eq!(ProtocolId::h2().as_bytes().as_slice(), b"h2");
    assert_eq!(ProtocolId::http11().as_bytes().as_slice(), b"http/1.1");
    assert_eq!(ProtocolId::h3().as_bytes().as_slice(), b"h3");
}

#[test]
fn tls_table_prefers_h2_over_http11() {
    assert_eq!(tls_protocols(), vec![id("h2"), id("http/1.1")]);
}

#[test]
fn quic_table_is_h3_alone() {
    assert_eq!(quic_protocols(), vec![id("h3")]);
}

#[test]
fn matches_compares_bytes() {
    assert!(id("h2").matches(&ProtocolId::h2()));
    assert!(!id("h2").matches(&id("h3")));
    assert!(!id("h2").matches(&id("h2c")));
    assert!(id("").matches(&id("")));
}

#[test]
fn duplicate_keeps_the_bytes() {
    assert_eq!(id("http/1.1").duplicate(), id("http/1.1"));
}

#[test]
fn is_offered_finds_exact_names_only() {
    let offered = vec![id("http/1.1"), id("h2")];
    assert!(is_offered(&offered, &id("h2")));
    assert!(is_offered(&offered, &id("http/1.1")));
    assert!(!is_offered(&offered, &id("h")));
    assert!(!is_offered(&offered, &id("H2")));
    assert!(!is_offered(&Vec::new(), &id("h2")));
}

#[test]
fn select_takes_h2_when_both_are_offered() {
    let offered = vec![id("http/1.1"), id("h2")];
    assert_eq!(select(&tls_protocols(), &offered), NegotiatedProtocol::Chosen(id("h2")));
}

#[test]
fn select_takes_http11_when_it_is_the_only_match() {
    let offered = vec![id("spdy/3"), id("http/1.1")];
    assert_eq!(select(&tls_protocols(), &offered), NegotiatedProtocol::Chosen(id("http/1.1")));
}

#[test]
fn select_rejects_when_nothing_is_in_common() {
    let offered = vec![id("spdy/3"), id("h3")];
    assert_eq!(select(&tls_protocols(), &offered), NegotiatedProtocol::Rejected);
}

#[test]
fn select_goes_by_server_order_not_client_order() {
    let preferences = vec![id("c"), id("b"), id("a")];
    let offered = vec![id("a"), id("b")];
    assert_eq!(select(&preferences, &offered), NegotiatedProtocol::Chosen(id("b")));
}

#[test]
fn select_with_an_empty_side_rejects() {
    assert_eq!(select(&tls_protocols(), &Vec::new()), NegotiatedProtocol::Rejected);
    assert_eq!(select(&Vec::new(), &vec![id("h2")]), NegotiatedProtocol::Rejected);
}

#[test]
fn select_does_not_match_a_prefix_or_another_case() {
    let offered = vec![id("h"), id("H2"), id("http/1.10")];
    assert_eq!(select(&tls_protocols(), &offered), NegotiatedProtocol::Rejected);
}

#[test]
fn decode_reads_length_prefixed_names() {
    let names = decode_protocol_list(b"\x02h2\x08http/1.1");
    assert_eq!(names, Some(vec![id("h2"), id("http/1.1")]));
}

#[test]
fn decode_of_an_empty_offer_is_an_empty_list() {
    assert_eq!(decode_protocol_list(b""), Some(Vec::new()));
}

#[test]
fn decode_rejects_a_name_that_runs_past_the_end() {
    assert_eq!(decode_protocol_list(b"\x02h2\x08http"), None);
    assert_eq!(decode_protocol_list(b"\x03h2"), None);
    assert_eq!(decode_protocol_list(b"\x01"), None);
}

#[test]
fn decode_rejects_an_empty_name() {
    assert_eq!(decode_protocol_list(b"\x00"), None);
    assert_eq!(decode_protocol_list(b"\x02h2\x00"), None);
}

#[test]
fn decode_takes_the_longest_name() {
    let mut wire = vec![255u8];
    wire.extend(std::iter::repeat(b'x').take(255));
    let names = decode_protocol_list(&wire).unwrap();
    assert_eq!(names.len(), 1);
    assert_eq!(names[0].as_bytes().len(), 255);
}

#[test]
fn encode_writes_length_prefixed_names() {
    assert_eq!(encode_protocol_list(&tls_protocols()), Some(b"\x02h2\x08http/1.1".to_vec()));
    assert_eq!(encode_protocol_list(&quic_protocols()), Some(b"\x02h3".to_vec()));
    assert_eq!(encode_protocol_list(&Vec::new()), Some(Vec::new()));
}

#[test]
fn encode_refuses_names_that_one_byte_cannot_measure() {
    assert_eq!(encode_protocol_list(&vec![id("h2"), id("")]), None);
    let long = ProtocolId::new(vec![b'x'; 256]);
    assert_eq!(encode_protocol_list(&vec![long, id("h2")]), None);
}

#[test]
fn decode_undoes_encode() {
    let names = vec![id("h3"), id("h2"), id("http/1.1"), ProtocolId::new(vec![0u8, 255u8])];
    let wire = encode_protocol_list(&names).unwrap();
    assert_eq!(decode_protocol_list(&wire), Some(names));
}

#[test]
fn encode_undoes_decode() {
    let wire = b"\x01a\x02bc\x03def".to_vec();
    let names = decode_protocol_list(&wire).unwrap();
    assert_eq!(encode_protocol_list(&names), Some(wire));
}

#[test]
fn negotiate_takes_h2_from_a_wire_offer() {
    let outcome = negotiate(&tls_protocols(), b"\x08http/1.1\x02h2");
    assert_eq!(outcome, Ok(id("h2")));
}

#[test]
fn negotiate_takes_http11_when_h2_is_not_offered() {
    let outcome = negotiate(&tls_protocols(), b"\x08http/1.1");
    assert_eq!(outcome, Ok(id("http/1.1")));
}

#[test]
fn negotiate_fails_without_a_common_protocol() {
    let outcome = negotiate(&tls_protocols(), b"\x02h3\x06spdy/3");
    assert_eq!(outcome, Err(AlpnNegotiationFailure::NoApplicationProtocol));
    assert_eq!(negotiate(&tls_protocols(), b""), Err(AlpnNegotiationFailure::NoApplicationProtocol));
}

#[test]
fn negotiate_fails_on_a_malformed_offer() {
    let outcome = negotiate(&tls_protocols(), b"\x02h2\x09http/1.1");
    assert_eq!(outcome, Err(AlpnNegotiationFailure::MalformedOffer));
}

#[test]
fn negotiate_does_not_match_across_name_boundaries() {
    // The bytes of "\x02h2" occur inside the single name that is offered.
    let outcome = negotiate(&tls_protocols(), b"\x04x\x02h2");
    assert_eq!(outcome, Err(AlpnNegotiationFailure::NoApplicationProtocol));
}

#[test]
fn negotiate_on_quic_accepts_h3_only() {
    assert_eq!(negotiate(&quic_protocols(), b"\x02h2\x02h3"), Ok(id("h3")));
    assert_eq!(
        negotiate(&quic_protocols(), b"\x02h2\x08http/1.1"),
        Err(AlpnNegotiationFailure::NoApplicationProtocol)
    );
}
