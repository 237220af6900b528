use lan_discovery::codec::{encode, ParseError};
use lan_discovery::identity::Identity;
use lan_discovery::net::{IpAddress, SocketAddress};
use lan_discovery::responder::{responder_step, ResponderStep};

fn identity(name: &[u8]) -> Identity {
    Identity::new(name.to_vec()).expect("well-formed name")
}

fn source() -> SocketAddress {
    SocketAddress { ip: IpAddress::V4(0x0a00_0007), port: 51234 }
}

#[test]
fn well_formed_announcement_gets_one_reply_to_its_source() {
    let me = identity(b"alice");
    let peer = identity(b"bob");
    let src = source();

    match responder_step(&me, &encode(&peer), src) {
        ResponderStep::Reply { observed, payload, reply_to } => {
            assert_eq!(observed.peer, peer);
            assert_eq!(observed.source, src);
            assert_eq!(payload, encode(&me));
            assert_eq!(reply_to, src);
        },
        ResponderStep::Ignore { error } => panic!("unexpected ignore: {error:?}"),
    }
}

#[test]
fn malformed_payloads_are_ignored_not_fatal() {
    let me = identity(b"alice");
    let junk: Vec<Vec<u8>> = vec![
        b"".to_vec(),
        b"\x00".to_vec(),
        b"hello".to_vec(),
        b"{\"name\":42}".to_vec(),
        b"{\"name\":\"\"}".to_vec(),
        b"{\"user\":\"bob\"}".to_vec(),
        b"{\"name\":\"a\"b\"}".to_vec(),
        vec![0xff; 1024],
        (0u8..=255).collect(),
    ];
    // Every junk datagram is dropped; none stops the receive loop.
    for payload in junk {
        match responder_step(&me, &payload, source()) {
            ResponderStep::Reply { .. } => panic!("replied to junk {payload:?}"),
            ResponderStep::Ignore { .. } => {},
        }
    }
}

#[test]
fn ignore_carries_the_parse_error() {
    let me = identity(b"alice");
    let cases: Vec<(Vec<u8>, ParseError)> = vec![
        (b"{}".to_vec(), ParseError::Truncated),
        (b"(\"name\":\"bob\")".to_vec(), ParseError::WrongShape),
        (b"{\"name\":\"b\tb\"}".to_vec(), ParseError::BadNameByte),
    ];
    for (payload, expected) in cases {
        match responder_step(&me, &payload, source()) {
            ResponderStep::Ignore { error } => assert_eq!(error, expected),
            ResponderStep::Reply { .. } => panic!("replied to junk {payload:?}"),
        }
    }
}
