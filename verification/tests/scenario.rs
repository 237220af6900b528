//! Two instances on one subnet, end to end over the verified decision
//! logic: instance A ("alice" on 10.0.0.5) runs the global responder,
//! instance B ("bob") runs an announcer from an ephemeral port. The bytes
//! that the tasks would put on the wire are handed across directly.

use lan_discovery::announcer::Announcer;
use lan_discovery::identity::Identity;
use lan_discovery::net::{plan_announcers, IpAddress, SocketAddress, DISCOVERY_PORT};
use lan_discovery::responder::{responder_step, ResponderStep};

#[test]
fn two_instances_discover_each_other() {
    let alice = Identity::new(b"alice".to_vec()).expect("well-formed name");
    let bob = Identity::new(b"bob".to_vec()).expect("well-formed name");

    // A's responder answers on the discovery port of 10.0.0.5.
    let alice_addr = SocketAddress { ip: IpAddress::V4(0x0a00_0005), port: DISCOVERY_PORT };
    // B announces from an ephemeral port on 10.0.0.9.
    let bob_addr = SocketAddress { ip: IpAddress::V4(0x0a00_0009), port: 49152 };

    // B's interface has one qualifying address; one announcer is made.
    let bob_locals = plan_announcers(&vec![IpAddress::V4(0x0a00_0009)]);
    assert_eq!(bob_locals.len(), 1);
    let mut bob_announcer = Announcer::new(bob.clone());

    // B sends {"name":"bob"} to the multicast group, exactly once.
    let announcement = bob_announcer.take_announcement().expect("first announcement");
    assert_eq!(announcement, b"{\"name\":\"bob\"}".to_vec());
    assert_eq!(bob_announcer.take_announcement(), None);

    // A's responder receives it from B's address, observes peer "bob",
    // and unicasts {"name":"alice"} back to exactly that address.
    let reply_payload = match responder_step(&alice, &announcement, bob_addr) {
        ResponderStep::Reply { observed, payload, reply_to } => {
            assert_eq!(observed.peer, bob);
            assert_eq!(observed.source, bob_addr);
            let log = format!(
                "Got peer {} from 10.0.0.9:{}. ",
                String::from_utf8(observed.peer.name.clone()).unwrap(),
                observed.source.port,
            );
            assert_eq!(log, "Got peer bob from 10.0.0.9:49152. ");
            assert_eq!(reply_to, bob_addr);
            payload
        },
        ResponderStep::Ignore { error } => panic!("unexpected ignore: {error:?}"),
    };
    assert_eq!(reply_payload, b"{\"name\":\"alice\"}".to_vec());

    // B's announcer receives the reply and observes peer "alice".
    let obs = bob_announcer.observe(&reply_payload, alice_addr).expect("decodes");
    assert_eq!(obs.peer, alice);
    assert_eq!(obs.source, alice_addr);
    assert_eq!(String::from_utf8(obs.peer.name.clone()).unwrap(), "alice");
}
