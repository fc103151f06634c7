use clipboard_syncer::sync::syncer::{check_health, PeerProbe, Syncer};

fn probe(addr: &str, reply: Option<&str>) -> PeerProbe {
    PeerProbe {
        addr: addr.to_string(),
        reply: reply.map(|r| r.to_string()),
    }
}

#[test]
fn test_check_health() {
    assert!(check_health("PONG"));
    assert!(!check_health("pong"));
    assert!(!check_health(""));
    assert!(!check_health("PONG!"));
}

#[test]
fn test_client_registry_is_a_set() {
    let mut syncer = Syncer::new();
    assert!(!syncer.check_client_exist("10.0.0.1:7000"));

    assert!(syncer.add_client("10.0.0.1:7000".to_string()));
    assert!(syncer.check_client_exist("10.0.0.1:7000"));

    // Adding the same address again is a no-op and schedules nothing.
    assert!(!syncer.add_client("10.0.0.1:7000".to_string()));
    assert_eq!(syncer.client_list().len(), 1);
}

#[test]
fn test_fan_out_skips_unreachable_peer_and_keeps_it_registered() {
    // Three peers, one unreachable: the mutation is delivered to the two
    // healthy ones; the unreachable one is reported but stays registered.
    let mut syncer = Syncer::new();
    syncer.add_client("10.0.0.1:7000".to_string());
    syncer.add_client("10.0.0.2:7000".to_string());
    syncer.add_client("10.0.0.3:7000".to_string());

    let peers = syncer.client_list();
    assert_eq!(peers.len(), 3);

    let probes = vec![
        probe("10.0.0.1:7000", Some("PONG")),
        probe("10.0.0.2:7000", None),
        probe("10.0.0.3:7000", Some("PONG")),
    ];
    let plan = Syncer::plan_fan_out(&probes);

    assert_eq!(plan.deliver, vec!["10.0.0.1:7000", "10.0.0.3:7000"]);
    assert_eq!(plan.disconnected, vec!["10.0.0.2:7000"]);

    // The registry is untouched by the round.
    assert!(syncer.check_client_exist("10.0.0.2:7000"));
    assert_eq!(syncer.client_list().len(), 3);
}

#[test]
fn test_fan_out_treats_wrong_reply_as_unhealthy() {
    let probes = vec![
        probe("10.0.0.1:7000", Some("PONG")),
        probe("10.0.0.2:7000", Some("nope")),
    ];
    let plan = Syncer::plan_fan_out(&probes);
    assert_eq!(plan.deliver, vec!["10.0.0.1:7000"]);
    assert_eq!(plan.disconnected, vec!["10.0.0.2:7000"]);
}
