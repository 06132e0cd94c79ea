use playit_manager::fetch::parse_snapshot;

const TWO_TUNNELS: &str = r#"{"account":{"plan":"free"},"tunnels":{"tunnels":[{"id":"tun-1","name":"alpha","alloc":{"data":{"assigned_domain":"alpha.example.net","extra":7}},"origin":{"data":{"local_ip":"127.0.0.1","local_port":"8080"}}},{"id":"tun-2","name":"beta","alloc":{"data":{"assigned_domain":"beta.example.net"}},"origin":{"data":{"local_ip":"10.0.0.9","local_port":25565}}}]}}"#;

#[test]
fn projects_every_tunnel_in_order() {
    let snap = parse_snapshot(TWO_TUNNELS).unwrap();
    assert_eq!(snap.tunnels.len(), 2);
    assert_eq!(snap.tunnels[0].id, "tun-1");
    assert_eq!(snap.tunnels[0].name, "alpha");
    assert_eq!(snap.tunnels[0].assigned_domain, "alpha.example.net");
    assert_eq!(snap.tunnels[0].local_ip, "127.0.0.1");
    assert_eq!(snap.tunnels[0].local_port, "8080");
    assert_eq!(snap.tunnels[1].id, "tun-2");
    assert_eq!(snap.tunnels[1].name, "beta");
    // A numeric port node is projected as the service prints it.
    assert_eq!(snap.tunnels[1].local_port, "25565");
}

#[test]
fn empty_tunnel_list_parses() {
    let snap = parse_snapshot(r#"{"tunnels":{"tunnels":[]}}"#).unwrap();
    assert_eq!(snap.tunnels.len(), 0);
}

#[test]
fn body_without_tunnels_entry_parses_empty() {
    let snap = parse_snapshot(r#"{"account":{}}"#).unwrap();
    assert_eq!(snap.tunnels.len(), 0);
}

#[test]
fn malformed_body_is_rejected() {
    assert!(parse_snapshot("").is_none());
    assert!(parse_snapshot("{\"tunnels\":").is_none());
    assert!(parse_snapshot("not json at all").is_none());
}

#[test]
fn duplicate_copies_every_field() {
    let snap = parse_snapshot(TWO_TUNNELS).unwrap();
    let copy = snap.duplicate();
    assert_eq!(copy.tunnels.len(), snap.tunnels.len());
    assert_eq!(copy.tunnels[1].id, "tun-2");
    assert_eq!(copy.tunnels[1].assigned_domain, "beta.example.net");
}
