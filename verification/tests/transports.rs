use escape_core::config::AddressRange;
use escape_core::config::Endpoint;
use escape_core::config::WireGuardConfig;
use escape_core::fronting::create_fronted_connection;
use escape_core::fronting::validate_domain;
use escape_core::fronting::DomainFrontingConfig;
use escape_core::obfuscation::create_obfs_transport;
use escape_core::obfuscation::ObfsConfig;
use escape_core::orchestrator::TransportError;
use escape_core::overlay::handle_overlay_event;
use escape_core::overlay::validate_p2p_config;
use escape_core::overlay::OverlayAction;
use escape_core::overlay::OverlayEvent;
use escape_core::overlay::P2PConfig;
use escape_core::tunnel::setup_tunnel;
use escape_core::tunnel::teardown_tunnel;
use escape_core::tunnel::TunnelSession;

fn endpoint() -> Endpoint {
    Endpoint { a: 198, b: 51, c: 100, d: 7, port: 8443 }
}

#[test]
fn fronted_client_builds_with_validation_intact() {
    let config = DomainFrontingConfig {
        front_domain: "cdn.example.com".to_string(),
        target_domain: "target.example.com".to_string(),
        use_tls: true,
    };
    assert!(create_fronted_connection(&endpoint(), &config).is_ok());
}

#[test]
fn malformed_front_domain_is_rejected_before_any_build() {
    let config = DomainFrontingConfig {
        front_domain: "".to_string(),
        target_domain: "target.example.com".to_string(),
        use_tls: true,
    };
    match create_fronted_connection(&endpoint(), &config) {
        Err(TransportError::InvalidConfig) => {},
        _ => panic!("a malformed domain must be rejected"),
    }
}

#[test]
fn domain_validation_accepts_names_and_refuses_junk() {
    assert!(validate_domain("cdn.example.com"));
    assert!(validate_domain("a-b.example"));
    assert!(!validate_domain(""));
    assert!(!validate_domain("exa mple.com"));
    assert!(!validate_domain("https://example.com"));
}

#[test]
fn obfs_transport_carries_its_configuration() {
    let config = ObfsConfig { cert: "AbC123+/xyz".to_string(), iat_mode: true };
    let t = create_obfs_transport(&endpoint(), &config).unwrap();
    assert_eq!(t.endpoint_repr, "198.51.100.7:8443");
    assert_eq!(t.cert, "AbC123+/xyz");
    assert!(t.iat_mode);
}

#[test]
fn obfs_cert_must_be_nonempty_base64() {
    let empty = ObfsConfig { cert: String::new(), iat_mode: false };
    assert!(create_obfs_transport(&endpoint(), &empty).is_err());
    let junk = ObfsConfig { cert: "not a cert!".to_string(), iat_mode: false };
    match create_obfs_transport(&endpoint(), &junk) {
        Err(TransportError::InvalidConfig) => {},
        _ => panic!("a malformed certificate must be rejected"),
    }
}

#[test]
fn tunnel_request_carries_the_configuration_unchanged() {
    let key = format!("{}=", "K".repeat(43));
    let config = WireGuardConfig {
        private_key: key.clone(),
        public_key: key.clone(),
        endpoint: endpoint(),
        allowed_ips: vec![AddressRange { a: 0, b: 0, c: 0, d: 0, prefix: 0 }],
    };
    let req = setup_tunnel(&config).unwrap();
    assert_eq!(req.interface_name, "wg0");
    assert_eq!(req.private_key, key);
    assert_eq!(req.public_key, key);
    assert_eq!(req.endpoint_repr, "198.51.100.7:8443");
    assert_eq!(req.allowed_ips.len(), 1);
    assert_eq!(req.allowed_ips[0].prefix, 0);
}

#[test]
fn malformed_tunnel_config_is_rejected() {
    let config = WireGuardConfig {
        private_key: "bad".to_string(),
        public_key: "bad".to_string(),
        endpoint: endpoint(),
        allowed_ips: Vec::new(),
    };
    match setup_tunnel(&config) {
        Err(TransportError::InvalidConfig) => {},
        _ => panic!("a malformed tunnel configuration must be rejected"),
    }
}

#[test]
fn tunnel_session_is_torn_down_once() {
    let mut session = TunnelSession::begin();
    teardown_tunnel(&mut session);
}

#[test]
fn overlay_config_checks_bootstrap_peers() {
    let good = P2PConfig {
        listen_addr: endpoint(),
        bootstrap_nodes: vec![
            "/ip4/192.0.2.9/tcp/1234/p2p/QmPeer".to_string(),
            "/dns4/bootstrap.example.com/tcp/1234/p2p/QmPeer".to_string(),
        ],
    };
    assert!(validate_p2p_config(&good));
    let bad = P2PConfig {
        listen_addr: endpoint(),
        bootstrap_nodes: vec!["bootstrap.example.com".to_string()],
    };
    assert!(!validate_p2p_config(&bad));
}

#[test]
fn overlay_loop_announces_listening_and_ignores_the_rest() {
    match handle_overlay_event(OverlayEvent::NewListenAddr("/ip4/0.0.0.0/tcp/4001".to_string())) {
        OverlayAction::AnnounceListening(addr) => assert_eq!(addr, "/ip4/0.0.0.0/tcp/4001"),
        _ => panic!("a new listening address must be announced"),
    }
    assert!(matches!(handle_overlay_event(OverlayEvent::LivenessProbe), OverlayAction::NoteProbe));
    assert!(matches!(handle_overlay_event(OverlayEvent::Other), OverlayAction::Ignore));
}
