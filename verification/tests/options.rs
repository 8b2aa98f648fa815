use bc_camera::{
    BcCameraOpt, ConnectionProtocol, Credentials, DiscoveryMethods, IpAddr, PrintFormat,
};

fn opt(credentials: Credentials) -> BcCameraOpt {
    BcCameraOpt {
        name: "cam0".to_string(),
        channel_id: 0,
        addrs: vec![IpAddr::V4([127, 0, 0, 1])],
        uid: Some("UID".to_string()),
        port: Some(9000),
        protocol: ConnectionProtocol::Tcp,
        discovery: DiscoveryMethods::Local,
        max_discovery_retries: 3,
        credentials,
        cloud_account: None,
        cloud_password: None,
        cloud_mfa_trust_token: None,
        cloud_refresh_token: None,
        debug: false,
    }
}

#[test]
fn connection_protocol_default_is_tcp_udp() {
    let p: ConnectionProtocol = Default::default();
    assert!(matches!(p, ConnectionProtocol::TcpUdp));
}

#[test]
fn bccamera_opt_constructs_and_debug_prints() {
    let opt = opt(Credentials::new("admin".to_string(), None));
    let dbg = format!("{:?}", opt.redacted());
    assert!(dbg.contains("cam0"));
}

#[test]
fn bccamera_opt_debug_does_not_leak_password() {
    let opt = opt(Credentials::new(
        "admin".to_string(),
        Some("hunter2".to_string()),
    ));
    let dbg = format!("{:?}", opt.redacted());
    assert!(
        !dbg.contains("hunter2"),
        "printed options must not include the password; got {dbg}"
    );
    assert!(dbg.contains("admin"), "username should still surface");
    assert!(dbg.contains("******"), "redaction marker should surface");
}

#[test]
fn print_format_equality_and_copy() {
    let a = PrintFormat::Human;
    let b = a;
    assert_eq!(a, b);
    assert_ne!(PrintFormat::Human, PrintFormat::Xml);
}

#[test]
fn connection_protocol_is_copy() {
    let a = ConnectionProtocol::Udp;
    let b = a;
    assert!(matches!(
        (a, b),
        (ConnectionProtocol::Udp, ConnectionProtocol::Udp)
    ));
}

#[test]
fn passwords_of_any_kind_print_alike() {
    let first = opt(Credentials::new("admin".to_string(), Some("a".to_string())));
    let second = opt(Credentials::new(
        "admin".to_string(),
        Some("something longer".to_string()),
    ));
    assert_eq!(
        format!("{:?}", first.redacted()),
        format!("{:?}", second.redacted())
    );
}

#[test]
fn missing_password_stays_missing() {
    let shown = opt(Credentials::new("admin".to_string(), None)).redacted();
    assert!(shown.credentials.password.is_none());
    assert_eq!(shown.addrs, vec![IpAddr::V4([127, 0, 0, 1])]);
    assert_eq!(shown.uid.as_deref(), Some("UID"));
    assert_eq!(shown.max_discovery_retries, 3);
}

#[test]
fn only_cloud_discovery_marks_an_account_camera() {
    let mut opt = opt(Credentials::new("admin".to_string(), None));
    assert!(!opt.is_cloud());
    opt.cloud_account = Some("me@example.com".to_string());
    assert!(!opt.is_cloud());
    opt.discovery = DiscoveryMethods::Cloud;
    assert!(opt.is_cloud());
}
