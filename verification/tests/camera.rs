use bc_camera::{
    BcCamera, BcCameraOpt, ConnectionProtocol, Credentials, DiscoveryMethods, Error, ReadKind,
    Startup,
};
use std::sync::Arc;

struct Mock;

fn camera() -> BcCamera<Mock> {
    BcCamera::from_mock_connection(Arc::new(Mock))
}

fn cloud_opt() -> BcCameraOpt {
    BcCameraOpt {
        name: "cam".to_string(),
        channel_id: 3,
        addrs: vec![],
        uid: Some("UID".to_string()),
        port: None,
        protocol: ConnectionProtocol::Udp,
        discovery: DiscoveryMethods::Cloud,
        max_discovery_retries: 1,
        credentials: Credentials::new("user".to_string(), Some("secret".to_string())),
        cloud_account: Some("account".to_string()),
        cloud_password: Some("password".to_string()),
        cloud_mfa_trust_token: Some("trust".to_string()),
        cloud_refresh_token: Some("refresh".to_string()),
        debug: false,
    }
}

#[test]
fn new_message_num_increments_monotonically() {
    let mut cam = camera();
    assert_eq!(cam.new_message_num(), 0);
    assert_eq!(cam.new_message_num(), 1);
    assert_eq!(cam.new_message_num(), 2);
}

#[test]
fn message_num_wraps_around() {
    let mut cam = BcCamera::with_message_num(&cloud_opt(), Arc::new(Mock), None, u16::MAX);
    assert_eq!(cam.new_message_num(), u16::MAX);
    assert_eq!(cam.new_message_num(), 0);
}

#[test]
fn message_nums_repeat_only_after_all_others() {
    let mut cam = BcCamera::with_message_num(&cloud_opt(), Arc::new(Mock), None, 777);
    let mut seen = vec![false; 65536];
    for _ in 0..65536 {
        let num = cam.new_message_num() as usize;
        assert!(!seen[num]);
        seen[num] = true;
    }
    assert_eq!(cam.new_message_num(), 777);
}

#[test]
fn default_ability_lookup_returns_none_kind() {
    let cam = camera();
    assert!(matches!(
        cam.has_ability("unknownFeature"),
        ReadKind::NoAccess
    ));
}

#[test]
fn test_set_ability_ro_flows_through_rw_check() {
    let mut cam = camera();
    cam.test_set_ability("feature".to_string(), false);
    cam.has_ability_ro("feature").expect("ro check should pass");
    let err = cam
        .has_ability_rw("feature")
        .expect_err("rw on RO should fail");
    match err {
        Error::MissingAbility {
            name,
            requested,
            actual,
        } => {
            assert_eq!(name, "feature");
            assert_eq!(requested, "write");
            assert_eq!(actual, "read");
        }
        other => panic!("unexpected: {other:?}"),
    }
}

#[test]
fn test_set_ability_rw_satisfies_both_checks() {
    let mut cam = camera();
    cam.test_set_ability("feature".to_string(), true);
    cam.has_ability_ro("feature").expect("ro ok");
    cam.has_ability_rw("feature").expect("rw ok");
}

#[test]
fn abilities_do_not_affect_each_other() {
    let mut cam = camera();
    cam.test_set_ability("feature".to_string(), true);
    assert_eq!(cam.has_ability("feature"), ReadKind::ReadWrite);
    assert_eq!(cam.has_ability("Feature"), ReadKind::NoAccess);
    cam.test_set_ability("feature".to_string(), false);
    assert_eq!(cam.has_ability("feature"), ReadKind::ReadOnly);
}

#[test]
fn missing_ability_ro_reports_none_actual() {
    let cam = camera();
    let err = cam.has_ability_ro("absent").expect_err("no ability");
    match err {
        Error::MissingAbility {
            name,
            requested,
            actual,
        } => {
            assert_eq!(name, "absent");
            assert_eq!(requested, "read");
            assert_eq!(actual, "none");
        }
        other => panic!("unexpected: {other:?}"),
    }
}

#[test]
fn missing_ability_rw_reports_none_actual() {
    let cam = camera();
    let err = cam.has_ability_rw("absent").expect_err("no ability");
    match err {
        Error::MissingAbility {
            requested, actual, ..
        } => {
            assert_eq!(requested, "write");
            assert_eq!(actual, "none");
        }
        other => panic!("unexpected: {other:?}"),
    }
}

#[test]
fn get_credentials_returns_seeded_admin() {
    let cam = camera();
    let creds = cam.get_credentials();
    assert_eq!(creds.username, "admin");
    assert!(creds.password.is_none());
}

#[test]
fn get_connection_returns_shared_arc() {
    let cam = camera();
    let a = cam.get_connection();
    let b = cam.get_connection();
    assert!(Arc::ptr_eq(&a, &b));
}

#[test]
fn mock_camera_starts_logged_in_on_channel_zero() {
    let cam = BcCamera::from_mock_connection_with_credentials(
        Arc::new(Mock),
        Credentials::new("user".to_string(), Some("pw".to_string())),
    );
    assert_eq!(cam.channel_id, 0);
    assert!(cam.logged_in);
    assert!(!cam.is_cloud);
    assert_eq!(cam.get_credentials().username, "user");
    assert_eq!(cam.get_credentials().password.as_deref(), Some("pw"));
    assert!(cam.abilities.is_empty());
}

#[test]
fn new_camera_takes_over_the_options() {
    let link = Arc::new(Mock);
    let cam = BcCamera::new(
        &cloud_opt(),
        link.clone(),
        Some((-7, "payload".to_string())),
    );
    assert!(Arc::ptr_eq(&link, &cam.get_connection()));
    assert_eq!(cam.channel_id, 3);
    assert!(!cam.logged_in);
    assert!(cam.is_cloud);
    assert_eq!(cam.get_credentials().username, "user");
    assert_eq!(cam.get_credentials().password.as_deref(), Some("secret"));
    assert!(cam.abilities.is_empty());
    assert_eq!(cam.sigv3_handshake, Some((-7, "payload".to_string())));
    assert_eq!(cam.cloud_account.as_deref(), Some("account"));
    assert_eq!(cam.cloud_password.as_deref(), Some("password"));
    assert_eq!(cam.cloud_uid.as_deref(), Some("UID"));
    assert_eq!(cam.cloud_mfa_trust_token.as_deref(), Some("trust"));
    assert_eq!(cam.cloud_refresh_token.as_deref(), Some("refresh"));
}

#[test]
fn account_fields_alone_do_not_make_an_account_camera() {
    let mut opt = cloud_opt();
    opt.discovery = DiscoveryMethods::Relay;
    let cam = BcCamera::with_message_num(&opt, Arc::new(Mock), None, 12);
    assert!(!cam.is_cloud);
    assert!(cam.cloud_account.is_some());
    assert_eq!(cam.message_num, 12);
}

#[test]
fn message_numbers_start_at_random() {
    let mut starts: Vec<u16> = Vec::new();
    for _ in 0..64 {
        starts.push(BcCamera::new(&cloud_opt(), Arc::new(Mock), None).message_num);
    }
    let first = starts[0];
    assert!(starts.iter().any(|num| *num != first));
}

#[test]
fn failed_keepalive_tears_the_connection_down() {
    let link = Arc::new(Mock);
    let cam = BcCamera::from_mock_connection(link.clone());
    match cam.after_keepalive(Err(Error::Other("link lost".to_string()))) {
        Startup::TearDown { connection, error } => {
            assert!(Arc::ptr_eq(&link, &connection));
            assert!(matches!(error, Error::Other(text) if text == "link lost"));
        }
        Startup::Ready(_) => panic!("must not be ready"),
    }
}

#[test]
fn good_keepalive_hands_the_camera_over() {
    let cam = BcCamera::with_message_num(&cloud_opt(), Arc::new(Mock), None, 5);
    match cam.after_keepalive(Ok(())) {
        Startup::Ready(mut cam) => assert_eq!(cam.new_message_num(), 5),
        Startup::TearDown { .. } => panic!("must be ready"),
    }
}
