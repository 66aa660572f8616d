use quic_tunnel::build_transport_config;
use quic_tunnel::CongestionMode;
use quic_tunnel::ConfigError;
use quic_tunnel::EndpointRole;
use quic_tunnel::TransportPolicy;

#[test]
fn keep_alive_interval_is_half_the_idle_timeout() {
    let p = TransportPolicy::build(CongestionMode::Cubic, true, 10_000).unwrap();
    assert_eq!(p.keep_alive_interval(), Some(5_000));
}

#[test]
fn no_keep_alive_interval_without_keep_alive() {
    let p = TransportPolicy::build(CongestionMode::Cubic, false, 10_000).unwrap();
    assert_eq!(p.keep_alive_interval(), None);
    let p = TransportPolicy::build(CongestionMode::Bbr, false, 77).unwrap();
    assert_eq!(p.keep_alive_interval(), None);
}

#[test]
fn zero_idle_timeout_is_invalid() {
    assert_eq!(
        TransportPolicy::build(CongestionMode::NewReno, true, 0),
        Err(ConfigError::InvalidDuration)
    );
}

#[test]
fn unrepresentable_idle_timeout_is_invalid() {
    assert_eq!(
        TransportPolicy::build(CongestionMode::NewReno, true, u64::MAX),
        Err(ConfigError::InvalidDuration)
    );
    // The largest representable value is accepted.
    assert!(TransportPolicy::build(CongestionMode::NewReno, true, 4611686018427387903).is_ok());
}

#[test]
fn congestion_tokens_parse_case_insensitively() {
    assert_eq!(CongestionMode::parse("CUBIC"), Ok(CongestionMode::Cubic));
    assert_eq!(CongestionMode::parse("cubic"), Ok(CongestionMode::Cubic));
    assert_eq!(CongestionMode::parse("Cubic"), Ok(CongestionMode::Cubic));
    assert_eq!(CongestionMode::parse("bbr"), Ok(CongestionMode::Bbr));
    assert_eq!(CongestionMode::parse("BBR"), Ok(CongestionMode::Bbr));
    assert_eq!(CongestionMode::parse("newreno"), Ok(CongestionMode::NewReno));
    assert_eq!(CongestionMode::parse("NewReno"), Ok(CongestionMode::NewReno));
}

#[test]
fn unknown_congestion_token_is_rejected() {
    assert_eq!(
        CongestionMode::parse("bogus"),
        Err(ConfigError::UnknownCongestionMode)
    );
    assert_eq!(
        CongestionMode::parse(""),
        Err(ConfigError::UnknownCongestionMode)
    );
}

#[test]
fn congestion_default_is_newreno() {
    assert_eq!(CongestionMode::default(), CongestionMode::NewReno);
}

#[test]
fn transport_config_builds_for_both_roles() {
    for role in [EndpointRole::Client, EndpointRole::Server] {
        for mode in [
            CongestionMode::Bbr,
            CongestionMode::Cubic,
            CongestionMode::NewReno,
        ] {
            let built = build_transport_config(role, true, mode, 10_000).unwrap();
            let _cfg = built.into_config();
            assert!(build_transport_config(role, false, mode, 10_000).is_ok());
        }
    }
}

#[test]
fn transport_config_rejects_bad_timeout() {
    assert!(matches!(
        build_transport_config(EndpointRole::Client, true, CongestionMode::Cubic, 0),
        Err(ConfigError::InvalidDuration)
    ));
    assert!(matches!(
        build_transport_config(EndpointRole::Server, false, CongestionMode::Bbr, u64::MAX),
        Err(ConfigError::InvalidDuration)
    ));
}
