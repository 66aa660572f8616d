//! Transport/session policy: translates operator intent — congestion
//! algorithm, keep-alive behaviour, idle timeout — into the QUIC transport
//! configuration shared by client and server endpoint construction.

use vstd::prelude::*;
use vstd::string::StringSliceAdditionalSpecFns;
use std::sync::Arc;
use crate::codec::eq_lower;
use crate::codec::lower_bytes;
use crate::errors::ConfigError;

verus! {

/// Largest idle timeout, in milliseconds, that the transport can represent:
/// its wire format stores the timeout as a variable-length integer of at
/// most `2^62 - 1`.
pub const MAX_IDLE_TIMEOUT_MS: u64 = 4611686018427387903;

/// Congestion-control algorithm installed into the transport configuration.
#[derive(Copy, Clone, Debug, PartialEq, Eq, Structural)]
pub enum CongestionMode {
    /// Good for high-bandwidth networks.
    Bbr,
    /// Good all around.
    Cubic,
    /// Good for high-loss networks; the default.
    NewReno,
}

impl Default for CongestionMode {
    fn default() -> (r: Self)
        ensures
            r == CongestionMode::NewReno,
    {
        CongestionMode::NewReno
    }
}

/// The token `"bbr"`.
pub open spec fn token_bbr() -> Seq<u8> {
    seq![98u8, 98u8, 114u8]
}

/// The token `"cubic"`.
pub open spec fn token_cubic() -> Seq<u8> {
    seq![99u8, 117u8, 98u8, 105u8, 99u8]
}

/// The token `"newreno"`.
pub open spec fn token_newreno() -> Seq<u8> {
    seq![110u8, 101u8, 119u8, 114u8, 101u8, 110u8, 111u8]
}

/// Which congestion mode a configuration token selects: `"bbr"`, `"cubic"`
/// or `"newreno"`, compared without regard to ASCII case; any other token is
/// rejected rather than silently defaulted.
pub open spec fn spec_parse_congestion(s: Seq<u8>) -> Result<CongestionMode, ConfigError> {
    if lower_bytes(s) == token_bbr() {
        Ok(CongestionMode::Bbr)
    } else if lower_bytes(s) == token_cubic() {
        Ok(CongestionMode::Cubic)
    } else if lower_bytes(s) == token_newreno() {
        Ok(CongestionMode::NewReno)
    } else {
        Err(ConfigError::UnknownCongestionMode)
    }
}

impl CongestionMode {
    /// Parses the congestion-mode token, case-insensitively.
    pub fn parse(token: &str) -> (r: Result<CongestionMode, ConfigError>)
        ensures
            r == spec_parse_congestion(token.spec_bytes()),
    {
        let b = token.as_bytes();
        let t_bbr: Vec<u8> = vec![98u8, 98u8, 114u8];
        let t_cubic: Vec<u8> = vec![99u8, 117u8, 98u8, 105u8, 99u8];
        let t_newreno: Vec<u8> = vec![110u8, 101u8, 119u8, 114u8, 101u8, 110u8, 111u8];
        proof {
            assert(t_bbr@ =~= token_bbr());
            assert(t_cubic@ =~= token_cubic());
            assert(t_newreno@ =~= token_newreno());
        }
        if eq_lower(b, t_bbr.as_slice()) {
            Ok(CongestionMode::Bbr)
        } else if eq_lower(b, t_cubic.as_slice()) {
            Ok(CongestionMode::Cubic)
        } else if eq_lower(b, t_newreno.as_slice()) {
            Ok(CongestionMode::NewReno)
        } else {
            Err(ConfigError::UnknownCongestionMode)
        }
    }
}

/// Validated operator intent for one endpoint's transport: congestion
/// algorithm, whether this endpoint emits keep-alives, and the idle timeout
/// after which a silent peer is considered unreachable.
#[derive(Copy, Clone, Debug, PartialEq, Eq, Structural)]
pub struct TransportPolicy {
    pub congestion: CongestionMode,
    pub keep_alive: bool,
    pub idle_timeout_ms: u64,
}

impl TransportPolicy {
    /// A policy's idle timeout is positive and representable.
    pub open spec fn wf(self) -> bool {
        1 <= self.idle_timeout_ms <= MAX_IDLE_TIMEOUT_MS
    }

    /// The keep-alive interval this policy installs: exactly half the idle
    /// timeout when keep-alives are on (only one endpoint of a pair needs to
    /// emit them), nothing otherwise.
    pub open spec fn keep_alive_interval_ms(self) -> Option<u64> {
        if self.keep_alive {
            Some((self.idle_timeout_ms / 2) as u64)
        } else {
            None
        }
    }

    /// Validates operator intent into a policy. Rejected exactly when the
    /// idle timeout is zero or too large for the transport's native unit.
    pub fn build(congestion: CongestionMode, keep_alive: bool, idle_timeout_ms: u64) -> (r: Result<
        TransportPolicy,
        ConfigError,
    >)
        ensures
            match r {
                Ok(p) => {
                    &&& p == (TransportPolicy { congestion, keep_alive, idle_timeout_ms })
                    &&& p.wf()
                    &&& 1 <= idle_timeout_ms <= MAX_IDLE_TIMEOUT_MS
                },
                Err(e) => {
                    &&& e == ConfigError::InvalidDuration
                    &&& !(1 <= idle_timeout_ms <= MAX_IDLE_TIMEOUT_MS)
                },
            },
    {
        if 1 <= idle_timeout_ms && idle_timeout_ms <= MAX_IDLE_TIMEOUT_MS {
            Ok(TransportPolicy { congestion, keep_alive, idle_timeout_ms })
        } else {
            Err(ConfigError::InvalidDuration)
        }
    }

    /// The keep-alive interval in milliseconds, as `keep_alive_interval_ms`
    /// states it.
    pub fn keep_alive_interval(&self) -> (r: Option<u64>)
        ensures
            r == self.keep_alive_interval_ms(),
    {
        if self.keep_alive {
            Some(self.idle_timeout_ms / 2)
        } else {
            None
        }
    }
}

/// Which end of the tunnel an endpoint is. Server endpoints additionally
/// run without unidirectional streams (the tunnel only uses bidirectional
/// ones) and may demand a stateless retry.
#[derive(Copy, Clone, Debug, PartialEq, Eq, Structural)]
pub enum EndpointRole {
    Client,
    Server,
}

#[verifier::external_type_specification]
#[verifier::external_body]
pub struct ExTransportConfig(quinn::TransportConfig);

/// What this library has installed into a transport configuration it is
/// building. The configuration itself is opaque to the library, so each
/// trusted setter records here, field by field, the setting its one call
/// installed; a built configuration's contract speaks of this model.
pub struct TransportModel {
    /// The congestion controller factory installed, if any.
    pub congestion: Option<CongestionMode>,
    /// The keep-alive interval installed, in milliseconds, if any.
    pub keep_alive_interval_ms: Option<u64>,
    /// The max idle timeout installed, in milliseconds, if any.
    pub max_idle_timeout_ms: Option<u64>,
    /// Whether the peer has been forbidden to open unidirectional streams.
    pub uni_streams_disabled: bool,
}

/// A transport configuration under construction: the opaque configuration
/// object beside the model of what has been installed into it. The fields
/// are private, so only this module's trusted setters advance the model.
pub struct TunnelTransport {
    cfg: quinn::TransportConfig,
    installed: Ghost<TransportModel>,
}

impl TunnelTransport {
    /// What has been installed into the carried configuration so far.
    pub closed spec fn model(self) -> TransportModel {
        self.installed@
    }

    /// A fresh, still-unconfigured transport: the transport's defaults, with
    /// nothing installed by this library yet.
    pub fn new() -> (r: TunnelTransport)
        ensures
            r.model() == (TransportModel {
                congestion: None,
                keep_alive_interval_ms: None,
                max_idle_timeout_ms: None,
                uni_streams_disabled: false,
            }),
    {
        TunnelTransport {
            cfg: raw_transport_config(),
            installed: Ghost(
                TransportModel {
                    congestion: None,
                    keep_alive_interval_ms: None,
                    max_idle_timeout_ms: None,
                    uni_streams_disabled: false,
                },
            ),
        }
    }

    /// Hands the finished configuration to endpoint construction.
    pub fn into_config(self) -> Arc<quinn::TransportConfig> {
        let TunnelTransport { cfg, installed: _ } = self;
        Arc::new(cfg)
    }
}

/// Relies on `quinn::TransportConfig::default` for the baseline transport
/// configuration that the policy's settings are installed into.
#[verifier::external_body]
fn raw_transport_config() -> quinn::TransportConfig {
    quinn::TransportConfig::default()
}

/// Relies on `quinn::TransportConfig::congestion_controller_factory` with a
/// default `congestion::BbrConfig`: installs the BBR controller and nothing
/// else.
#[verifier::external_body]
fn set_congestion_bbr(t: &mut TunnelTransport)
    ensures
        final(t).model() == (TransportModel {
            congestion: Some(CongestionMode::Bbr),
            ..old(t).model()
        }),
{
    t.cfg.congestion_controller_factory(Arc::new(quinn::congestion::BbrConfig::default()));
}

/// Relies on `quinn::TransportConfig::congestion_controller_factory` with a
/// default `congestion::CubicConfig`: installs the Cubic controller and
/// nothing else.
#[verifier::external_body]
fn set_congestion_cubic(t: &mut TunnelTransport)
    ensures
        final(t).model() == (TransportModel {
            congestion: Some(CongestionMode::Cubic),
            ..old(t).model()
        }),
{
    t.cfg.congestion_controller_factory(Arc::new(quinn::congestion::CubicConfig::default()));
}

/// Relies on `quinn::TransportConfig::congestion_controller_factory` with a
/// default `congestion::NewRenoConfig`: installs the NewReno controller and
/// nothing else.
#[verifier::external_body]
fn set_congestion_newreno(t: &mut TunnelTransport)
    ensures
        final(t).model() == (TransportModel {
            congestion: Some(CongestionMode::NewReno),
            ..old(t).model()
        }),
{
    t.cfg.congestion_controller_factory(Arc::new(quinn::congestion::NewRenoConfig::default()));
}

/// Relies on `quinn::TransportConfig::keep_alive_interval`: installs the
/// given interval, taken here in milliseconds, and nothing else.
#[verifier::external_body]
fn set_keep_alive_ms(t: &mut TunnelTransport, ms: u64)
    ensures
        final(t).model() == (TransportModel {
            keep_alive_interval_ms: Some(ms),
            ..old(t).model()
        }),
{
    t.cfg.keep_alive_interval(Some(std::time::Duration::from_millis(ms)));
}

/// Relies on `quinn::IdleTimeout::try_from(Duration)` and
/// `quinn::TransportConfig::max_idle_timeout`: conversion succeeds exactly
/// for durations of at most `2^62 - 1` milliseconds, and the timeout is then
/// installed; on failure nothing changes.
#[verifier::external_body]
fn set_max_idle_timeout_ms(t: &mut TunnelTransport, ms: u64) -> (ok: bool)
    ensures
        ok <==> ms <= MAX_IDLE_TIMEOUT_MS,
        ok ==> final(t).model() == (TransportModel {
            max_idle_timeout_ms: Some(ms),
            ..old(t).model()
        }),
        !ok ==> final(t).model() == old(t).model(),
{
    match quinn::IdleTimeout::try_from(std::time::Duration::from_millis(ms)) {
        Ok(timeout) => {
            t.cfg.max_idle_timeout(Some(timeout));
            true
        },
        Err(_) => false,
    }
}

/// Relies on `quinn::TransportConfig::max_concurrent_uni_streams` with 0:
/// the peer may open no unidirectional streams; nothing else changes.
#[verifier::external_body]
fn disable_uni_streams(t: &mut TunnelTransport)
    ensures
        final(t).model() == (TransportModel { uni_streams_disabled: true, ..old(t).model() }),
{
    t.cfg.max_concurrent_uni_streams(quinn::VarInt::from_u32(0));
}

/// What a built transport configuration must hold for a given role and
/// policy: the policy's congestion controller, its keep-alive interval
/// (exactly half the idle timeout, only when keep-alives are on), its idle
/// timeout always, and no unidirectional streams exactly on servers.
pub open spec fn built_model(role: EndpointRole, p: TransportPolicy) -> TransportModel {
    TransportModel {
        congestion: Some(p.congestion),
        keep_alive_interval_ms: p.keep_alive_interval_ms(),
        max_idle_timeout_ms: Some(p.idle_timeout_ms),
        uni_streams_disabled: role == EndpointRole::Server,
    }
}

/// Builds the concrete QUIC transport configuration for one endpoint:
/// validates the policy, installs the chosen congestion controller, installs
/// a keep-alive interval of exactly half the idle timeout when keep-alives
/// are on, always installs the idle timeout, and on server endpoints
/// forbids unidirectional streams. Fails exactly when the idle timeout is
/// zero or not representable by the transport.
pub fn build_transport_config(
    role: EndpointRole,
    keep_alive: bool,
    congestion_mode: CongestionMode,
    idle_timeout_ms: u64,
) -> (r: Result<TunnelTransport, ConfigError>)
    ensures
        r matches Ok(t) ==> t.model() == built_model(
            role,
            TransportPolicy { congestion: congestion_mode, keep_alive, idle_timeout_ms },
        ),
        r is Ok <==> 1 <= idle_timeout_ms <= MAX_IDLE_TIMEOUT_MS,
        r matches Err(e) ==> e == ConfigError::InvalidDuration,
{
    let policy = match TransportPolicy::build(congestion_mode, keep_alive, idle_timeout_ms) {
        Ok(p) => p,
        Err(e) => {
            return Err(e);
        },
    };
    let mut transport = TunnelTransport::new();
    match policy.congestion {
        CongestionMode::Bbr => set_congestion_bbr(&mut transport),
        CongestionMode::Cubic => set_congestion_cubic(&mut transport),
        CongestionMode::NewReno => set_congestion_newreno(&mut transport),
    }
    match policy.keep_alive_interval() {
        Some(interval) => set_keep_alive_ms(&mut transport, interval),
        None => (),
    }
    if !set_max_idle_timeout_ms(&mut transport, policy.idle_timeout_ms) {
        return Err(ConfigError::InvalidDuration);
    }
    match role {
        EndpointRole::Server => disable_uni_streams(&mut transport),
        EndpointRole::Client => (),
    }
    Ok(transport)
}

} // verus!
