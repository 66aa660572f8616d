//! Verified core of a QUIC tunnel: a framed, optionally compressing byte
//! relay between a QUIC stream pair and a TCP connection, and the transport
//! policy that configures the tunnel's QUIC endpoints.

pub mod codec;
pub mod errors;
pub mod frame;
pub mod policy;
pub mod pump;

pub use codec::CompressAlgo;
pub use errors::ConfigError;
pub use errors::DecodeError;
pub use policy::CongestionMode;
pub use policy::EndpointRole;
pub use policy::TransportModel;
pub use policy::TransportPolicy;
pub use policy::TunnelTransport;
pub use policy::build_transport_config;
pub use pump::Direction;
pub use pump::Pump;
