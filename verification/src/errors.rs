//! Error taxonomy of the tunnel's verified core.
//!
//! Configuration problems are fatal before any I/O happens; a corrupt
//! compressed record is fatal to the pump that saw it and is kept distinct
//! from transport I/O failures, which the unverified shell reports itself.

use vstd::prelude::*;

verus! {

/// A configuration value was rejected before any endpoint was built.
#[derive(Copy, Clone, Debug, PartialEq, Eq, Structural)]
pub enum ConfigError {
    /// The congestion-mode token matched no known algorithm.
    UnknownCongestionMode,
    /// The compression-mode token matched no known algorithm.
    UnknownCompressionMode,
    /// The idle timeout cannot be represented in the transport's native
    /// time unit (zero, or beyond its largest representable duration).
    InvalidDuration,
}

/// A compressed record on the wire was malformed: its length header was
/// absent or truncated, or its payload did not decompress to a buffer of
/// the declared length.
#[derive(Copy, Clone, Debug, PartialEq, Eq, Structural)]
pub enum DecodeError {
    CorruptFrame,
}

} // verus!
