use quic_tunnel::codec::decode;
use quic_tunnel::codec::encode;
use quic_tunnel::CompressAlgo;
use quic_tunnel::ConfigError;
use quic_tunnel::DecodeError;

#[test]
fn round_trip_empty() {
    let x: Vec<u8> = Vec::new();
    let w = encode(CompressAlgo::Lz4, &x);
    assert_eq!(decode(CompressAlgo::Lz4, &w).unwrap(), x);
    let w = encode(CompressAlgo::Plain, &x);
    assert_eq!(decode(CompressAlgo::Plain, &w).unwrap(), x);
}

#[test]
fn round_trip_one_byte() {
    let x = vec![42u8];
    let w = encode(CompressAlgo::Lz4, &x);
    assert_eq!(decode(CompressAlgo::Lz4, &w).unwrap(), x);
}

#[test]
fn round_trip_buffer_size() {
    let x: Vec<u8> = (0..8192u32).map(|i| (i % 251) as u8).collect();
    let w = encode(CompressAlgo::Lz4, &x);
    assert_eq!(decode(CompressAlgo::Lz4, &w).unwrap(), x);
}

#[test]
fn round_trip_multi_buffer_with_remainder() {
    let x: Vec<u8> = (0..3 * 8192 + 7u32).map(|i| (i % 13) as u8).collect();
    let w = encode(CompressAlgo::Lz4, &x);
    assert_eq!(decode(CompressAlgo::Lz4, &w).unwrap(), x);
}

#[test]
fn plain_is_identity() {
    let x = b"some bytes that stay as they are".to_vec();
    assert_eq!(encode(CompressAlgo::Plain, &x), x);
    assert_eq!(decode(CompressAlgo::Plain, &x).unwrap(), x);
}

#[test]
fn encode_matches_compressor() {
    let x = b"hello world hello world hello world".to_vec();
    let w = encode(CompressAlgo::Lz4, &x);
    assert_eq!(w, lz4_flex::compress_prepend_size(&x));
    assert_ne!(w, x);
}

#[test]
fn decode_rejects_garbage() {
    // Declares five decompressed bytes but carries a truncated token.
    let garbage = [5u8, 0, 0, 0, 255];
    assert_eq!(
        decode(CompressAlgo::Lz4, &garbage),
        Err(DecodeError::CorruptFrame)
    );
}

#[test]
fn compress_tokens_parse_case_insensitively() {
    assert_eq!(CompressAlgo::parse("none"), Ok(CompressAlgo::Plain));
    assert_eq!(CompressAlgo::parse("None"), Ok(CompressAlgo::Plain));
    assert_eq!(CompressAlgo::parse("NONE"), Ok(CompressAlgo::Plain));
    assert_eq!(CompressAlgo::parse("lz4"), Ok(CompressAlgo::Lz4));
    assert_eq!(CompressAlgo::parse("Lz4"), Ok(CompressAlgo::Lz4));
    assert_eq!(CompressAlgo::parse("LZ4"), Ok(CompressAlgo::Lz4));
    assert_eq!(
        CompressAlgo::parse("bogus"),
        Err(ConfigError::UnknownCompressionMode)
    );
    assert_eq!(
        CompressAlgo::parse(""),
        Err(ConfigError::UnknownCompressionMode)
    );
}

#[test]
fn compress_default_is_plain() {
    assert_eq!(CompressAlgo::default(), CompressAlgo::Plain);
}
