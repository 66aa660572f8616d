use quic_tunnel::frame::frame;
use quic_tunnel::frame::Deframer;
use quic_tunnel::pump::Direction;
use quic_tunnel::pump::Pump;
use quic_tunnel::CompressAlgo;
use quic_tunnel::DecodeError;

#[test]
fn frame_layout() {
    let w = frame(b"abc");
    assert_eq!(w, vec![3u8, 0, 0, 0, 97, 98, 99]);
}

#[test]
fn deframer_reassembles_across_splits() {
    let w = frame(b"hello world");
    let mut d = Deframer::new();
    // Split in the middle of the header, then in the middle of the payload.
    d.push(&w[..2]);
    assert!(d.next_frame().is_none());
    d.push(&w[2..7]);
    assert!(d.next_frame().is_none());
    d.push(&w[7..]);
    assert_eq!(d.next_frame().unwrap(), b"hello world".to_vec());
    assert!(d.next_frame().is_none());
}

#[test]
fn relay_hello_world_through_lz4() {
    let input = b"hello world";
    let mut tx = Pump::new(Direction::Compress, CompressAlgo::Lz4);
    let wire = tx.on_chunk(input).unwrap();
    assert_eq!(tx.counters(), (11, wire.len() as u64));
    assert_eq!(wire.len(), lz4_flex::compress_prepend_size(input).len() + 4);

    let mut rx = Pump::new(Direction::Decompress, CompressAlgo::Lz4);
    let out = rx.on_chunk(&wire).unwrap();
    assert_eq!(out, input.to_vec());
    assert_eq!(rx.counters(), (11, wire.len() as u64));
}

#[test]
fn reassembly_is_independent_of_chunking() {
    let first = b"hello ";
    let second = b"world, again and again and again";
    let mut tx = Pump::new(Direction::Compress, CompressAlgo::Lz4);
    let mut wire = tx.on_chunk(first).unwrap();
    wire.extend(tx.on_chunk(second).unwrap());

    // Delivered one byte at a time.
    let mut rx = Pump::new(Direction::Decompress, CompressAlgo::Lz4);
    let mut out: Vec<u8> = Vec::new();
    for b in &wire {
        out.extend(rx.on_chunk(&[*b]).unwrap());
    }
    let mut whole = first.to_vec();
    whole.extend_from_slice(second);
    assert_eq!(out, whole);

    // Delivered all at once (the wire fits in one read here).
    let mut rx2 = Pump::new(Direction::Decompress, CompressAlgo::Lz4);
    let out2 = rx2.on_chunk(&wire).unwrap();
    assert_eq!(out2, whole);
    assert_eq!(rx.counters(), rx2.counters());
}

#[test]
fn eof_terminates_pump() {
    let mut p = Pump::new(Direction::Compress, CompressAlgo::Lz4);
    assert!(!p.is_done());
    assert!(p.on_eof().is_ok());
    assert!(p.is_done());
}

#[test]
fn eof_inside_record_is_corrupt() {
    let mut rx = Pump::new(Direction::Decompress, CompressAlgo::Lz4);
    // Three bytes of a four-byte length header, then the stream ends.
    rx.on_chunk(&[3u8, 0, 0]).unwrap();
    assert_eq!(rx.on_eof(), Err(DecodeError::CorruptFrame));
    assert!(rx.is_done());
}

#[test]
fn corrupt_record_fails_pump() {
    // A well-formed frame whose payload is no compressed block.
    let wire = frame(&[5u8, 0, 0, 0, 255]);
    let mut rx = Pump::new(Direction::Decompress, CompressAlgo::Lz4);
    assert_eq!(rx.on_chunk(&wire), Err(DecodeError::CorruptFrame));
    assert!(rx.is_done());
}

#[test]
fn empty_record_is_corrupt() {
    // A frame with no payload cannot hold a compressed block's size header.
    let wire = frame(b"");
    let mut rx = Pump::new(Direction::Decompress, CompressAlgo::Lz4);
    assert_eq!(rx.on_chunk(&wire), Err(DecodeError::CorruptFrame));
}

#[test]
fn plain_mode_passes_bytes_verbatim() {
    let x = b"verbatim bytes";
    let mut tx = Pump::new(Direction::Compress, CompressAlgo::Plain);
    assert_eq!(tx.on_chunk(x).unwrap(), x.to_vec());
    assert_eq!(tx.counters(), (14, 14));
    let mut rx = Pump::new(Direction::Decompress, CompressAlgo::Plain);
    assert_eq!(rx.on_chunk(x).unwrap(), x.to_vec());
    assert_eq!(rx.counters(), (14, 14));
}

#[test]
fn counters_accumulate_across_chunks() {
    let mut tx = Pump::new(Direction::Compress, CompressAlgo::Lz4);
    let w1 = tx.on_chunk(b"first record").unwrap();
    let w2 = tx.on_chunk(b"second record").unwrap();
    assert_eq!(tx.counters(), (25, (w1.len() + w2.len()) as u64));
}
