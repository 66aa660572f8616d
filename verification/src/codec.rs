//! Compression strategy: a pure transform pair `{encode, decode}` applied to
//! each record of a tunnelled byte stream, selected once per session.

use vstd::prelude::*;
use vstd::slice::slice_to_vec;
use vstd::string::StringSliceAdditionalSpecFns;
use crate::errors::ConfigError;
use crate::errors::DecodeError;

verus! {

/// Compression algorithm for a session. `Plain` leaves every record
/// untouched; `Lz4` compresses each record as one self-contained block with
/// its uncompressed length prepended. The configuration tokens are `"none"`
/// and `"lz4"`.
#[derive(Copy, Clone, Debug, PartialEq, Eq, Structural)]
pub enum CompressAlgo {
    Plain,
    Lz4,
}

impl Default for CompressAlgo {
    fn default() -> (r: Self)
        ensures
            r == CompressAlgo::Plain,
    {
        CompressAlgo::Plain
    }
}

/// ASCII lower-casing of one byte, as case-insensitive token parsing uses it.
pub open spec fn lower_byte(b: u8) -> u8 {
    if 65 <= b && b <= 90 {
        (b + 32) as u8
    } else {
        b
    }
}

/// ASCII lower-casing of a byte sequence.
pub open spec fn lower_bytes(s: Seq<u8>) -> Seq<u8> {
    s.map_values(|b: u8| lower_byte(b))
}

/// The token `"none"`.
pub open spec fn token_none() -> Seq<u8> {
    seq![110u8, 111u8, 110u8, 101u8]
}

/// The token `"lz4"`.
pub open spec fn token_lz4() -> Seq<u8> {
    seq![108u8, 122u8, 52u8]
}

/// Which compression algorithm a configuration token selects:
/// `"none"` or `"lz4"`, compared without regard to ASCII case.
pub open spec fn spec_parse_compress(s: Seq<u8>) -> Result<CompressAlgo, ConfigError> {
    if lower_bytes(s) == token_none() {
        Ok(CompressAlgo::Plain)
    } else if lower_bytes(s) == token_lz4() {
        Ok(CompressAlgo::Lz4)
    } else {
        Err(ConfigError::UnknownCompressionMode)
    }
}

/// True exactly when `s` lower-cases to `t` (with `t` already lower-case).
pub fn eq_lower(s: &[u8], t: &[u8]) -> (r: bool)
    ensures
        r == (lower_bytes(s@) == t@),
{
    if s.len() != t.len() {
        assert(lower_bytes(s@).len() == s@.len());
        return false;
    }
    let mut i: usize = 0;
    while i < s.len()
        invariant
            i <= s@.len(),
            s@.len() == t@.len(),
            forall|j: int| 0 <= j < i ==> lower_bytes(s@)[j] == t@[j],
        decreases s@.len() - i,
    {
        let c = s[i];
        let lc: u8 = if 65 <= c && c <= 90 {
            c + 32
        } else {
            c
        };
        assert(lc == lower_bytes(s@)[i as int]);
        if lc != t[i] {
            return false;
        }
        i += 1;
    }
    proof {
        assert(lower_bytes(s@) =~= t@);
    }
    true
}

impl CompressAlgo {
    /// Parses the session's compression-mode token, case-insensitively:
    /// `"none"` and `"lz4"` are the only accepted tokens.
    pub fn parse(token: &str) -> (r: Result<CompressAlgo, ConfigError>)
        ensures
            r == spec_parse_compress(token.spec_bytes()),
    {
        let b = token.as_bytes();
        let t_none: Vec<u8> = vec![110u8, 111u8, 110u8, 101u8];
        let t_lz4: Vec<u8> = vec![108u8, 122u8, 52u8];
        proof {
            assert(t_none@ =~= token_none());
            assert(t_lz4@ =~= token_lz4());
        }
        if eq_lower(b, t_none.as_slice()) {
            Ok(CompressAlgo::Plain)
        } else if eq_lower(b, t_lz4.as_slice()) {
            Ok(CompressAlgo::Lz4)
        } else {
            Err(ConfigError::UnknownCompressionMode)
        }
    }
}

/// The block that `lz4_flex::compress_prepend_size` produces for a given
/// input: a function of the input bytes alone.
pub uninterp spec fn lz4_block_of(s: Seq<u8>) -> Seq<u8>;

/// What one record becomes on the wire before framing: itself under `Plain`,
/// its compressed block under `Lz4`.
pub open spec fn encode_spec(algo: CompressAlgo, s: Seq<u8>) -> Seq<u8> {
    match algo {
        CompressAlgo::Plain => s,
        CompressAlgo::Lz4 => lz4_block_of(s),
    }
}

/// Relies on `lz4_flex::compress_prepend_size`: compresses the whole input
/// as one block and prepends the uncompressed length as a 4-byte header; the
/// result depends on the input bytes alone, and its length is at most the
/// header plus `get_maximum_output_size` of the input length. The length
/// header is a `u32`, so inputs beyond `u32::MAX` bytes (whose headers would
/// silently truncate) are kept out, and the name `lz4_block_of` is only ever
/// applied to inputs of at most that length.
#[verifier::external_body]
fn lz4_block(data: &[u8]) -> (r: Vec<u8>)
    requires
        data@.len() <= u32::MAX,
        data@.len() * 110 <= usize::MAX - 2400,
    ensures
        r@ == lz4_block_of(data@),
        r@.len() <= 24 + data@.len() * 110 / 100,
{
    lz4_flex::compress_prepend_size(data)
}

#[verifier::external_type_specification]
#[verifier::external_body]
pub struct ExDecompressError(lz4_flex::block::DecompressError);

/// Relies on `lz4_flex::decompress_size_prepended`: decompressing a block
/// made by `compress_prepend_size` gives back exactly the bytes that were
/// compressed (the crate's documented block-format round trip). The round
/// trip holds only of inputs whose length fits the block's `u32` size
/// header, so both clauses quantify over those alone.
#[verifier::external_body]
fn lz4_unblock(data: &[u8]) -> (r: Result<Vec<u8>, lz4_flex::block::DecompressError>)
    ensures
        match r {
            Ok(v) => forall|x: Seq<u8>|
                x.len() <= u32::MAX && data@ == lz4_block_of(x) ==> v@ == x,
            Err(_) => forall|x: Seq<u8>| x.len() <= u32::MAX ==> data@ != lz4_block_of(x),
        },
{
    lz4_flex::decompress_size_prepended(data)
}

/// Encodes one whole record for the wire. The identity under `Plain`; one
/// self-contained compressed block under `Lz4`. A record's length must fit
/// the block format's `u32` size header.
pub fn encode(algo: CompressAlgo, data: &[u8]) -> (r: Vec<u8>)
    requires
        data@.len() <= u32::MAX,
        data@.len() * 110 <= usize::MAX - 2400,
    ensures
        r@ == encode_spec(algo, data@),
        algo == CompressAlgo::Lz4 ==> r@.len() <= 24 + data@.len() * 110 / 100,
        algo == CompressAlgo::Plain ==> r@ == data@,
{
    match algo {
        CompressAlgo::Plain => slice_to_vec(data),
        CompressAlgo::Lz4 => lz4_block(data),
    }
}

/// Decodes one whole encoded record. Every record that `encode` produced
/// decodes back to the bytes it was made from; a record that is no encoding
/// of anything fails with `CorruptFrame` or, if the decompressor happens to
/// accept it, yields whatever the decompressor returned.
pub fn decode(algo: CompressAlgo, data: &[u8]) -> (r: Result<Vec<u8>, DecodeError>)
    ensures
        forall|x: Seq<u8>|
            x.len() <= u32::MAX && data@ == encode_spec(algo, x) ==> (r matches Ok(v) && v@ == x),
        algo == CompressAlgo::Plain ==> (r matches Ok(v) && v@ == data@),
        r matches Err(e) ==> e == DecodeError::CorruptFrame && algo == CompressAlgo::Lz4,
{
    match algo {
        CompressAlgo::Plain => Ok(slice_to_vec(data)),
        CompressAlgo::Lz4 => match lz4_unblock(data) {
            Ok(v) => Ok(v),
            Err(_) => Err(DecodeError::CorruptFrame),
        },
    }
}

} // verus!
