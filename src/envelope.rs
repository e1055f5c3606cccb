//! The envelope around a serialized artifact:
//! `[ payload ][ root position: u64 little-endian ][ endian tag: u8 ]`.
//! The tag records the byte order of the host that wrote the payload; an
//! artifact is only read back on a host of the same byte order.
use vstd::prelude::*;

verus! {

/// Endian tag of a little-endian host (`'l'`).
pub const LITTLE_ENDIAN_TAG: u8 = 108;

/// Endian tag of a big-endian host (`'b'`).
pub const BIG_ENDIAN_TAG: u8 = 98;

/// Bytes that follow the payload: the position and the tag.
pub const TRAILER_LEN: usize = 9;

/// Why bytes are not an envelope this host can read; either way the
/// artifact is incompatible with this host.
#[derive(Clone, Copy, Debug, PartialEq, Eq, Structural)]
pub enum EnvelopeError {
    /// Too short to hold the trailer.
    InvalidSerializedData,
    /// Written on a host of the other byte order.
    IncompatibleEndian { received: u8, expected: u8 },
}

/// The eight little-endian bytes of `x`.
pub open spec fn le_bytes(x: u64) -> Seq<u8> {
    seq![
        x as u8,
        (x >> 8) as u8,
        (x >> 16) as u8,
        (x >> 24) as u8,
        (x >> 32) as u8,
        (x >> 40) as u8,
        (x >> 48) as u8,
        (x >> 56) as u8,
    ]
}

/// The `u64` whose little-endian bytes are `b[0..8]`.
pub open spec fn from_le(b: Seq<u8>) -> u64 {
    (b[0] as u64) | ((b[1] as u64) << 8) | ((b[2] as u64) << 16) | ((b[3] as u64) << 24) | ((
    b[4] as u64) << 32) | ((b[5] as u64) << 40) | ((b[6] as u64) << 48) | ((b[7] as u64) << 56)
}

/// The envelope of `payload` with root position `pos`, written on a host
/// whose tag is `tag`.
pub open spec fn sealed(payload: Seq<u8>, pos: u64, tag: u8) -> Seq<u8> {
    payload + le_bytes(pos) + seq![tag]
}

/// What reading `bytes` on a host whose tag is `host` gives: the payload's
/// length and the root position, or why the bytes are refused.
pub open spec fn opened(bytes: Seq<u8>, host: u8) -> Result<(usize, u64), EnvelopeError> {
    if bytes.len() < 9 {
        Err(EnvelopeError::InvalidSerializedData)
    } else if bytes.last() != host {
        Err(EnvelopeError::IncompatibleEndian { received: bytes.last(), expected: host })
    } else {
        Ok(
            (
                (bytes.len() - 9) as usize,
                from_le(bytes.subrange(bytes.len() - 9, bytes.len() - 1)),
            ),
        )
    }
}

/// Relies on u16::to_ne_bytes: the bytes of 1 in the host's byte order.
#[verifier::external_body]
fn native_bytes_of_one() -> (r: [u8; 2])
    ensures
        r@ == seq![1u8, 0u8] || r@ == seq![0u8, 1u8],
{
    1u16.to_ne_bytes()
}

/// The endian tag of a host on which the number 1 has the bytes `b`.
pub fn endian_tag_of(b: [u8; 2]) -> (r: u8)
    ensures
        r == if b@[0] == 1 {
            LITTLE_ENDIAN_TAG
        } else {
            BIG_ENDIAN_TAG
        },
{
    if b[0] == 1 {
        LITTLE_ENDIAN_TAG
    } else {
        BIG_ENDIAN_TAG
    }
}

/// The endian tag of this host.
pub fn host_endian() -> (r: u8)
    ensures
        r == LITTLE_ENDIAN_TAG || r == BIG_ENDIAN_TAG,
{
    endian_tag_of(native_bytes_of_one())
}

proof fn lemma_le_round_trip(x: u64)
    ensures
        from_le(le_bytes(x)) == x,
{
    assert(((x as u8) as u64) | ((((x >> 8) as u8) as u64) << 8) | ((((x >> 16) as u8) as u64)
        << 16) | ((((x >> 24) as u8) as u64) << 24) | ((((x >> 32) as u8) as u64) << 32) | ((((x
        >> 40) as u8) as u64) << 40) | ((((x >> 48) as u8) as u64) << 48) | ((((x >> 56) as u8)
        as u64) << 56) == x) by (bit_vector);
}

/// Appends the trailer for root position `pos` and host tag `tag`.
pub fn seal_with_tag(payload: Vec<u8>, pos: u64, tag: u8) -> (r: Vec<u8>)
    ensures
        r@ == sealed(payload@, pos, tag),
{
    let mut r = payload;
    r.push(pos as u8);
    r.push((pos >> 8) as u8);
    r.push((pos >> 16) as u8);
    r.push((pos >> 24) as u8);
    r.push((pos >> 32) as u8);
    r.push((pos >> 40) as u8);
    r.push((pos >> 48) as u8);
    r.push((pos >> 56) as u8);
    r.push(tag);
    assert(r@ =~= sealed(payload@, pos, tag));
    r
}

/// Appends the trailer for root position `pos`, tagged with this host's byte order.
pub fn seal(payload: Vec<u8>, pos: u64) -> (r: Vec<u8>)
    ensures
        r@ == sealed(payload@, pos, LITTLE_ENDIAN_TAG) || r@ == sealed(payload@, pos, BIG_ENDIAN_TAG),
{
    seal_with_tag(payload, pos, host_endian())
}

/// Reads the trailer of `bytes` on a host whose tag is `host`: the length of
/// the payload before it and the root position it holds.
pub fn open_with_tag(bytes: &[u8], host: u8) -> (r: Result<(usize, u64), EnvelopeError>)
    ensures
        r == opened(bytes@, host),
{
    let n = bytes.len();
    if n < TRAILER_LEN {
        return Err(EnvelopeError::InvalidSerializedData);
    }
    let endian = bytes[n - 1];
    if endian != host {
        return Err(EnvelopeError::IncompatibleEndian { received: endian, expected: host });
    }
    let base = n - 9;
    let pos: u64 = (bytes[base] as u64) | ((bytes[base + 1] as u64) << 8) | ((bytes[base
        + 2] as u64) << 16) | ((bytes[base + 3] as u64) << 24) | ((bytes[base + 4] as u64) << 32)
        | ((bytes[base + 5] as u64) << 40) | ((bytes[base + 6] as u64) << 48) | ((bytes[base
        + 7] as u64) << 56);
    Ok((base, pos))
}

/// Reads the trailer of `bytes` on this host.
pub fn open(bytes: &[u8]) -> (r: Result<(usize, u64), EnvelopeError>)
    ensures
        r == opened(bytes@, LITTLE_ENDIAN_TAG) || r == opened(bytes@, BIG_ENDIAN_TAG),
        bytes@.len() < 9 ==> r == Err::<(usize, u64), EnvelopeError>(
            EnvelopeError::InvalidSerializedData,
        ),
        r is Ok ==> bytes@.len() >= 9,
{
    open_with_tag(bytes, host_endian())
}

/// Reading back what was sealed on a host of the same byte order gives the
/// payload's length and the root position that were sealed.
pub proof fn lemma_seal_open_round_trip(payload: Seq<u8>, pos: u64, tag: u8)
    requires
        payload.len() + 9 <= usize::MAX,
    ensures
        opened(sealed(payload, pos, tag), tag) == Ok::<(usize, u64), EnvelopeError>(
            (payload.len() as usize, pos),
        ),
        sealed(payload, pos, tag).subrange(0, payload.len() as int) == payload,
{
    let s = sealed(payload, pos, tag);
    assert(s.subrange(s.len() - 9, s.len() - 1) =~= le_bytes(pos));
    assert(s.subrange(0, payload.len() as int) =~= payload);
    lemma_le_round_trip(pos);
}

/// Bytes too short for the trailer are refused as incompatible.
pub proof fn lemma_short_refused(bytes: Seq<u8>, host: u8)
    requires
        bytes.len() < 9,
    ensures
        opened(bytes, host) == Err::<(usize, u64), EnvelopeError>(
            EnvelopeError::InvalidSerializedData,
        ),
{
}

/// Bytes whose last byte is not the host's tag are refused as incompatible.
pub proof fn lemma_foreign_endian_refused(bytes: Seq<u8>, host: u8)
    requires
        bytes.len() > 0,
        bytes.last() != host,
    ensures
        opened(bytes, host) is Err,
        bytes.len() >= 9 ==> opened(bytes, host) == Err::<(usize, u64), EnvelopeError>(
            EnvelopeError::IncompatibleEndian { received: bytes.last(), expected: host },
        ),
{
}

} // verus!
