//! Commitment codec: how a hidden bet is bound to a 32-byte digest.
//!
//! A commitment is the SHA-256 digest of one tag byte for the direction,
//! the UTF-8 bytes of the participant's secret nonce, and the eight
//! little-endian bytes of the commit timestamp. The byte layout is stated
//! and proved here; the digest itself is computed by the Solana SDK's hash
//! function, whose result is only named.

use vstd::prelude::*;
use vstd::utf8::{decode_utf8, encode_utf8, encode_utf8_decode_utf8};

verus! {

/// The side of the proposition that a participant backs.
#[derive(Clone, Copy, Debug, PartialEq, Eq, Structural)]
pub enum Direction {
    /// The price will be above the threshold.
    Long,
    /// The price will be below the threshold.
    Short,
}

/// Two to the power of sixty-four.
pub open spec fn two_pow_64() -> int {
    0x1_0000_0000_0000_0000
}

/// The one-byte tag that stands for a direction inside a commitment.
pub open spec fn direction_tag(direction: Direction) -> u8 {
    match direction {
        Direction::Long => 1u8,
        Direction::Short => 2u8,
    }
}

/// The unsigned 64-bit number with the same two's-complement bits as `timestamp`.
pub open spec fn timestamp_bits(timestamp: i64) -> int {
    if timestamp >= 0 {
        timestamp as int
    } else {
        timestamp + two_pow_64()
    }
}

/// The eight bytes of a timestamp in little-endian two's-complement order.
pub open spec fn timestamp_le_bytes(timestamp: i64) -> Seq<u8> {
    let u = timestamp_bits(timestamp);
    seq![
        (u % 256) as u8,
        (u / 0x100 % 256) as u8,
        (u / 0x1_0000 % 256) as u8,
        (u / 0x100_0000 % 256) as u8,
        (u / 0x1_0000_0000 % 256) as u8,
        (u / 0x100_0000_0000 % 256) as u8,
        (u / 0x1_0000_0000_0000 % 256) as u8,
        (u / 0x100_0000_0000_0000 % 256) as u8,
    ]
}

/// The exact byte sequence that a commitment is hashed over: the direction
/// tag, then the nonce as UTF-8, then the commit timestamp.
pub open spec fn commitment_preimage(direction: Direction, nonce: Seq<char>, timestamp: i64) -> Seq<
    u8,
> {
    seq![direction_tag(direction)] + encode_utf8(nonce) + timestamp_le_bytes(timestamp)
}

/// The SHA-256 digest of a byte sequence, as the Solana SDK computes it.
pub uninterp spec fn sha256(data: Seq<u8>) -> Seq<u8>;

/// The commitment digest of a direction, a nonce and a commit timestamp.
pub open spec fn commitment_digest(direction: Direction, nonce: Seq<char>, timestamp: i64) -> Seq<
    u8,
> {
    sha256(commitment_preimage(direction, nonce, timestamp))
}

/// Whether `digest` is the commitment of exactly this direction, nonce and
/// commit timestamp.
pub open spec fn commitment_matches(
    digest: Seq<u8>,
    direction: Direction,
    nonce: Seq<char>,
    timestamp: i64,
) -> bool {
    digest == commitment_digest(direction, nonce, timestamp)
}

/// Calls `anchor_lang::solana_program::hash::hash` on `data` and hands back
/// the 32 bytes of the `Hash` it returns. Trusted: the result is the SDK's
/// SHA-256 of `data`, a function of the bytes alone, which is given the name
/// [`sha256`]; nothing else is claimed of it.
#[verifier::external_body]
fn sha256_digest(data: &[u8]) -> (out: [u8; 32])
    ensures
        out@ == sha256(data@),
{
    anchor_lang::solana_program::hash::hash(data).to_bytes()
}

/// Computes the tag byte of a direction.
pub fn tag_of(direction: Direction) -> (tag: u8)
    ensures
        tag == direction_tag(direction),
{
    match direction {
        Direction::Long => 1u8,
        Direction::Short => 2u8,
    }
}

/// Computes the little-endian bytes of a timestamp.
pub fn timestamp_bytes(timestamp: i64) -> (out: [u8; 8])
    ensures
        out@ == timestamp_le_bytes(timestamp),
{
    let u: u64 = if timestamp >= 0 {
        timestamp as u64
    } else {
        ((timestamp + i64::MAX) + 1) as u64 + 0x8000_0000_0000_0000u64
    };
    assert(u == timestamp_bits(timestamp));
    let out: [u8; 8] = [
        (u % 256) as u8,
        (u / 0x100 % 256) as u8,
        (u / 0x1_0000 % 256) as u8,
        (u / 0x100_0000 % 256) as u8,
        (u / 0x1_0000_0000 % 256) as u8,
        (u / 0x100_0000_0000 % 256) as u8,
        (u / 0x1_0000_0000_0000 % 256) as u8,
        (u / 0x100_0000_0000_0000 % 256) as u8,
    ];
    assert(out@ =~= timestamp_le_bytes(timestamp));
    out
}

/// Builds the byte sequence that the commitment of these values is hashed over.
pub fn encode_commitment(direction: Direction, nonce: &str, timestamp: i64) -> (data: Vec<u8>)
    ensures
        data@ == commitment_preimage(direction, nonce@, timestamp),
{
    let mut data: Vec<u8> = Vec::new();
    data.push(tag_of(direction));
    let nonce_bytes = nonce.as_bytes();
    let mut i: usize = 0;
    while i < nonce_bytes.len()
        invariant
            i <= nonce_bytes@.len(),
            nonce_bytes@ == encode_utf8(nonce@),
            data@ == seq![direction_tag(direction)] + nonce_bytes@.subrange(0, i as int),
        decreases nonce_bytes@.len() - i,
    {
        data.push(nonce_bytes[i]);
        i += 1;
        assert(data@ =~= seq![direction_tag(direction)] + nonce_bytes@.subrange(0, i as int));
    }
    assert(nonce_bytes@.subrange(0, i as int) =~= nonce_bytes@);
    let stamp = timestamp_bytes(timestamp);
    let mut j: usize = 0;
    while j < 8
        invariant
            j <= 8,
            stamp@ == timestamp_le_bytes(timestamp),
            data@ == seq![direction_tag(direction)] + encode_utf8(nonce@) + stamp@.subrange(
                0,
                j as int,
            ),
        decreases 8 - j,
    {
        data.push(stamp[j]);
        j += 1;
        assert(data@ =~= seq![direction_tag(direction)] + encode_utf8(nonce@) + stamp@.subrange(
            0,
            j as int,
        ));
    }
    assert(stamp@.subrange(0, 8) =~= stamp@);
    data
}

/// Computes the commitment digest of a direction, a nonce and a commit
/// timestamp. The result depends on the three values alone, so computing it
/// again always gives the same digest.
pub fn hash_commitment(direction: &Direction, nonce: &str, timestamp: i64) -> (digest: [u8; 32])
    ensures
        digest@ == commitment_digest(*direction, nonce@, timestamp),
{
    let data = encode_commitment(*direction, nonce, timestamp);
    sha256_digest(data.as_slice())
}

/// Compares two digests byte by byte.
pub fn digests_equal(a: &[u8; 32], b: &[u8; 32]) -> (same: bool)
    ensures
        same == (a@ == b@),
        same == (*a == *b),
{
    let mut i: usize = 0;
    while i < 32
        invariant
            i <= 32,
            forall|k: int| 0 <= k < i ==> a@[k] == b@[k],
        decreases 32 - i,
    {
        if a[i] != b[i] {
            assert(a@[i as int] != b@[i as int]);
            return false;
        }
        i += 1;
    }
    assert(a@ =~= b@);
    assert(*a =~= *b);
    true
}

/// Recomputes the commitment of the given values and compares it with
/// `digest` for exact equality.
pub fn verify_commitment(digest: &[u8; 32], direction: &Direction, nonce: &str, timestamp: i64) -> (ok:
    bool)
    ensures
        ok == commitment_matches(digest@, *direction, nonce@, timestamp),
{
    let computed = hash_commitment(direction, nonce, timestamp);
    digests_equal(digest, &computed)
}

/// A commitment is a function of the direction, the nonce and the commit
/// time alone: the digest of given values always verifies against them, and
/// two digests of the same values are the same digest.
pub proof fn lemma_commitment_deterministic(
    first: Seq<u8>,
    second: Seq<u8>,
    direction: Direction,
    nonce: Seq<char>,
    timestamp: i64,
)
    requires
        first == commitment_digest(direction, nonce, timestamp),
        second == commitment_digest(direction, nonce, timestamp),
    ensures
        first == second,
        commitment_matches(first, direction, nonce, timestamp),
        commitment_matches(
            commitment_digest(direction, nonce, timestamp),
            direction,
            nonce,
            timestamp,
        ),
{
}

/// Two timestamps with the same eight bytes are the same timestamp.
pub proof fn lemma_timestamp_bytes_injective(a: i64, b: i64)
    requires
        timestamp_le_bytes(a) == timestamp_le_bytes(b),
    ensures
        a == b,
{
    let x = timestamp_bits(a);
    let y = timestamp_bits(b);
    let p = timestamp_le_bytes(a);
    let q = timestamp_le_bytes(b);
    assert(p[0] == q[0]);
    assert(p[1] == q[1]);
    assert(p[2] == q[2]);
    assert(p[3] == q[3]);
    assert(p[4] == q[4]);
    assert(p[5] == q[5]);
    assert(p[6] == q[6]);
    assert(p[7] == q[7]);
    lemma_bits_from_bytes(x);
    lemma_bits_from_bytes(y);
}

/// A number below two to the sixty-fourth is the sum of its eight base-256
/// digits, each times its place value.
proof fn lemma_bits_from_bytes(u: int)
    requires
        0 <= u < two_pow_64(),
    ensures
        u == (u % 256) + 0x100 * (u / 0x100 % 256) + 0x1_0000 * (u / 0x1_0000 % 256) + 0x100_0000
            * (u / 0x100_0000 % 256) + 0x1_0000_0000 * (u / 0x1_0000_0000 % 256)
            + 0x100_0000_0000 * (u / 0x100_0000_0000 % 256) + 0x1_0000_0000_0000 * (u
            / 0x1_0000_0000_0000 % 256) + 0x100_0000_0000_0000 * (u / 0x100_0000_0000_0000 % 256),
{
    let q1 = u / 0x100;
    let q2 = u / 0x1_0000;
    let q3 = u / 0x100_0000;
    let q4 = u / 0x1_0000_0000;
    let q5 = u / 0x100_0000_0000;
    let q6 = u / 0x1_0000_0000_0000;
    let q7 = u / 0x100_0000_0000_0000;
    assert(q1 / 256 == q2);
    assert(q2 / 256 == q3);
    assert(q3 / 256 == q4);
    assert(q4 / 256 == q5);
    assert(q5 / 256 == q6);
    assert(q6 / 256 == q7);
    assert(q7 / 256 == 0);
}

/// The bytes that a commitment is hashed over determine the direction, the
/// nonce and the commit time: changing any of the three changes the bytes.
pub proof fn lemma_preimage_injective(
    direction1: Direction,
    nonce1: Seq<char>,
    timestamp1: i64,
    direction2: Direction,
    nonce2: Seq<char>,
    timestamp2: i64,
)
    requires
        commitment_preimage(direction1, nonce1, timestamp1) == commitment_preimage(
            direction2,
            nonce2,
            timestamp2,
        ),
    ensures
        direction1 == direction2,
        nonce1 == nonce2,
        timestamp1 == timestamp2,
{
    let bytes1 = commitment_preimage(direction1, nonce1, timestamp1);
    let bytes2 = commitment_preimage(direction2, nonce2, timestamp2);
    let e1 = encode_utf8(nonce1);
    let e2 = encode_utf8(nonce2);
    let s1 = timestamp_le_bytes(timestamp1);
    let s2 = timestamp_le_bytes(timestamp2);
    assert(bytes1.len() == 1 + e1.len() + 8);
    assert(bytes2.len() == 1 + e2.len() + 8);
    assert(e1.len() == e2.len());
    assert(bytes1[0] == direction_tag(direction1));
    assert(bytes2[0] == direction_tag(direction2));
    let n = e1.len() as int;
    assert(e1 =~= bytes1.subrange(1, 1 + n));
    assert(e2 =~= bytes2.subrange(1, 1 + n));
    assert(s1 =~= bytes1.subrange(1 + n, 9 + n));
    assert(s2 =~= bytes2.subrange(1 + n, 9 + n));
    encode_utf8_decode_utf8(nonce1);
    encode_utf8_decode_utf8(nonce2);
    assert(decode_utf8(e1) == nonce1);
    assert(decode_utf8(e2) == nonce2);
    lemma_timestamp_bytes_injective(timestamp1, timestamp2);
}

} // verus!
