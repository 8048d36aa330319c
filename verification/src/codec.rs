//! Wire codec for the authorization payload.
//!
//! The payload is framed as `seed_len: u16 LE | seed bytes | nonce: u8 |
//! amount: u64 LE`. The seed travels as the UTF-8 bytes of the seed string;
//! decoding is all-or-nothing and rejects bytes that are not valid UTF-8 or
//! do not carry exactly the three fields.

use vstd::prelude::*;
use vstd::utf8::{decode_utf8, encode_utf8, valid_utf8};
use crate::error::AuthError;

verus! {

broadcast use {vstd::utf8::encode_utf8_valid_utf8, vstd::utf8::encode_utf8_decode_utf8};

/// The failure type of `String::from_utf8`, declared so that the call can
/// stand in verified code; its value is never inspected.
#[verifier::external_type_specification]
#[verifier::external_body]
pub struct ExFromUtf8Error(std::string::FromUtf8Error);

/// Relies on `String::from_utf8`: it succeeds exactly on valid UTF-8 input,
/// and the string it returns holds exactly the bytes it was given.
pub assume_specification[ String::from_utf8 ](v: Vec<u8>) -> (r: Result<
    String,
    std::string::FromUtf8Error,
>)
    ensures
        r is Ok <==> valid_utf8(v@),
        (r matches Ok(s) ==> encode_utf8(s@) == v@),
;

/// The mathematical content of one authorization payload: the seed as a
/// character sequence, the derivation nonce, and the amount in minor units.
pub struct PayloadModel {
    pub seed: Seq<char>,
    pub nonce: u8,
    pub amount: u64,
}

/// The authorization payload exchanged between the external driver and the
/// engine: seed string, derivation nonce ("bump seed") and amount (lamports).
#[derive(Debug, PartialEq, Eq)]
pub struct InstructionData {
    pub seed: String,
    pub bump_seed: u8,
    pub lamports: u64,
}

impl View for InstructionData {
    type V = PayloadModel;

    open spec fn view(&self) -> PayloadModel {
        PayloadModel { seed: self.seed@, nonce: self.bump_seed, amount: self.lamports }
    }
}

/// The 16-bit value stored little-endian as `lo`, `hi`.
pub open spec fn u16_of_le(lo: u8, hi: u8) -> u16 {
    (lo as u16) | ((hi as u16) << 8)
}

/// The 64-bit value stored little-endian in the 8-byte sequence `b`.
pub open spec fn u64_of_le(b: Seq<u8>) -> u64
    recommends
        b.len() == 8,
{
    (b[0] as u64) | ((b[1] as u64) << 8) | ((b[2] as u64) << 16) | ((b[3] as u64) << 24)
        | ((b[4] as u64) << 32) | ((b[5] as u64) << 40) | ((b[6] as u64) << 48)
        | ((b[7] as u64) << 56)
}

/// The little-endian bytes of a 64-bit value.
pub open spec fn u64_le_bytes(a: u64) -> Seq<u8> {
    seq![
        a as u8,
        (a >> 8) as u8,
        (a >> 16) as u8,
        (a >> 24) as u8,
        (a >> 32) as u8,
        (a >> 40) as u8,
        (a >> 48) as u8,
        (a >> 56) as u8,
    ]
}

/// The encoding of a payload: length-prefixed seed bytes, nonce, amount.
pub open spec fn encode_spec(seed: Seq<char>, nonce: u8, amount: u64) -> Seq<u8> {
    let sb = encode_utf8(seed);
    seq![(sb.len() as u16) as u8, ((sb.len() as u16) >> 8) as u8] + sb + seq![nonce]
        + u64_le_bytes(amount)
}

/// The payload that a byte sequence decodes to, or `None` where the bytes do
/// not frame exactly one payload with a non-empty, valid UTF-8 seed.
pub open spec fn decode_spec(b: Seq<u8>) -> Option<PayloadModel> {
    if b.len() >= 12 && u16_of_le(b[0], b[1]) as int == b.len() - 11 && valid_utf8(
        b.subrange(2, b.len() - 9),
    ) {
        Some(
            PayloadModel {
                seed: decode_utf8(b.subrange(2, b.len() - 9)),
                nonce: b[b.len() - 9],
                amount: u64_of_le(b.subrange(b.len() - 8, b.len() as int)),
            },
        )
    } else {
        None
    }
}

proof fn lemma_u16_le_roundtrip(n: u16)
    ensures
        u16_of_le(n as u8, (n >> 8) as u8) == n,
{
    assert(((n as u8) as u16) | ((((n >> 8) as u8) as u16) << 8) == n) by (bit_vector);
}

proof fn lemma_u64_le_roundtrip(a: u64)
    ensures
        u64_of_le(u64_le_bytes(a)) == a,
{
    assert(((a as u8) as u64) | ((((a >> 8) as u8) as u64) << 8) | ((((a >> 16) as u8) as u64)
        << 16) | ((((a >> 24) as u8) as u64) << 24) | ((((a >> 32) as u8) as u64) << 32) | ((((a
        >> 40) as u8) as u64) << 40) | ((((a >> 48) as u8) as u64) << 48) | ((((a >> 56) as u8)
        as u64) << 56) == a) by (bit_vector);
}

/// A non-empty character sequence encodes to at least one byte.
proof fn lemma_encode_utf8_nonempty(seed: Seq<char>)
    requires
        seed.len() >= 1,
    ensures
        encode_utf8(seed).len() >= 1,
{
    vstd::utf8::encode_utf8_first_scalar(seed);
}

/// Round-trip law: every payload with a non-empty seed that fits the length
/// prefix decodes, from its own encoding, back to itself.
pub proof fn lemma_round_trip(seed: Seq<char>, nonce: u8, amount: u64)
    requires
        seed.len() >= 1,
        encode_utf8(seed).len() <= 0xFFFF,
    ensures
        decode_spec(encode_spec(seed, nonce, amount)) == Some(
            (PayloadModel { seed, nonce, amount }),
        ),
{
    let sb = encode_utf8(seed);
    let b = encode_spec(seed, nonce, amount);
    lemma_encode_utf8_nonempty(seed);
    assert(b.len() == 11 + sb.len());
    lemma_u16_le_roundtrip(sb.len() as u16);
    assert(u16_of_le(b[0], b[1]) as int == b.len() - 11);
    assert(b.subrange(2, b.len() - 9) =~= sb);
    assert(decode_utf8(sb) == seed);
    assert(b[b.len() - 9] == nonce);
    assert(b.subrange(b.len() - 8, b.len() as int) =~= u64_le_bytes(amount));
    lemma_u64_le_roundtrip(amount);
}

impl InstructionData {
    /// Build a payload from its three fields.
    pub fn new(seed: &str, bump_seed: u8, lamports: u64) -> (r: Self)
        ensures
            r@ == (PayloadModel { seed: seed@, nonce: bump_seed, amount: lamports }),
    {
        Self { seed: seed.to_owned(), bump_seed, lamports }
    }

    /// Encode the payload for transport as instruction data. The seed must be
    /// non-empty and its UTF-8 bytes must fit the 16-bit length prefix.
    pub fn as_bytes(&self) -> (r: Vec<u8>)
        requires
            self.seed@.len() >= 1,
            encode_utf8(self.seed@).len() <= 0xFFFF,
        ensures
            r@ == encode_spec(self.seed@, self.bump_seed, self.lamports),
    {
        let sb: &[u8] = self.seed.as_str().as_bytes();
        let slen: u16 = sb.len() as u16;
        let mut out: Vec<u8> = Vec::new();
        out.push(slen as u8);
        out.push((slen >> 8) as u8);
        let mut i: usize = 0;
        while i < sb.len()
            invariant
                i <= sb@.len(),
                sb@ == encode_utf8(self.seed@),
                sb@.len() <= 0xFFFF,
                out@ =~= seq![
                    ((sb@.len() as u16) as u8),
                    (((sb@.len() as u16) >> 8) as u8),
                ] + sb@.subrange(0, i as int),
            decreases sb@.len() - i,
        {
            out.push(sb[i]);
            i += 1;
        }
        out.push(self.bump_seed);
        let a = self.lamports;
        out.push(a as u8);
        out.push((a >> 8) as u8);
        out.push((a >> 16) as u8);
        out.push((a >> 24) as u8);
        out.push((a >> 32) as u8);
        out.push((a >> 40) as u8);
        out.push((a >> 48) as u8);
        out.push((a >> 56) as u8);
        proof {
            assert(out@ =~= encode_spec(self.seed@, self.bump_seed, self.lamports));
        }
        out
    }

    /// Decode instruction bytes back into a payload. Inverse of `as_bytes`:
    /// returns the malformed-payload failure exactly on the byte sequences
    /// that decode to nothing, and the decoded payload on all others.
    pub fn from_bytes(bytes: &[u8]) -> (r: Result<Self, AuthError>)
        ensures
            (r matches Ok(d) ==> decode_spec(bytes@) == Some(d@)),
            r is Err ==> decode_spec(bytes@) is None && r == Err::<Self, AuthError>(
                AuthError::MalformedPayload,
            ),
            decode_spec(bytes@) is Some ==> r is Ok,
    {
        if bytes.len() < 12 {
            return Err(AuthError::MalformedPayload);
        }
        let slen16: u16 = (bytes[0] as u16) | ((bytes[1] as u16) << 8);
        let slen: usize = slen16 as usize;
        if slen != bytes.len() - 11 {
            return Err(AuthError::MalformedPayload);
        }
        let mut seed_bytes: Vec<u8> = Vec::new();
        let mut i: usize = 0;
        while i < slen
            invariant
                i <= slen,
                slen + 11 == bytes@.len(),
                slen + 11 <= usize::MAX,
                seed_bytes@ =~= bytes@.subrange(2, 2 + i as int),
            decreases slen - i,
        {
            seed_bytes.push(bytes[2 + i]);
            i += 1;
        }
        proof {
            assert(seed_bytes@ =~= bytes@.subrange(2, bytes@.len() - 9));
        }
        let seed = match String::from_utf8(seed_bytes) {
            Ok(s) => s,
            Err(_) => {
                return Err(AuthError::MalformedPayload);
            },
        };
        let nonce = bytes[2 + slen];
        let base = bytes.len() - 8;
        let lamports: u64 = (bytes[base] as u64) | ((bytes[base + 1] as u64) << 8) | ((bytes[base
            + 2] as u64) << 16) | ((bytes[base + 3] as u64) << 24) | ((bytes[base + 4] as u64)
            << 32) | ((bytes[base + 5] as u64) << 40) | ((bytes[base + 6] as u64) << 48) | ((
        bytes[base + 7] as u64) << 56);
        proof {
            assert(u64_of_le(bytes@.subrange(bytes@.len() - 8, bytes@.len() as int)) == lamports);
        }
        Ok(Self { seed, bump_seed: nonce, lamports })
    }
}

} // verus!
