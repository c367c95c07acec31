//! Fingerprints of clipboard content: SHA-256 digests in lower-case
//! hexadecimal for text, and a 64-bit hash for image pixels.
use vstd::prelude::*;
use vstd::utf8::*;

use crate::text::push_char;

use sha2::{Digest, Sha256};
use std::collections::hash_map::DefaultHasher;
use std::hash::Hasher;
use vstd::std_specs::hash::DefaultHasherAdditionalSpecFns;

verus! {

/// The SHA-256 digest of `data`.
pub uninterp spec fn sha256_digest(data: Seq<u8>) -> Seq<u8>;

/// `sha2::Sha256::digest`: the SHA-256 digest of `data`, 32 bytes long.
/// What the digest is, beyond its length, is left to the name `sha256_digest`.
#[verifier::external_body]
fn sha256(data: &[u8]) -> (r: Vec<u8>)
    ensures
        r@ == sha256_digest(data@),
        r@.len() == 32,
{
    Sha256::digest(data).to_vec()
}

/// The lower-case hexadecimal digit for `d` (below 16).
pub open spec fn hex_digit(d: int) -> char {
    if d < 10 {
        (d + 48) as char
    } else {
        (d + 87) as char
    }
}

/// The lower-case hexadecimal spelling of `bytes`, two digits per byte, most
/// significant digit first (what `format!("{:x}", digest)` prints).
pub open spec fn hex_lower(bytes: Seq<u8>) -> Seq<char>
    decreases bytes.len(),
{
    if bytes.len() == 0 {
        Seq::empty()
    } else {
        hex_lower(bytes.drop_last()) + seq![
            hex_digit(bytes.last() as int / 16),
            hex_digit(bytes.last() as int % 16),
        ]
    }
}

/// Two hexadecimal digits per byte.
pub proof fn lemma_hex_lower_len(bytes: Seq<u8>)
    ensures
        hex_lower(bytes).len() == 2 * bytes.len(),
    decreases bytes.len(),
{
    if bytes.len() > 0 {
        lemma_hex_lower_len(bytes.drop_last());
    }
}

fn hex_char(d: u8) -> (c: char)
    requires
        d < 16,
    ensures
        c == hex_digit(d as int),
{
    if d < 10 {
        (d + 48) as char
    } else {
        (d + 87) as char
    }
}

/// The lower-case hexadecimal spelling of `bytes`.
pub fn to_hex_lower(bytes: &[u8]) -> (r: String)
    ensures
        r@ == hex_lower(bytes@),
{
    let mut r = String::new();
    let mut i: usize = 0;
    while i < bytes.len()
        invariant
            i <= bytes@.len(),
            r@ == hex_lower(bytes@.take(i as int)),
        decreases bytes@.len() - i,
    {
        let b = bytes[i];
        push_char(&mut r, hex_char(b / 16));
        push_char(&mut r, hex_char(b % 16));
        assert(bytes@.take(i + 1).drop_last() =~= bytes@.take(i as int));
        i = i + 1;
    }
    assert(bytes@.take(bytes@.len() as int) =~= bytes@);
    r
}

/// The fingerprint under which a text is remembered: the lower-case hexadecimal
/// SHA-256 digest of its UTF-8 bytes.
pub open spec fn text_fingerprint(t: Seq<char>) -> Seq<char> {
    hex_lower(sha256_digest(encode_utf8(t)))
}

/// The fingerprint of `text`.
pub fn fingerprint_text(text: &str) -> (r: String)
    ensures
        r@ == text_fingerprint(text@),
        r@.len() == 64,
{
    let digest = sha256(text.as_bytes());
    proof {
        lemma_hex_lower_len(digest@);
    }
    to_hex_lower(digest.as_slice())
}

/// The `width` bytes of `n`, least significant first.
pub open spec fn le_bytes(n: nat, width: nat) -> Seq<u8>
    decreases width,
{
    if width == 0 {
        Seq::empty()
    } else {
        seq![(n % 256) as u8] + le_bytes(n / 256, (width - 1) as nat)
    }
}

/// The number of bytes in a `usize`.
pub open spec fn usize_width() -> nat {
    (usize::BITS / 8) as nat
}

/// The hash under which image pixels are remembered: what `std`'s
/// `DefaultHasher` gives after the length of the bytes, as a `usize` in
/// little-endian order, and then the bytes themselves were written to it.
/// That is how `Hash for [u8]` feeds a hasher on little-endian machines.
pub open spec fn pixel_hash(bytes: Seq<u8>) -> u64 {
    DefaultHasher::spec_finish(seq![le_bytes(bytes.len(), usize_width()), bytes])
}

/// The bytes of `len` as a `usize`, least significant first.
fn length_prefix(len: usize) -> (r: Vec<u8>)
    ensures
        r@ == le_bytes(len as nat, usize_width()),
{
    let width: u32 = usize::BITS / 8;
    let mut rest: usize = len;
    let mut out: Vec<u8> = Vec::new();
    let mut k: u32 = 0;
    while k < width
        invariant
            k <= width,
            width == usize::BITS / 8,
            out@ + le_bytes(rest as nat, (width - k) as nat) == le_bytes(len as nat, width as nat),
        decreases width - k,
    {
        let ghost before = out@;
        let ghost m: nat = (width - k) as nat;
        out.push((rest % 256) as u8);
        proof {
            assert(le_bytes(rest as nat, m) == seq![(rest % 256) as u8] + le_bytes(
                (rest / 256) as nat,
                (m - 1) as nat,
            ));
            assert(out@ + le_bytes((rest / 256) as nat, (m - 1) as nat) =~= before + le_bytes(
                rest as nat,
                m,
            ));
        }
        rest = rest / 256;
        k = k + 1;
    }
    assert(out@ + le_bytes(rest as nat, 0) =~= out@);
    out
}

/// A 64-bit hash of `bytes` by `std`'s `DefaultHasher`: the length of the
/// slice goes in first, then its bytes, as `Hash for [u8]` writes them.
pub(crate) fn calculate_hash(bytes: &[u8]) -> (r: u64)
    ensures
        r == pixel_hash(bytes@),
{
    let prefix = length_prefix(bytes.len());
    let mut s = DefaultHasher::new();
    s.write(prefix.as_slice());
    s.write(bytes);
    assert(s@ =~= seq![prefix@, bytes@]);
    s.finish()
}

} // verus!
