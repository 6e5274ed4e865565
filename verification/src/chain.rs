//! The name of the packet-filter chain that belongs to one container on one
//! network.

use vstd::prelude::*;
use vstd::utf8::encode_utf8;
use sha2::Digest;
use crate::text::{hex_byte_text, hex_digit};

verus! {

/// What every chain name starts with.
pub const CHAIN_PREFIX: &'static str = "CNI-";

/// The longest name that the packet filter accepts for a chain.
pub const MAX_CHAIN_LENGTH: usize = 28;

/// The SHA-512 digest of a byte string.
pub uninterp spec fn sha512(data: Seq<u8>) -> Seq<u8>;

/// `sha2::Sha512`, fed `data` once and finalized: the SHA-512 digest of `data`.
#[verifier::external_body]
fn sha512_digest(data: &[u8]) -> (hash: Vec<u8>)
    ensures
        hash@ == sha512(data@),
{
    let mut sha = sha2::Sha512::default();
    sha.update(data);
    sha.finalize().to_vec()
}

/// Bytes in hexadecimal notation: two lower-case digits for each byte.
pub open spec fn hex_text(bytes: Seq<u8>) -> Seq<char>
    decreases bytes.len(),
{
    if bytes.len() == 0 {
        Seq::<char>::empty()
    } else {
        hex_text(bytes.drop_last()) + hex_byte_text(bytes.last())
    }
}

/// Hexadecimal notation takes two characters for each byte.
pub proof fn lemma_hex_text_len(bytes: Seq<u8>)
    ensures
        hex_text(bytes).len() == 2 * bytes.len(),
    decreases bytes.len(),
{
    if bytes.len() > 0 {
        lemma_hex_text_len(bytes.drop_last());
    }
}

/// Bytes in hexadecimal notation: two lower-case digits for each byte.
pub fn to_hex_string(bytes: &[u8]) -> (s: String)
    ensures
        s@ == hex_text(bytes@),
{
    let mut output = String::new();
    let mut i: usize = 0;
    assert(bytes@.take(0) =~= Seq::<u8>::empty());
    while i < bytes.len()
        invariant
            i <= bytes.len(),
            output@ == hex_text(bytes@.take(i as int)),
        decreases bytes.len() - i,
    {
        let b = bytes[i];
        proof {
            assert(bytes@.take(i + 1).drop_last() =~= bytes@.take(i as int));
            assert(bytes@.take(i + 1).last() == b);
        }
        output.append(hex_digit(b / 16));
        output.append(hex_digit(b % 16));
        assert(output@ =~= hex_text(bytes@.take(i as int)) + hex_byte_text(b));
        i = i + 1;
    }
    assert(bytes@.take(i as int) =~= bytes@);
    output
}

/// The first `n` characters of a text, or all of it where it has fewer.
pub open spec fn truncated(s: Seq<char>, n: int) -> Seq<char> {
    if s.len() <= n {
        s
    } else {
        s.take(n)
    }
}

/// The chain name of a container on a network: the prefix, then the digest
/// of network name and container ID in hexadecimal notation, cut to the
/// longest name that the packet filter accepts.
pub open spec fn chain_name(name: Seq<char>, id: Seq<char>) -> Seq<char> {
    truncated(
        CHAIN_PREFIX@ + hex_text(sha512(encode_utf8(name + id))),
        MAX_CHAIN_LENGTH as int,
    )
}

/// The name of the chain that belongs to the container `id` on the network
/// `name`. It depends on the two names alone, and the packet filter accepts
/// its length.
pub fn format_chain_name(name: &str, id: &str) -> (r: String)
    ensures
        r@ == chain_name(name@, id@),
        r@.len() <= MAX_CHAIN_LENGTH,
{
    let mut to_hash = String::from_str(name);
    to_hash.append(id);
    let hash = sha512_digest(to_hash.as_str().as_bytes());
    let mut result = String::from_str(CHAIN_PREFIX);
    result.append(to_hex_string(hash.as_slice()).as_str());
    let len = result.as_str().unicode_len();
    if len <= MAX_CHAIN_LENGTH {
        result
    } else {
        String::from_str(result.as_str().substring_char(0, MAX_CHAIN_LENGTH))
    }
}

} // verus!
