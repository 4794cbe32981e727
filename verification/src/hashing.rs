//! Content fingerprints: a cryptographic digest of a byte buffer, rendered as
//! a fixed lower-case hex string, identifies an asset by its bytes alone.

use sha2::Digest;
use vstd::prelude::*;

verus! {

/// What the SHA-256 digest of a byte sequence is. The digest is a function of
/// the bytes alone, so two identical buffers always share a fingerprint.
pub uninterp spec fn sha256_of(data: Seq<u8>) -> Seq<u8>;

/// Relies on `sha2::Sha256` via `Digest::digest`: the 32-byte SHA-256 digest
/// of the input, a function of the input bytes alone.
#[verifier::external_body]
pub fn sha256_digest(data: &[u8]) -> (r: Vec<u8>)
    ensures
        r@ == sha256_of(data@),
        r@.len() == 32,
{
    sha2::Sha256::digest(data).to_vec()
}

/// The character for a half-byte, in lower case.
pub open spec fn hex_char(d: nat) -> char {
    if d == 0 {
        '0'
    } else if d == 1 {
        '1'
    } else if d == 2 {
        '2'
    } else if d == 3 {
        '3'
    } else if d == 4 {
        '4'
    } else if d == 5 {
        '5'
    } else if d == 6 {
        '6'
    } else if d == 7 {
        '7'
    } else if d == 8 {
        '8'
    } else if d == 9 {
        '9'
    } else if d == 10 {
        'a'
    } else if d == 11 {
        'b'
    } else if d == 12 {
        'c'
    } else if d == 13 {
        'd'
    } else if d == 14 {
        'e'
    } else {
        'f'
    }
}

/// The lower-case hex rendering of a byte sequence, two characters per byte.
pub open spec fn hex_of(data: Seq<u8>) -> Seq<char>
    decreases data.len(),
{
    if data.len() == 0 {
        Seq::empty()
    } else {
        seq![
            hex_char((data.first() / 16) as nat),
            hex_char((data.first() % 16) as nat),
        ] + hex_of(data.drop_first())
    }
}

fn nibble_to_char(d: u8) -> (c: char)
    requires
        d < 16,
    ensures
        c == hex_char(d as nat),
{
    if d == 0 {
        '0'
    } else if d == 1 {
        '1'
    } else if d == 2 {
        '2'
    } else if d == 3 {
        '3'
    } else if d == 4 {
        '4'
    } else if d == 5 {
        '5'
    } else if d == 6 {
        '6'
    } else if d == 7 {
        '7'
    } else if d == 8 {
        '8'
    } else if d == 9 {
        '9'
    } else if d == 10 {
        'a'
    } else if d == 11 {
        'b'
    } else if d == 12 {
        'c'
    } else if d == 13 {
        'd'
    } else if d == 14 {
        'e'
    } else {
        'f'
    }
}

/// Renders bytes as lower-case hex, two characters per byte.
pub fn to_hex(data: &Vec<u8>) -> (s: String)
    ensures
        s@ == hex_of(data@),
        s@.len() == 2 * data@.len(),
{
    let n = data.len();
    let mut s = String::new();
    let mut i: usize = 0;
    proof {
        assert(data@.skip(0) =~= data@);
        lemma_hex_of_len(data@);
    }
    while i < n
        invariant
            i <= n,
            n == data@.len(),
            hex_of(data@) == s@ + hex_of(data@.skip(i as int)),
            s@.len() == 2 * i,
        decreases n - i,
    {
        let b = data[i];
        let hi = nibble_to_char(b / 16);
        let lo = nibble_to_char(b % 16);
        push_char_pair(&mut s, hi, lo);
        proof {
            assert(data@.skip(i as int).drop_first() =~= data@.skip(i + 1));
            assert(s@ + hex_of(data@.skip(i + 1)) =~= hex_of(data@));
        }
        i += 1;
    }
    proof {
        assert(hex_of(data@.skip(n as int)) =~= Seq::<char>::empty());
        assert(s@ =~= hex_of(data@));
    }
    s
}

fn push_char_pair(s: &mut String, hi: char, lo: char)
    ensures
        final(s)@ == old(s)@.push(hi).push(lo),
{
    crate::text::push_char(s, hi);
    crate::text::push_char(s, lo);
}

proof fn lemma_hex_of_len(data: Seq<u8>)
    ensures
        hex_of(data).len() == 2 * data.len(),
    decreases data.len(),
{
    if data.len() > 0 {
        lemma_hex_of_len(data.drop_first());
    }
}

/// The content fingerprint of a byte buffer: the SHA-256 digest in lower-case
/// hex, 64 characters.
pub fn content_hash(data: &Vec<u8>) -> (h: String)
    ensures
        h@ == hex_of(sha256_of(data@)),
        h@.len() == 64,
{
    let digest = sha256_digest(data.as_slice());
    to_hex(&digest)
}

} // verus!
