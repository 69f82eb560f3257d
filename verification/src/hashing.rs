//! Hashing primitives shared by the whole chain.
//!
//! Every identifier in the system (transaction ids, block hashes, merkle
//! roots) is the SHA-256 digest of a canonical byte encoding. The digest
//! itself is computed by an outside crate and named here; everything
//! around it is verified.

use vstd::prelude::*;
use vstd::string::StringExecFns;

verus! {

/// Hash type used throughout the blockchain: a 32-byte SHA-256 digest.
pub type Hash = Vec<u8>;

/// The number of bytes in a digest.
pub const HASH_LEN: usize = 32;

/// A well-formed hash holds exactly [`HASH_LEN`] bytes.
pub open spec fn is_hash(h: Seq<u8>) -> bool {
    h.len() == HASH_LEN
}

/// The SHA-256 digest of a byte sequence. The digest is a pure function
/// of the input bytes alone; its value is left unspecified.
pub uninterp spec fn sha256_of(data: Seq<u8>) -> Seq<u8>;

/// Relies on sha2::Sha256: a SHA-256 digest is 32 bytes and depends only
/// on the input bytes.
#[verifier::external_body]
pub fn sha256(data: &[u8]) -> (r: Hash)
    ensures
        r@ == sha256_of(data@),
        r@.len() == HASH_LEN,
{
    let mut hasher = <sha2::Sha256 as sha2::Digest>::new();
    sha2::Digest::update(&mut hasher, data);
    let digest = sha2::Digest::finalize(hasher);
    digest.to_vec()
}

/// The lowercase hexadecimal digit for a value below sixteen.
pub open spec fn hex_digit(n: u8) -> char
    recommends
        n < 16,
{
    if n == 0 { '0' } else if n == 1 { '1' } else if n == 2 { '2' } else if n == 3 { '3' }
    else if n == 4 { '4' } else if n == 5 { '5' } else if n == 6 { '6' } else if n == 7 { '7' }
    else if n == 8 { '8' } else if n == 9 { '9' } else if n == 10 { 'a' } else if n == 11 { 'b' }
    else if n == 12 { 'c' } else if n == 13 { 'd' } else if n == 14 { 'e' } else { 'f' }
}

/// The lowercase hexadecimal rendering of a byte sequence: two digits per
/// byte, most significant nibble first.
pub open spec fn hex_of(data: Seq<u8>) -> Seq<char>
    decreases data.len(),
{
    if data.len() == 0 {
        Seq::empty()
    } else {
        seq![hex_digit(data.first() / 16), hex_digit(data.first() % 16)] + hex_of(
            data.drop_first(),
        )
    }
}

/// Relies on hex::encode: lowercase hexadecimal, two digits per byte,
/// most significant nibble first.
#[verifier::external_body]
fn hex_encode(data: &[u8]) -> (r: String)
    ensures
        r@ == hex_of(data@),
{
    hex::encode(data)
}

/// Converts a hash to a lowercase hex string for display.
pub fn hash_to_hex(hash: &Hash) -> (r: String)
    ensures
        r@ == hex_of(hash@),
{
    hex_encode(hash.as_slice())
}

/// The hexadecimal rendering of an integer, without leading zeros.
pub open spec fn hex_u64(v: u64) -> Seq<char>
    decreases v,
{
    if v < 16 {
        seq![hex_digit(v as u8)]
    } else {
        hex_u64(v / 16) + seq![hex_digit((v % 16) as u8)]
    }
}

/// The one-character string of a hexadecimal digit.
fn hex_digit_str(n: u8) -> (r: &'static str)
    requires
        n < 16,
    ensures
        r@ == seq![hex_digit(n)],
{
    let r: &'static str = if n == 0 { "0" } else if n == 1 { "1" } else if n == 2 { "2" }
    else if n == 3 { "3" } else if n == 4 { "4" } else if n == 5 { "5" } else if n == 6 { "6" }
    else if n == 7 { "7" } else if n == 8 { "8" } else if n == 9 { "9" } else if n == 10 { "a" }
    else if n == 11 { "b" } else if n == 12 { "c" } else if n == 13 { "d" } else if n == 14 {
        "e"
    } else {
        "f"
    };
    proof {
        reveal_strlit("0");
        reveal_strlit("1");
        reveal_strlit("2");
        reveal_strlit("3");
        reveal_strlit("4");
        reveal_strlit("5");
        reveal_strlit("6");
        reveal_strlit("7");
        reveal_strlit("8");
        reveal_strlit("9");
        reveal_strlit("a");
        reveal_strlit("b");
        reveal_strlit("c");
        reveal_strlit("d");
        reveal_strlit("e");
        reveal_strlit("f");
        assert(r@ =~= seq![hex_digit(n)]);
    }
    r
}

/// Renders an integer in lowercase hexadecimal without leading zeros.
pub fn u64_to_hex(v: u64) -> (r: String)
    ensures
        r@ == hex_u64(v),
    decreases v,
{
    if v < 16 {
        let mut s = String::new();
        s.append(hex_digit_str((v % 16) as u8));
        proof {
            assert(s@ =~= hex_u64(v));
        }
        s
    } else {
        let mut s = u64_to_hex(v / 16);
        s.append(hex_digit_str((v % 16) as u8));
        proof {
            assert(s@ =~= hex_u64(v));
        }
        s
    }
}

/// Compares two byte slices for equality of their contents.
pub fn bytes_eq(a: &[u8], b: &[u8]) -> (r: bool)
    ensures
        r == (a@ == b@),
{
    if a.len() != b.len() {
        return false;
    }
    let n = a.len();
    for i in 0..n
        invariant
            n == a@.len(),
            n == b@.len(),
            forall|j: int| 0 <= j < i ==> a@[j] == b@[j],
    {
        if a[i] != b[i] {
            return false;
        }
    }
    proof {
        assert(a@ =~= b@);
    }
    true
}

} // verus!
