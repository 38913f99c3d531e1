//! Identity hashing: a canonical source path is mapped to a fixed-length,
//! filesystem-safe identifier by hashing its bytes and hex-encoding the
//! digest.

use vstd::prelude::*;

verus! {

/// The SHA-256 digest of a byte sequence. The digest is a pure function of
/// the input bytes; its definition is the hash function's own.
pub uninterp spec fn sha256_of(bytes: Seq<u8>) -> Seq<u8>;

/// The lowercase hexadecimal digit for a value below sixteen.
pub open spec fn hex_digit(d: int) -> char {
    if d == 0 {
        '0'
    } else if d == 1 {
        '1'
    } else if d == 2 {
        '2'
    } else if d == 3 {
        '3'
    } else if d == 4 {
        '4'
    } else if d == 5 {
        '5'
    } else if d == 6 {
        '6'
    } else if d == 7 {
        '7'
    } else if d == 8 {
        '8'
    } else if d == 9 {
        '9'
    } else if d == 10 {
        'a'
    } else if d == 11 {
        'b'
    } else if d == 12 {
        'c'
    } else if d == 13 {
        'd'
    } else if d == 14 {
        'e'
    } else {
        'f'
    }
}

/// Lowercase hexadecimal encoding: two digits per byte, high digit first,
/// bytes in order.
pub open spec fn hex_of(bytes: Seq<u8>) -> Seq<char>
    decreases bytes.len(),
{
    if bytes.len() == 0 {
        Seq::<char>::empty()
    } else {
        hex_of(bytes.drop_last()) + seq![
            hex_digit(bytes.last() as int / 16),
            hex_digit(bytes.last() as int % 16),
        ]
    }
}

/// The identifier derived from a byte sequence: the hex encoding of its
/// SHA-256 digest.
pub open spec fn identity_of(bytes: Seq<u8>) -> Seq<char> {
    hex_of(sha256_of(bytes))
}

/// Relies on sha2::Sha256 (through sha2::Digest::digest): the digest is a
/// pure function of the input bytes and is 32 bytes long.
#[verifier::external_body]
fn sha256_bytes(bytes: &[u8]) -> (r: Vec<u8>)
    ensures
        r@ == sha256_of(bytes@),
        r@.len() == 32,
{
    <sha2::Sha256 as sha2::Digest>::digest(bytes).to_vec()
}

/// Relies on hex::encode: lowercase hexadecimal, two digits per byte, bytes
/// in order.
#[verifier::external_body]
fn hex_encode(bytes: &[u8]) -> (r: String)
    ensures
        r@ == hex_of(bytes@),
{
    hex::encode(bytes)
}

/// The hex encoding is twice as long as its input.
pub proof fn lemma_hex_of_len(bytes: Seq<u8>)
    ensures
        hex_of(bytes).len() == 2 * bytes.len(),
    decreases bytes.len(),
{
    if bytes.len() > 0 {
        lemma_hex_of_len(bytes.drop_last());
    }
}

/// Hash a byte sequence into a stable, fixed-length, filesystem-safe
/// identifier.
pub fn hash_bytes(bytes: &[u8]) -> (r: String)
    ensures
        r@ == identity_of(bytes@),
        r@.len() == 64,
{
    let digest = sha256_bytes(bytes);
    proof {
        lemma_hex_of_len(digest@);
    }
    hex_encode(digest.as_slice())
}

/// The identity of a byte sequence is stable: any two computations over the
/// same bytes yield the same identifier.
pub proof fn lemma_identity_stable(a: Seq<u8>, b: Seq<u8>)
    requires
        a == b,
    ensures
        identity_of(a) == identity_of(b),
{
}

/// Hex encoding is injective: equal encodings come from equal byte
/// sequences, so the encoding step never merges two distinct digests.
pub proof fn lemma_hex_of_injective(a: Seq<u8>, b: Seq<u8>)
    requires
        hex_of(a) == hex_of(b),
    ensures
        a == b,
    decreases a.len(),
{
    lemma_hex_of_len(a);
    lemma_hex_of_len(b);
    if a.len() == 0 {
        assert(a =~= b);
    } else {
        let ha = hex_of(a.drop_last());
        let hb = hex_of(b.drop_last());
        lemma_hex_of_len(a.drop_last());
        lemma_hex_of_len(b.drop_last());
        assert(hex_of(a).len() == hex_of(b).len());
        assert(ha.len() == hb.len());
        assert(ha =~= hb) by {
            assert forall|i: int| 0 <= i < ha.len() implies ha[i] == hb[i] by {
                assert(hex_of(a)[i] == ha[i]);
                assert(hex_of(b)[i] == hb[i]);
            }
        }
        lemma_hex_of_injective(a.drop_last(), b.drop_last());
        assert(hex_digit(a.last() as int / 16) == hex_of(a)[hex_of(a).len() - 2]);
        assert(hex_digit(b.last() as int / 16) == hex_of(b)[hex_of(b).len() - 2]);
        assert(hex_digit(a.last() as int % 16) == hex_of(a)[hex_of(a).len() - 1]);
        assert(hex_digit(b.last() as int % 16) == hex_of(b)[hex_of(b).len() - 1]);
        lemma_hex_digit_injective(a.last() as int / 16, b.last() as int / 16);
        lemma_hex_digit_injective(a.last() as int % 16, b.last() as int % 16);
        assert(a.last() == b.last());
        assert(a =~= a.drop_last().push(a.last()));
        assert(b =~= b.drop_last().push(b.last()));
    }
}

/// Distinct values below sixteen have distinct hex digits.
proof fn lemma_hex_digit_injective(a: int, b: int)
    requires
        0 <= a < 16,
        0 <= b < 16,
        hex_digit(a) == hex_digit(b),
    ensures
        a == b,
{
}

} // verus!
