//! SHA-256 block hashing, the mid-state optimisation, hex text and the
//! leading-zero-bit difficulty predicate.
use vstd::prelude::*;
use vstd::bytes::{spec_u64_to_le_bytes, u64_to_le_bytes};
use vstd::std_specs::bits::axiom_u8_leading_zeros;
use vstd::utf8::encode_utf8;
use sha2::Digest;
use sha2::Sha256;

verus! {

/// A SHA-256 hasher in the middle of a computation. Verus cannot be told of
/// sha2's hasher type (its bounds go through traits Verus does not accept),
/// so the hasher sits in this opaque holder and its contents are named by
/// `sha256_fed`.
#[verifier::external_body]
pub struct Sha256State {
    inner: Sha256,
}

/// The bytes fed so far into a SHA-256 hasher.
pub uninterp spec fn sha256_fed(h: Sha256State) -> Seq<u8>;

/// The SHA-256 digest of a byte string.
pub uninterp spec fn sha256_of(data: Seq<u8>) -> Seq<u8>;

/// Relies on `Digest::new` of sha2's `Sha256`: a fresh hasher has been fed nothing.
#[verifier::external_body]
fn sha256_new() -> (r: Sha256State)
    ensures
        sha256_fed(r) == Seq::<u8>::empty(),
{
    Sha256State { inner: Sha256::new() }
}

/// Relies on `Digest::update` of sha2's `Sha256`: the data is appended to what was fed.
#[verifier::external_body]
fn sha256_update(h: &mut Sha256State, data: &[u8])
    ensures
        sha256_fed(*final(h)) == sha256_fed(*old(h)) + data@,
{
    h.inner.update(data)
}

/// Relies on `Clone` of sha2's `Sha256`: the copy has been fed the same bytes.
#[verifier::external_body]
fn sha256_clone(h: &Sha256State) -> (r: Sha256State)
    ensures
        sha256_fed(r) == sha256_fed(*h),
{
    Sha256State { inner: h.inner.clone() }
}

/// Relies on `Digest::finalize` of sha2's `Sha256`: the digest of all bytes fed.
#[verifier::external_body]
fn sha256_finalize(h: Sha256State) -> (r: [u8; 32])
    ensures
        r@ == sha256_of(sha256_fed(h)),
{
    h.inner.finalize().into()
}

/// The `i`-th bit of `h` read as a big-endian bit string (bit 0 is the
/// most significant bit of the first byte).
pub open spec fn hash_bit(h: Seq<u8>, i: int) -> u8 {
    (h[i / 8] >> ((7 - i % 8) as u8)) & 1u8
}

/// `h`, read as a big-endian bit string, starts with at least `d` zero bits.
pub open spec fn has_zero_prefix(h: Seq<u8>, d: int) -> bool {
    &&& d <= 8 * h.len()
    &&& forall|i: int| 0 <= i < d ==> #[trigger] hash_bit(h, i) == 0
}

proof fn lemma_byte_prefix(b: u8, m: int)
    requires
        0 <= m <= 8,
    ensures
        (forall|k: int| 0 <= k < m ==> #[trigger] ((b >> ((7 - k) as u8)) & 1u8) == 0)
            <==> b.leading_zeros() >= m,
{
    axiom_u8_leading_zeros(b);
    let z = b.leading_zeros();
    if z >= m {
        assert forall|k: int| 0 <= k < m implies #[trigger] ((b >> ((7 - k) as u8)) & 1u8) == 0 by {
            let j = (7 - k) as u8;
            assert(8 - z <= j < 8);
        }
    } else {
        assert(((b >> ((7 - z) as u8)) & 1u8) != 0);
    }
}

proof fn lemma_bit_in_byte(h: Seq<u8>, idx: int, k: int)
    requires
        0 <= idx,
        0 <= k < 8,
    ensures
        hash_bit(h, 8 * idx + k) == (h[idx] >> ((7 - k) as u8)) & 1u8,
{
    assert((8 * idx + k) / 8 == idx && (8 * idx + k) % 8 == k) by (nonlinear_arith)
        requires 0 <= idx, 0 <= k < 8;
}

/// Tests whether `hash` starts with at least `difficulty` zero bits.
pub fn meets_difficulty(hash: &[u8; 32], difficulty: u32) -> (r: bool)
    ensures
        r == has_zero_prefix(hash@, difficulty as int),
{
    bytes_meet_difficulty(hash.as_slice(), difficulty)
}

/// Tests whether a byte string starts with at least `difficulty` zero bits.
pub fn bytes_meet_difficulty(hash: &[u8], difficulty: u32) -> (r: bool)
    ensures
        r == has_zero_prefix(hash@, difficulty as int),
{
    let mut remaining: u32 = difficulty;
    let mut idx: usize = 0;
    while idx < hash.len()
        invariant
            idx <= hash@.len(),
            remaining as int == difficulty as int - 8 * idx,
            forall|i: int| 0 <= i < 8 * idx ==> #[trigger] hash_bit(hash@, i) == 0,
        decreases hash@.len() - idx,
    {
        if remaining == 0 {
            return true;
        }
        let b = hash[idx];
        let z = b.leading_zeros();
        proof {
            lemma_byte_prefix(b, if remaining >= 8 { 8 } else { remaining as int });
            assert forall|k: int| 0 <= k < 8 implies #[trigger] hash_bit(hash@, 8 * idx + k) == (b
                >> ((7 - k) as u8)) & 1u8 by {
                lemma_bit_in_byte(hash@, idx as int, k);
            }
        }
        if z >= remaining {
            proof {
                assert forall|i: int| 0 <= i < difficulty implies #[trigger] hash_bit(hash@, i)
                    == 0 by {
                    if i >= 8 * idx {
                        let k = i - 8 * idx;
                        assert(hash_bit(hash@, 8 * idx + k) == 0);
                    }
                }
            }
            return true;
        }
        if z < 8 {
            proof {
                lemma_byte_prefix(b, z as int + 1);
                let k = choose|k: int| 0 <= k < z + 1 && #[trigger] ((b >> ((7 - k) as u8)) & 1u8) != 0;
                assert(hash_bit(hash@, 8 * idx + k) != 0);
            }
            return false;
        }
        proof {
            assert forall|i: int| 0 <= i < 8 * (idx + 1) implies #[trigger] hash_bit(hash@, i)
                == 0 by {
                if i >= 8 * idx {
                    let k = i - 8 * idx;
                    assert(hash_bit(hash@, 8 * idx + k) == 0);
                }
            }
        }
        remaining -= 8;
        idx += 1;
    }
    remaining == 0
}

/// The hash of a block: SHA-256 over the UTF-8 bytes of the block data
/// followed by the nonce as eight little-endian bytes.
pub open spec fn block_hash(block_data: Seq<char>, nonce: u64) -> Seq<u8> {
    sha256_of(encode_utf8(block_data) + spec_u64_to_le_bytes(nonce))
}

/// SHA-256 of the concatenation of two byte strings.
pub fn sha256_digest2(first: &[u8], second: &[u8]) -> (r: [u8; 32])
    ensures
        r@ == sha256_of(first@ + second@),
{
    let mut h = sha256_new();
    sha256_update(&mut h, first);
    sha256_update(&mut h, second);
    proof {
        assert(Seq::<u8>::empty() + first@ + second@ =~= first@ + second@);
    }
    sha256_finalize(h)
}

/// Hashes a block from scratch: SHA-256 over `block_data || nonce_le8`.
pub fn hash_block(block_data: &str, nonce: u64) -> (r: [u8; 32])
    ensures
        r@ == block_hash(block_data@, nonce),
{
    let nonce_bytes = u64_to_le_bytes(nonce);
    sha256_digest2(block_data.as_bytes(), nonce_bytes.as_slice())
}

/// A SHA-256 hasher pre-fed with the block data, cloned for every nonce.
pub struct HashMidState {
    hasher: Sha256State,
}

impl View for HashMidState {
    type V = Seq<u8>;

    /// The bytes the hasher has been fed.
    closed spec fn view(&self) -> Seq<u8> {
        sha256_fed(self.hasher)
    }
}

impl HashMidState {
    /// A hasher that has been fed the UTF-8 bytes of `block_data`.
    pub fn new(block_data: &str) -> (r: Self)
        ensures
            r@ == encode_utf8(block_data@),
    {
        let mut hasher = sha256_new();
        sha256_update(&mut hasher, block_data.as_bytes());
        proof {
            assert(Seq::<u8>::empty() + encode_utf8(block_data@) =~= encode_utf8(block_data@));
        }
        HashMidState { hasher }
    }

    /// The digest of the prefix followed by `nonce` in little-endian order;
    /// the mid-state itself is left as it was.
    pub fn finalize_with_nonce(&self, nonce: u64) -> (r: [u8; 32])
        ensures
            r@ == sha256_of(self@ + spec_u64_to_le_bytes(nonce)),
    {
        let mut h = sha256_clone(&self.hasher);
        let nonce_bytes = u64_to_le_bytes(nonce);
        sha256_update(&mut h, nonce_bytes.as_slice());
        sha256_finalize(h)
    }
}

/// Hashing through a mid-state built from `block_data` gives the same digest
/// as hashing the block from scratch, for every nonce.
pub proof fn lemma_midstate_equals_naive(mid: HashMidState, block_data: Seq<char>, nonce: u64)
    requires
        mid@ == encode_utf8(block_data),
    ensures
        sha256_of(mid@ + spec_u64_to_le_bytes(nonce)) == block_hash(block_data, nonce),
{
}

/// With a difficulty of 256 or more, only the all-zero hash meets it.
pub proof fn lemma_full_difficulty_needs_zero_hash(h: Seq<u8>, d: int)
    requires
        h.len() == 32,
        d >= 256,
        has_zero_prefix(h, d),
    ensures
        d == 256,
        forall|i: int| 0 <= i < 32 ==> #[trigger] h[i] == 0,
{
    assert forall|i: int| 0 <= i < 32 implies #[trigger] h[i] == 0 by {
        let b = h[i];
        assert forall|k: int| 0 <= k < 8 implies #[trigger] ((b >> ((7 - k) as u8)) & 1u8) == 0 by {
            lemma_bit_in_byte(h, i, k);
            assert(hash_bit(h, 8 * i + k) == 0);
        }
        lemma_byte_prefix(b, 8);
        axiom_u8_leading_zeros(b);
    }
}

/// Every difficulty is met by the all-zero hash up to 256.
pub proof fn lemma_zero_hash_meets(h: Seq<u8>, d: int)
    requires
        h.len() == 32,
        0 <= d <= 256,
        forall|i: int| 0 <= i < 32 ==> #[trigger] h[i] == 0,
    ensures
        has_zero_prefix(h, d),
{
    assert forall|i: int| 0 <= i < d implies #[trigger] hash_bit(h, i) == 0 by {
        let k = (7 - i % 8) as u8;
        assert(0 <= i / 8 < 32);
        assert(h[i / 8] == 0);
        assert((0u8 >> k) & 1u8 == 0) by (bit_vector);
    }
}

/// The lowercase hex digit for a value below 16.
pub open spec fn hex_char(v: u8) -> char {
    if v < 10 {
        ((48 + v) as u8) as char
    } else {
        ((87 + v) as u8) as char
    }
}

/// Lowercase hex text of a byte string: two digits per byte, high nibble first.
pub open spec fn hex_text(b: Seq<u8>) -> Seq<char> {
    Seq::new(
        2 * b.len(),
        |i: int|
            if i % 2 == 0 {
                hex_char(b[i / 2] / 16)
            } else {
                hex_char(b[i / 2] % 16)
            },
    )
}

/// A hex digit, in either case.
pub open spec fn is_hex_char(c: char) -> bool {
    ('0' <= c && c <= '9') || ('a' <= c && c <= 'f') || ('A' <= c && c <= 'F')
}

/// The value of a hex digit.
pub open spec fn hex_value(c: char) -> int {
    if '0' <= c && c <= '9' {
        c as int - 48
    } else if 'a' <= c && c <= 'f' {
        c as int - 87
    } else {
        c as int - 55
    }
}

/// Text that hex-decodes: an even number of hex digits.
pub open spec fn is_hex_text(t: Seq<char>) -> bool {
    &&& t.len() % 2 == 0
    &&& forall|i: int| 0 <= i < t.len() ==> is_hex_char(#[trigger] t[i])
}

/// The bytes that hex text stands for.
pub open spec fn hex_bytes(t: Seq<char>) -> Seq<u8> {
    Seq::new(
        t.len() / 2,
        |i: int| (hex_value(t[2 * i]) * 16 + hex_value(t[2 * i + 1])) as u8,
    )
}

/// Relies on `hex::encode`: lowercase digits, two per byte, high nibble first.
#[verifier::external_body]
fn hex_encode(bytes: &[u8]) -> (r: String)
    ensures
        r@ == hex_text(bytes@),
{
    hex::encode(bytes)
}

/// Relies on `hex::decode`: it succeeds exactly on an even number of hex
/// digits (either case) and yields one byte per pair, high nibble first.
#[verifier::external_body]
pub(crate) fn hex_decode(text: &str) -> (r: Option<Vec<u8>>)
    ensures
        r is Some <==> is_hex_text(text@),
        r matches Some(v) ==> v@ == hex_bytes(text@),
{
    hex::decode(text).ok()
}

/// Lowercase hex text of `bytes`.
pub fn hash_to_hex(bytes: &[u8]) -> (r: String)
    ensures
        r@ == hex_text(bytes@),
{
    hex_encode(bytes)
}

} // verus!
