//! Byte-level helpers: integer views of byte strings, fixed-width copies, and the
//! outside codecs (byte order, 256-bit amounts, Keccak-256) the bridge relies on.
use byteorder::ByteOrder;
use sha3::Digest;
use vstd::prelude::*;

verus! {

/// Value of a byte string read as a big-endian unsigned integer.
pub open spec fn be_value(s: Seq<u8>) -> nat
    decreases s.len(),
{
    if s.len() == 0 {
        0
    } else {
        (be_value(s.drop_last()) * 256 + s.last()) as nat
    }
}

/// Value of a byte string read as a little-endian unsigned integer.
pub open spec fn le_value(s: Seq<u8>) -> nat
    decreases s.len(),
{
    if s.len() == 0 {
        0
    } else {
        (s[0] + 256 * le_value(s.drop_first())) as nat
    }
}

/// The Keccak-256 digest of a byte string.
pub uninterp spec fn keccak256_of(data: Seq<u8>) -> Seq<u8>;

/// Relies on byteorder's `LittleEndian::read_u16`: the first two bytes, little-endian.
#[verifier::external_body]
pub(crate) fn read_u16_le(buf: &[u8]) -> (r: u16)
    requires
        buf@.len() >= 2,
    ensures
        r as nat == le_value(buf@.subrange(0, 2)),
{
    byteorder::LittleEndian::read_u16(buf)
}

/// Relies on byteorder's `BigEndian::read_u32`: the first four bytes, big-endian.
#[verifier::external_body]
pub(crate) fn read_u32_be(buf: &[u8]) -> (r: u32)
    requires
        buf@.len() >= 4,
    ensures
        r as nat == be_value(buf@.subrange(0, 4)),
{
    byteorder::BigEndian::read_u32(buf)
}

/// Relies on byteorder's `LittleEndian::read_u64`: the first eight bytes, little-endian.
#[verifier::external_body]
pub(crate) fn read_u64_le(buf: &[u8]) -> (r: u64)
    requires
        buf@.len() >= 8,
    ensures
        r as nat == le_value(buf@.subrange(0, 8)),
{
    byteorder::LittleEndian::read_u64(buf)
}

/// Relies on primitive-types' `U256::from_big_endian` and `TryFrom<U256> for u64`:
/// the 256-bit big-endian amount, when it fits in 64 bits.
#[verifier::external_body]
pub(crate) fn amount_to_u64(amount: &[u8; 32]) -> (r: Option<u64>)
    ensures
        r == (if be_value(amount@) <= u64::MAX as nat {
            Some(be_value(amount@) as u64)
        } else {
            None::<u64>
        }),
{
    u64::try_from(primitive_types::U256::from_big_endian(amount)).ok()
}

/// Relies on sha3's `Keccak256::digest`: the digest of `data`.
#[verifier::external_body]
pub(crate) fn keccak256(data: &[u8]) -> (r: [u8; 32])
    ensures
        r@ == keccak256_of(data@),
{
    sha3::Keccak256::digest(data).into()
}

/// Whether two byte strings are equal.
pub(crate) fn bytes_equal(a: &[u8], b: &[u8]) -> (r: bool)
    ensures
        r == (a@ == b@),
{
    if a.len() != b.len() {
        return false;
    }
    let mut i: usize = 0;
    while i < a.len()
        invariant
            a@.len() == b@.len(),
            i <= a@.len(),
            a@.subrange(0, i as int) == b@.subrange(0, i as int),
        decreases a@.len() - i,
    {
        if a[i] != b[i] {
            assert(a@[i as int] != b@[i as int]);
            return false;
        }
        assert(a@.subrange(0, i + 1) == a@.subrange(0, i as int).push(a@[i as int]));
        assert(b@.subrange(0, i + 1) == b@.subrange(0, i as int).push(b@[i as int]));
        i = i + 1;
    }
    assert(a@ == a@.subrange(0, a@.len() as int));
    assert(b@ == b@.subrange(0, b@.len() as int));
    true
}

/// The `N` bytes of `s` that start at `start`.
pub(crate) fn array_at<const N: usize>(s: &[u8], start: usize) -> (r: [u8; N])
    requires
        start + N <= s@.len(),
    ensures
        r@ == s@.subrange(start as int, start + N),
{
    let mut r: [u8; N] = [0u8; N];
    let len = s.len();
    let mut i: usize = 0;
    while i < N
        invariant
            len == s@.len(),
            start + N <= len,
            i <= N,
            r@.len() == N,
            forall|j: int| 0 <= j < i ==> r@[j] == s@[start + j],
        decreases N - i,
    {
        r[i] = s[start + i];
        i = i + 1;
    }
    assert(r@ == s@.subrange(start as int, start + N));
    r
}

/// Appends the bytes of `s` to `out`.
pub(crate) fn extend_bytes(out: &mut Vec<u8>, s: &[u8])
    ensures
        final(out)@ == old(out)@ + s@,
{
    let mut i: usize = 0;
    while i < s.len()
        invariant
            i <= s@.len(),
            out@ == old(out)@ + s@.subrange(0, i as int),
        decreases s@.len() - i,
    {
        out.push(s[i]);
        assert(s@.subrange(0, i + 1) == s@.subrange(0, i as int).push(s@[i as int]));
        i = i + 1;
    }
    assert(s@ == s@.subrange(0, s@.len() as int));
}

} // verus!
