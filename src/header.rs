use crate::error::DeserializeError;
use vstd::prelude::*;

verus! {

/// Value of four bytes read as a little-endian unsigned integer, starting at `at`.
pub open spec fn le32(b: Seq<u8>, at: int) -> int {
    (b[at] as int) + 256 * (b[at + 1] as int) + 65536 * (b[at + 2] as int) + 16777216 * (
    b[at + 3] as int)
}

/// The four little-endian bytes of `n`.
pub open spec fn le32_bytes(n: u32) -> Seq<u8> {
    seq![
        (n % 256) as u8,
        ((n / 256) % 256) as u8,
        ((n / 65536) % 256) as u8,
        (n / 16777216) as u8,
    ]
}

/// The eight bytes `WASMER\0\0` that open every header.
pub open spec fn magic_bytes() -> Seq<u8> {
    seq![87u8, 65u8, 83u8, 77u8, 69u8, 82u8, 0u8, 0u8]
}

/// The one format version this library reads and writes.
pub open spec fn current_version() -> int {
    1
}

/// The sixteen bytes of the header for a payload of `len` bytes.
pub open spec fn header_bytes(len: u32) -> Seq<u8> {
    magic_bytes() + le32_bytes(1) + le32_bytes(len)
}

/// Whether `b` starts with the magic bytes.
pub open spec fn has_magic(b: Seq<u8>) -> bool {
    b.len() >= 8 && b.subrange(0, 8) == magic_bytes()
}

/// The header is laid out as: eight bytes of magic, the format version and the
/// payload length, each as a little-endian 32-bit integer.
#[derive(Clone, Copy)]
pub struct MetadataHeader {
    magic: [u8; 8],
    version: u32,
    len: u32,
}

/// Reading back the four bytes written for `n` gives `n`.
pub proof fn lemma_le32_round_trip(n: u32)
    ensures
        le32(le32_bytes(n), 0) == n,
{
    let a = n % 256;
    let q1 = n / 256;
    let b = q1 % 256;
    let q2 = q1 / 256;
    let c = q2 % 256;
    let d = q2 / 256;
    assert(n == a + 256 * q1);
    assert(q1 == b + 256 * q2);
    assert(q2 == c + 256 * d);
    assert(q2 == n / 65536);
    assert(d == n / 16777216);
    assert(d < 256);
    assert(n == a + 256 * b + 65536 * c + 16777216 * d) by (nonlinear_arith)
        requires
            n == a + 256 * q1,
            q1 == b + 256 * q2,
            q2 == c + 256 * d,
    ;
}

fn write_le32(n: u32) -> (r: [u8; 4])
    ensures
        r@ == le32_bytes(n),
{
    let r = [(n % 256) as u8, ((n / 256) % 256) as u8, ((n / 65536) % 256) as u8, (n / 16777216) as u8];
    assert(r@ =~= le32_bytes(n));
    r
}

fn read_le32(b: &[u8], at: usize) -> (r: u32)
    requires
        at + 4 <= b@.len(),
    ensures
        r == le32(b@, at as int),
{
    b[at] as u32 + 256 * (b[at + 1] as u32) + 65536 * (b[at + 2] as u32) + 16777216 * (b[at
        + 3] as u32)
}

/// Relies on `<[u8]>::as_ptr`: the address of the slice's first byte, which
/// depends on where the buffer was allocated, so nothing is stated of it.
#[verifier::external_body]
pub(crate) fn address_of(bytes: &[u8]) -> (r: usize) {
    bytes.as_ptr() as usize
}

impl MetadataHeader {
    /// Current format version. Incremented for every breaking change of the
    /// serialized layout.
    pub const CURRENT_VERSION: u32 = 1;

    /// Length of the header in bytes.
    pub const LEN: usize = 16;

    /// Alignment that the header's first byte must have.
    pub const ALIGN: usize = 16;

    fn magic() -> (r: [u8; 8])
        ensures
            r@ == magic_bytes(),
    {
        let r = [87u8, 65u8, 83u8, 77u8, 69u8, 82u8, 0u8, 0u8];
        assert(r@ =~= magic_bytes());
        r
    }

    fn to_bytes(&self) -> (r: [u8; 16])
        ensures
            r@ == self.magic@ + le32_bytes(self.version) + le32_bytes(self.len),
    {
        let m = self.magic;
        let v = write_le32(self.version);
        let l = write_le32(self.len);
        let r = [m[0], m[1], m[2], m[3], m[4], m[5], m[6], m[7], v[0], v[1], v[2], v[3], l[0], l[1], l[2], l[3]];
        assert(r@ =~= self.magic@ + le32_bytes(self.version) + le32_bytes(self.len));
        r
    }

    /// Creates the header for a payload of `len` bytes.
    pub fn new(len: usize) -> (r: [u8; 16])
        requires
            len <= u32::MAX,
        ensures
            r@ == header_bytes(len as u32),
    {
        let header = MetadataHeader { magic: Self::magic(), version: Self::CURRENT_VERSION, len: len as u32 };
        header.to_bytes()
    }

    fn matches_magic(b: &[u8]) -> (r: bool)
        requires
            b@.len() >= 8,
        ensures
            r == has_magic(b@),
    {
        let ok = b[0] == 87u8 && b[1] == 65u8 && b[2] == 83u8 && b[3] == 77u8 && b[4] == 69u8
            && b[5] == 82u8 && b[6] == 0u8 && b[7] == 0u8;
        if ok {
            assert(b@.subrange(0, 8) =~= magic_bytes());
        } else {
            assert(b@.subrange(0, 8)[0] == b@[0]);
        }
        ok
    }

    /// Parses a header whose first byte lies at address `address` and returns
    /// the payload length that it records.
    pub fn parse_at(bytes: &[u8], address: usize) -> (r: Result<usize, DeserializeError>)
        ensures
            address % 16 != 0 ==> r matches Err(DeserializeError::CorruptedBinary(_)),
            address % 16 == 0 && bytes@.len() < 16 ==> r matches Err(
                DeserializeError::CorruptedBinary(_),
            ),
            address % 16 == 0 && bytes@.len() >= 16 && !has_magic(bytes@) ==> r matches Err(
                DeserializeError::Incompatible(_),
            ),
            address % 16 == 0 && bytes@.len() >= 16 && has_magic(bytes@) && le32(bytes@, 8)
                != current_version() ==> r matches Err(DeserializeError::Incompatible(_)),
            address % 16 == 0 && bytes@.len() >= 16 && has_magic(bytes@) && le32(bytes@, 8)
                == current_version() ==> r == Ok::<usize, DeserializeError>(
                le32(bytes@, 12) as usize,
            ),
    {
        if address % 16 != 0 {
            return Err(DeserializeError::CorruptedBinary("misaligned metadata".to_string()));
        }
        if bytes.len() < 16 {
            return Err(DeserializeError::CorruptedBinary("invalid metadata header".to_string()));
        }
        if !Self::matches_magic(bytes) {
            return Err(
                DeserializeError::Incompatible(
                    "The provided bytes were not serialized by Wasmer".to_string(),
                ),
            );
        }
        let version = read_le32(bytes, 8);
        if version != Self::CURRENT_VERSION {
            return Err(
                DeserializeError::Incompatible(
                    "The provided bytes were serialized by an incompatible version of Wasmer".to_string(),
                ),
            );
        }
        let len = read_le32(bytes, 12);
        Ok(len as usize)
    }
}

impl MetadataHeader {
    /// Parses the header at the start of `bytes` and returns the payload
    /// length that it records. A slice whose first byte is not aligned to
    /// [`MetadataHeader::ALIGN`] is reported as corrupted.
    pub fn parse(bytes: &[u8]) -> (r: Result<usize, DeserializeError>)
        ensures
            bytes@.len() < 16 ==> r matches Err(DeserializeError::CorruptedBinary(_)),
            bytes@.len() >= 16 && !has_magic(bytes@) ==> r is Err,
            bytes@.len() >= 16 && has_magic(bytes@) && le32(bytes@, 8) != current_version()
                ==> r is Err,
            r matches Ok(n) ==> bytes@.len() >= 16 && has_magic(bytes@) && le32(bytes@, 8)
                == current_version() && n == le32(bytes@, 12),
    {
        let address = address_of(bytes);
        Self::parse_at(bytes, address)
    }
}

/// A header written by [`MetadataHeader::new`] and read back from an aligned
/// address gives back the length it was written with.
pub proof fn lemma_header_round_trip(len: u32)
    ensures
        header_bytes(len).len() == 16,
        has_magic(header_bytes(len)),
        le32(header_bytes(len), 8) == current_version(),
        le32(header_bytes(len), 12) == len,
{
    let h = header_bytes(len);
    lemma_le32_round_trip(1);
    lemma_le32_round_trip(len);
    assert(h.subrange(0, 8) =~= magic_bytes());
    assert(h.subrange(8, 12) =~= le32_bytes(1));
    assert(le32(h, 8) == le32(le32_bytes(1), 0));
    assert(le32(h, 12) == le32(le32_bytes(len), 0));
}

} // verus!
