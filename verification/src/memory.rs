use vstd::prelude::*;

use crate::error::{owned, ErrorModel, ShardexError};

verus! {

/// Little-endian value of the four bytes of `s` starting at `off`.
pub open spec fn u32_le(s: Seq<u8>, off: int) -> int {
    s[off] as int + 256 * (s[off + 1] as int) + 65536 * (s[off + 2] as int) + 16777216 * (
    s[off + 3] as int)
}

/// Little-endian value of the eight bytes of `s` starting at `off`.
pub open spec fn u64_le(s: Seq<u8>, off: int) -> int {
    u32_le(s, off) + 4294967296 * u32_le(s, off + 4)
}

/// Little-endian value of the sixteen bytes of `s` starting at `off`.
pub open spec fn u128_le(s: Seq<u8>, off: int) -> int {
    u64_le(s, off) + 18446744073709551616 * u64_le(s, off + 8)
}

/// `new` and `old` agree on every position outside `[off, off + n)`.
pub open spec fn same_outside(new: Seq<u8>, old: Seq<u8>, off: int, n: int) -> bool {
    &&& new.len() == old.len()
    &&& forall|i: int| 0 <= i < old.len() && !(off <= i < off + n) ==> #[trigger] new[i] == old[i]
}

/// One step of the 32-bit FNV-1a checksum.
pub open spec fn checksum_step(h: u32, b: u8) -> u32 {
    (h ^ (b as u32)).wrapping_mul(16777619u32)
}

/// The 32-bit FNV-1a checksum of a byte sequence.
pub open spec fn checksum_of(s: Seq<u8>) -> u32
    decreases s.len(),
{
    if s.len() == 0 {
        2166136261u32
    } else {
        checksum_step(checksum_of(s.drop_last()), s.last())
    }
}

/// Computes the checksum of a byte slice.
pub fn checksum(data: &[u8]) -> (r: u32)
    ensures
        r == checksum_of(data@),
{
    let mut h: u32 = 2166136261u32;
    let mut i: usize = 0;
    while i < data.len()
        invariant
            i <= data@.len(),
            h == checksum_of(data@.subrange(0, i as int)),
        decreases data@.len() - i,
    {
        assert(data@.subrange(0, i + 1).drop_last() =~= data@.subrange(0, i as int));
        h = (h ^ (data[i] as u32)).wrapping_mul(16777619u32);
        i = i + 1;
    }
    assert(data@.subrange(0, data@.len() as int) =~= data@);
    h
}

proof fn lemma_u32_bytes(v: u32)
    ensures
        (v & 0xff) + 256 * ((v >> 8u32) & 0xff) + 65536 * ((v >> 16u32) & 0xff) + 16777216 * (v
            >> 24u32) == v,
        (v & 0xff) < 256,
        ((v >> 8u32) & 0xff) < 256,
        ((v >> 16u32) & 0xff) < 256,
        (v >> 24u32) < 256,
{
    assert((v & 0xff) + 256 * ((v >> 8u32) & 0xff) + 65536 * ((v >> 16u32) & 0xff) + 16777216 * (v
        >> 24u32) == v) by (bit_vector);
    assert((v & 0xff) < 256) by (bit_vector);
    assert(((v >> 8u32) & 0xff) < 256) by (bit_vector);
    assert(((v >> 16u32) & 0xff) < 256) by (bit_vector);
    assert((v >> 24u32) < 256) by (bit_vector);
}

/// The little-endian value of four bytes lies in `[0, 2^32)`.
pub proof fn lemma_u32_le_bounds(s: Seq<u8>, off: int)
    requires
        0 <= off,
        off + 4 <= s.len(),
    ensures
        0 <= u32_le(s, off) < 4294967296,
{
}

/// Four bytes are determined by their little-endian value.
pub proof fn lemma_u32_le_determines(a: Seq<u8>, b: Seq<u8>, off: int)
    requires
        0 <= off,
        off + 4 <= a.len(),
        off + 4 <= b.len(),
        u32_le(a, off) == u32_le(b, off),
    ensures
        forall|i: int| off <= i < off + 4 ==> a[i] == b[i],
{
    let (a0, a1, a2, a3) = (a[off] as int, a[off + 1] as int, a[off + 2] as int, a[off + 3] as int);
    let (b0, b1, b2, b3) = (b[off] as int, b[off + 1] as int, b[off + 2] as int, b[off + 3] as int);
    assert(a0 == b0 && a1 == b1 && a2 == b2 && a3 == b3) by (nonlinear_arith)
        requires
            0 <= a0 < 256,
            0 <= a1 < 256,
            0 <= a2 < 256,
            0 <= a3 < 256,
            0 <= b0 < 256,
            0 <= b1 < 256,
            0 <= b2 < 256,
            0 <= b3 < 256,
            a0 + 256 * a1 + 65536 * a2 + 16777216 * a3 == b0 + 256 * b1 + 65536 * b2 + 16777216 * b3,
    ;
}

/// Eight bytes are determined by their little-endian value.
pub proof fn lemma_u64_le_determines(a: Seq<u8>, b: Seq<u8>, off: int)
    requires
        0 <= off,
        off + 8 <= a.len(),
        off + 8 <= b.len(),
        u64_le(a, off) == u64_le(b, off),
    ensures
        forall|i: int| off <= i < off + 8 ==> a[i] == b[i],
{
    lemma_u32_le_bounds(a, off);
    lemma_u32_le_bounds(a, off + 4);
    lemma_u32_le_bounds(b, off);
    lemma_u32_le_bounds(b, off + 4);
    let (al, ah, bl, bh) = (u32_le(a, off), u32_le(a, off + 4), u32_le(b, off), u32_le(b, off + 4));
    assert(al == bl && ah == bh) by (nonlinear_arith)
        requires
            0 <= al < 4294967296,
            0 <= ah < 4294967296,
            0 <= bl < 4294967296,
            0 <= bh < 4294967296,
            al + 4294967296 * ah == bl + 4294967296 * bh,
    ;
    lemma_u32_le_determines(a, b, off);
    lemma_u32_le_determines(a, b, off + 4);
}

/// The file header that starts every storage file: magic bytes, format version,
/// header size and a checksum of the data that follows the header.
#[derive(Debug, Clone, Copy, PartialEq)]
pub struct FileHeader {
    /// Magic bytes identifying the file type
    pub magic: [u8; 4],
    /// Format version
    pub version: u32,
    /// Size of this header in bytes
    pub header_size: u64,
    /// Checksum of the data that follows the storage header
    pub checksum: u32,
}

/// Encoded size of a [`FileHeader`] in bytes.
pub const FILE_HEADER_SIZE: usize = 20;

impl FileHeader {
    /// Encoded size of a [`FileHeader`] in bytes.
    pub const SIZE: usize = 20;

    /// Creates a header with the given magic, version and header size, and a zero checksum.
    pub fn new_without_checksum(magic: [u8; 4], version: u32, header_size: u64) -> (h: FileHeader)
        ensures
            h.magic@ == magic@,
            h.version == version,
            h.header_size == header_size,
            h.checksum == 0,
    {
        FileHeader { magic, version, header_size, checksum: 0 }
    }

    /// Checks the magic bytes against the expected ones.
    pub fn validate_magic(&self, expected: [u8; 4]) -> (r: Result<(), ShardexError>)
        ensures
            r is Ok <==> self.magic@ == expected@,
            r matches Err(e) ==> e.model() == ErrorModel::Corruption("Invalid magic bytes in file header"@),
    {
        if self.magic[0] == expected[0] && self.magic[1] == expected[1] && self.magic[2]
            == expected[2] && self.magic[3] == expected[3] {
            assert(self.magic@ =~= expected@);
            Ok(())
        } else {
            Err(ShardexError::Corruption(owned("Invalid magic bytes in file header")))
        }
    }

    /// Sets the checksum to that of `data`.
    pub fn update_checksum(&mut self, data: &[u8])
        ensures
            final(self).magic == old(self).magic,
            final(self).version == old(self).version,
            final(self).header_size == old(self).header_size,
            final(self).checksum == checksum_of(data@),
    {
        self.checksum = checksum(data);
    }

    /// Checks the stored checksum against that of `data`.
    pub fn validate_checksum(&self, data: &[u8]) -> (r: Result<(), ShardexError>)
        ensures
            r is Ok <==> self.checksum == checksum_of(data@),
            r matches Err(e) ==> e.model() == ErrorModel::Corruption("Checksum mismatch"@),
    {
        if checksum(data) == self.checksum {
            Ok(())
        } else {
            Err(ShardexError::Corruption(owned("Checksum mismatch")))
        }
    }
}

/// The byte image of a storage file. Storage components read and write their
/// fields here; the image is loaded from and flushed to disk by the caller.
pub struct MemoryMappedFile {
    data: Vec<u8>,
}

impl View for MemoryMappedFile {
    type V = Seq<u8>;

    closed spec fn view(&self) -> Seq<u8> {
        self.data@
    }
}

impl MemoryMappedFile {
    /// An image of `size` zero bytes.
    pub fn create(size: usize) -> (f: MemoryMappedFile)
        ensures
            f@ == Seq::new(size as nat, |i: int| 0u8),
    {
        let mut data: Vec<u8> = Vec::new();
        let mut i: usize = 0;
        while i < size
            invariant
                i <= size,
                data@ == Seq::new(i as nat, |j: int| 0u8),
            decreases size - i,
        {
            data.push(0u8);
            i = i + 1;
            assert(data@ =~= Seq::new(i as nat, |j: int| 0u8));
        }
        MemoryMappedFile { data }
    }

    /// An image holding the given bytes.
    pub fn from_bytes(data: Vec<u8>) -> (f: MemoryMappedFile)
        ensures
            f@ == data@,
    {
        MemoryMappedFile { data }
    }

    /// The bytes of the image.
    pub fn into_bytes(self) -> (v: Vec<u8>)
        ensures
            v@ == self@,
    {
        self.data
    }

    /// Length of the image in bytes.
    pub fn len(&self) -> (n: usize)
        ensures
            n == self@.len(),
    {
        self.data.len()
    }

    /// The bytes of the image as a slice.
    pub fn as_slice(&self) -> (s: &[u8])
        ensures
            s@ == self@,
    {
        self.data.as_slice()
    }

    /// The byte at `off`.
    pub fn read_u8(&self, off: usize) -> (r: u8)
        requires
            off < self@.len(),
        ensures
            r == self@[off as int],
    {
        self.data[off]
    }

    /// The little-endian `u32` at `off`.
    pub fn read_u32(&self, off: usize) -> (r: u32)
        requires
            off + 4 <= self@.len(),
        ensures
            r == u32_le(self@, off as int),
    {
        let _len = self.data.len();
        let b0 = self.data[off] as u32;
        let b1 = self.data[off + 1] as u32;
        let b2 = self.data[off + 2] as u32;
        let b3 = self.data[off + 3] as u32;
        b0 + b1 * 256 + b2 * 65536 + b3 * 16777216
    }

    /// The little-endian `u64` at `off`.
    pub fn read_u64(&self, off: usize) -> (r: u64)
        requires
            off + 8 <= self@.len(),
        ensures
            r == u64_le(self@, off as int),
    {
        let _len = self.data.len();
        let lo = self.read_u32(off) as u64;
        let hi = self.read_u32(off + 4) as u64;
        lo + hi * 4294967296
    }

    /// The little-endian `u128` at `off`.
    pub fn read_u128(&self, off: usize) -> (r: u128)
        requires
            off + 16 <= self@.len(),
        ensures
            r == u128_le(self@, off as int),
    {
        let _len = self.data.len();
        let lo = self.read_u64(off) as u128;
        let hi = self.read_u64(off + 8) as u128;
        lo + hi * 18446744073709551616u128
    }

    /// Writes the byte `v` at `off`.
    pub fn write_u8(&mut self, off: usize, v: u8)
        requires
            off < old(self)@.len(),
        ensures
            final(self)@ == old(self)@.update(off as int, v),
    {
        self.data.set(off, v);
    }

    /// Writes `v` little-endian at `off`.
    pub fn write_u32(&mut self, off: usize, v: u32)
        requires
            off + 4 <= old(self)@.len(),
        ensures
            u32_le(final(self)@, off as int) == v,
            same_outside(final(self)@, old(self)@, off as int, 4),
    {
        proof {
            lemma_u32_bytes(v);
        }
        let _len = self.data.len();
        self.data.set(off, (v & 0xff) as u8);
        self.data.set(off + 1, ((v >> 8u32) & 0xff) as u8);
        self.data.set(off + 2, ((v >> 16u32) & 0xff) as u8);
        self.data.set(off + 3, (v >> 24u32) as u8);
    }

    /// Writes `v` little-endian at `off`.
    pub fn write_u64(&mut self, off: usize, v: u64)
        requires
            off + 8 <= old(self)@.len(),
        ensures
            u64_le(final(self)@, off as int) == v,
            same_outside(final(self)@, old(self)@, off as int, 8),
    {
        let _len = self.data.len();
        let lo = (v % 4294967296) as u32;
        let hi = (v / 4294967296) as u32;
        self.write_u32(off, lo);
        let ghost mid = self@;
        self.write_u32(off + 4, hi);
        assert(u32_le(self@, off as int) == u32_le(mid, off as int)) by {
            assert(self@[off as int] == mid[off as int]);
            assert(self@[off + 1] == mid[off + 1]);
            assert(self@[off + 2] == mid[off + 2]);
            assert(self@[off + 3] == mid[off + 3]);
        }
    }

    /// Writes `v` little-endian at `off`.
    pub fn write_u128(&mut self, off: usize, v: u128)
        requires
            off + 16 <= old(self)@.len(),
        ensures
            u128_le(final(self)@, off as int) == v,
            same_outside(final(self)@, old(self)@, off as int, 16),
    {
        let _len = self.data.len();
        let lo = (v % 18446744073709551616u128) as u64;
        let hi = (v / 18446744073709551616u128) as u64;
        self.write_u64(off, lo);
        let ghost mid = self@;
        self.write_u64(off + 8, hi);
        assert(u64_le(self@, off as int) == u64_le(mid, off as int)) by {
            assert(self@[off as int] == mid[off as int]);
            assert(self@[off + 1] == mid[off + 1]);
            assert(self@[off + 2] == mid[off + 2]);
            assert(self@[off + 3] == mid[off + 3]);
            assert(self@[off + 4] == mid[off + 4]);
            assert(self@[off + 5] == mid[off + 5]);
            assert(self@[off + 6] == mid[off + 6]);
            assert(self@[off + 7] == mid[off + 7]);
        }
    }

    /// Copies `bytes` into the image at `off`.
    pub fn write_slice_at(&mut self, off: usize, bytes: &[u8])
        requires
            off + bytes@.len() <= old(self)@.len(),
        ensures
            final(self)@.subrange(off as int, off + bytes@.len()) == bytes@,
            same_outside(final(self)@, old(self)@, off as int, bytes@.len() as int),
    {
        let _len = self.data.len();
        let mut i: usize = 0;
        while i < bytes.len()
            invariant
                i <= bytes@.len(),
                old(self)@.len() <= usize::MAX,
                off + bytes@.len() <= old(self)@.len(),
                self@.len() == old(self)@.len(),
                forall|j: int| 0 <= j < i ==> #[trigger] self@[off + j] == bytes@[j],
                forall|j: int|
                    0 <= j < self@.len() && !(off <= j < off + i) ==> #[trigger] self@[j]
                        == old(self)@[j],
            decreases bytes@.len() - i,
        {
            self.data.set(off + i, bytes[i]);
            i = i + 1;
        }
        assert(self@.subrange(off as int, off + bytes@.len()) =~= bytes@) by {
            assert forall|j: int| 0 <= j < bytes@.len() implies self@.subrange(
                off as int,
                off + bytes@.len(),
            )[j] == bytes@[j] by {
                assert(self@[off + j] == bytes@[j]);
            }
        }
    }

    /// The checksum of the bytes in `[start, end)`.
    pub fn checksum_range(&self, start: usize, end: usize) -> (r: u32)
        requires
            start <= end <= self@.len(),
        ensures
            r == checksum_of(self@.subrange(start as int, end as int)),
    {
        let mut h: u32 = 2166136261u32;
        let mut i: usize = start;
        while i < end
            invariant
                start <= i <= end,
                end <= self@.len(),
                h == checksum_of(self@.subrange(start as int, i as int)),
            decreases end - i,
        {
            assert(self@.subrange(start as int, i + 1).drop_last() =~= self@.subrange(
                start as int,
                i as int,
            ));
            h = (h ^ (self.data[i] as u32)).wrapping_mul(16777619u32);
            i = i + 1;
        }
        h
    }
}

/// A `u32` read away from a write is unchanged by it.
pub proof fn lemma_u32_frame(new: Seq<u8>, old: Seq<u8>, off: int, woff: int, n: int)
    requires
        same_outside(new, old, woff, n),
        0 <= off,
        off + 4 <= old.len(),
        off + 4 <= woff || woff + n <= off,
    ensures
        u32_le(new, off) == u32_le(old, off),
{
    assert(new[off] == old[off]);
    assert(new[off + 1] == old[off + 1]);
    assert(new[off + 2] == old[off + 2]);
    assert(new[off + 3] == old[off + 3]);
}

/// A `u64` read away from a write is unchanged by it.
pub proof fn lemma_u64_frame(new: Seq<u8>, old: Seq<u8>, off: int, woff: int, n: int)
    requires
        same_outside(new, old, woff, n),
        0 <= off,
        off + 8 <= old.len(),
        off + 8 <= woff || woff + n <= off,
    ensures
        u64_le(new, off) == u64_le(old, off),
{
    lemma_u32_frame(new, old, off, woff, n);
    lemma_u32_frame(new, old, off + 4, woff, n);
}

/// A `u128` read away from a write is unchanged by it.
pub proof fn lemma_u128_frame(new: Seq<u8>, old: Seq<u8>, off: int, woff: int, n: int)
    requires
        same_outside(new, old, woff, n),
        0 <= off,
        off + 16 <= old.len(),
        off + 16 <= woff || woff + n <= off,
    ensures
        u128_le(new, off) == u128_le(old, off),
{
    lemma_u64_frame(new, old, off, woff, n);
    lemma_u64_frame(new, old, off + 8, woff, n);
}

/// Updating one byte changes nothing outside it.
pub proof fn lemma_update_same_outside(old: Seq<u8>, off: int, v: u8)
    requires
        0 <= off < old.len(),
    ensures
        same_outside(old.update(off, v), old, off, 1),
{
}

} // verus!
