//! Posting metadata storage laid out in a single byte image.
//!
//! The image starts with an encoded [`PostingStorageHeader`] (80 bytes), which
//! names where four arrays sized by the capacity lie: document ids (16 bytes
//! each), starts (4 bytes each), lengths (4 bytes each) and a bitset of deleted
//! flags (one bit each). A new storage places them one after the other right
//! after the header; an opened image is read where its header places them.
//! All integers are little-endian. The header carries a checksum of the bytes
//! that follow it, up to the size the capacity calls for.

use vstd::prelude::*;

use crate::error::{owned, ErrorModel, ShardexError};
use crate::identifiers::DocumentId;
use crate::memory::{
    checksum_of, lemma_u128_frame, lemma_u32_frame, lemma_u32_le_determines, lemma_u64_frame,
    lemma_u64_le_determines, lemma_update_same_outside, same_outside, u128_le, u32_le, u64_le,
    FileHeader, MemoryMappedFile, FILE_HEADER_SIZE,
};
use crate::text::{decimal, with_number, with_text};

verus! {

/// Magic bytes of posting storage files ("PSTR").
pub const POSTING_STORAGE_MAGIC: [u8; 4] = [80u8, 83u8, 84u8, 82u8];

/// Current version of the posting storage format.
pub const POSTING_STORAGE_VERSION: u32 = 1;

/// Encoded size of the posting storage header in bytes.
pub const POSTING_STORAGE_HEADER_SIZE: usize = 80;

/// The magic bytes as a sequence.
pub open spec fn magic_seq() -> Seq<u8> {
    seq![80u8, 83u8, 84u8, 82u8]
}

/// Offset of the starts array for a given capacity.
pub open spec fn starts_base(cap: int) -> int {
    80 + 16 * cap
}

/// Offset of the lengths array for a given capacity.
pub open spec fn lengths_base(cap: int) -> int {
    80 + 20 * cap
}

/// Offset of the deleted-flags bitset for a given capacity.
pub open spec fn flags_base(cap: int) -> int {
    80 + 24 * cap
}

/// Total image size for a given capacity.
pub open spec fn spec_file_size(cap: int) -> int {
    80 + 24 * cap + (cap + 7) / 8
}

/// Where the four arrays of an image start: document ids, starts, lengths and
/// the deleted-flags bitset.
pub struct ArrayLayout {
    pub doc: int,
    pub starts: int,
    pub lengths: int,
    pub flags: int,
}

/// The layout that a new storage of the given capacity has: the arrays one
/// after the other, right after the header.
pub open spec fn canonical_layout(cap: int) -> ArrayLayout {
    ArrayLayout { doc: 80, starts: starts_base(cap), lengths: lengths_base(cap), flags: flags_base(cap) }
}

/// Two byte ranges, given by start and length, have no byte in common.
pub open spec fn spans_apart(a: int, a_len: int, b: int, b_len: int) -> bool {
    a_len == 0 || b_len == 0 || a + a_len <= b || b + b_len <= a
}

/// The arrays of a storage of the given capacity, placed by `l`, lie past the
/// header, inside an image of `len` bytes, and apart from each other.
pub open spec fn layout_fits(l: ArrayLayout, cap: int, len: int) -> bool {
    let dn = 16 * cap;
    let sn = 4 * cap;
    let ln = 4 * cap;
    let fnn = (cap + 7) / 8;
    &&& 80 <= l.doc && l.doc + dn <= len
    &&& 80 <= l.starts && l.starts + sn <= len
    &&& 80 <= l.lengths && l.lengths + ln <= len
    &&& 80 <= l.flags && l.flags + fnn <= len
    &&& spans_apart(l.doc, dn, l.starts, sn)
    &&& spans_apart(l.doc, dn, l.lengths, ln)
    &&& spans_apart(l.doc, dn, l.flags, fnn)
    &&& spans_apart(l.starts, sn, l.lengths, ln)
    &&& spans_apart(l.starts, sn, l.flags, fnn)
    &&& spans_apart(l.lengths, ln, l.flags, fnn)
}

/// The canonical layout fits every image of at least the canonical size.
pub proof fn lemma_canonical_layout_fits(cap: int, len: int)
    requires
        0 <= cap,
        spec_file_size(cap) <= len,
    ensures
        layout_fits(canonical_layout(cap), cap, len),
{
    assert((cap + 7) / 8 >= 0);
}

/// Memory-mapped posting storage header containing metadata and configuration
#[derive(Debug, Clone, Copy, PartialEq)]
pub struct PostingStorageHeader {
    /// File format header with magic bytes and checksum
    pub file_header: FileHeader,
    /// Maximum number of postings this storage can hold
    pub capacity: u32,
    /// Current number of postings stored (including deleted ones)
    pub current_count: u32,
    /// Number of active (non-deleted) postings
    pub active_count: u32,
    /// Offset to start of document IDs array in the file
    pub document_ids_offset: u64,
    /// Offset to start of starts array in the file
    pub starts_offset: u64,
    /// Offset to start of lengths array in the file
    pub lengths_offset: u64,
    /// Offset to start of deleted flags bitset in the file
    pub deleted_flags_offset: u64,
    /// Size of each document ID in bytes (16 bytes for u128)
    pub document_id_size: u32,
    /// Reserved bytes for future use
    pub reserved: [u8; 12],
}

/// The header `h` is what the first 80 bytes of `s` encode.
pub open spec fn header_in_image(s: Seq<u8>, h: PostingStorageHeader) -> bool {
    &&& s.len() >= 80
    &&& s.subrange(0, 4) == h.file_header.magic@
    &&& u32_le(s, 4) == h.file_header.version
    &&& u64_le(s, 8) == h.file_header.header_size
    &&& u32_le(s, 16) == h.file_header.checksum
    &&& u32_le(s, 20) == h.capacity
    &&& u32_le(s, 24) == h.current_count
    &&& u32_le(s, 28) == h.active_count
    &&& u64_le(s, 32) == h.document_ids_offset
    &&& u64_le(s, 40) == h.starts_offset
    &&& u64_le(s, 48) == h.lengths_offset
    &&& u64_le(s, 56) == h.deleted_flags_offset
    &&& u32_le(s, 64) == h.document_id_size
    &&& s.subrange(68, 80) == h.reserved@
}

/// Why a header with these magic bytes, version, document id size and counts
/// fails validation, if it does; the checks go in this order.
pub open spec fn header_fields_failure(
    magic: Seq<u8>,
    version: u32,
    document_id_size: u32,
    capacity: u32,
    current_count: u32,
    active_count: u32,
) -> Option<ErrorModel> {
    if magic != magic_seq() {
        Some(ErrorModel::Corruption("Invalid magic bytes in file header"@))
    } else if version != POSTING_STORAGE_VERSION {
        Some(ErrorModel::Corruption(
            "Unsupported posting storage version: expected "@ + decimal(POSTING_STORAGE_VERSION as nat)
                + ", found "@ + decimal(version as nat),
        ))
    } else if document_id_size != 16 {
        Some(ErrorModel::Corruption(
            "Invalid document ID size: expected 16 bytes, found "@ + decimal(document_id_size as nat),
        ))
    } else if current_count > capacity {
        Some(ErrorModel::Corruption(
            "Current count "@ + decimal(current_count as nat) + " exceeds capacity "@ + decimal(
                capacity as nat,
            ),
        ))
    } else if active_count > current_count {
        Some(ErrorModel::Corruption(
            "Active count "@ + decimal(active_count as nat) + " exceeds current count "@ + decimal(
                current_count as nat,
            ),
        ))
    } else {
        None
    }
}

/// Why [`PostingStorageHeader::validate`] rejects a header, if it does.
pub open spec fn header_failure(h: PostingStorageHeader) -> Option<ErrorModel> {
    header_fields_failure(
        h.file_header.magic@,
        h.file_header.version,
        h.document_id_size,
        h.capacity,
        h.current_count,
        h.active_count,
    )
}

impl PostingStorageHeader {
    /// Encoded size of the header structure in bytes
    pub const SIZE: usize = 80;

    /// The header passes [`PostingStorageHeader::validate`].
    pub open spec fn is_valid(self) -> bool {
        &&& self.file_header.magic@ == magic_seq()
        &&& self.file_header.version == POSTING_STORAGE_VERSION
        &&& self.document_id_size == 16
        &&& self.current_count <= self.capacity
        &&& self.active_count <= self.current_count
    }

    /// The layout that this header's offsets name.
    pub open spec fn layout(self) -> ArrayLayout {
        ArrayLayout {
            doc: self.document_ids_offset as int,
            starts: self.starts_offset as int,
            lengths: self.lengths_offset as int,
            flags: self.deleted_flags_offset as int,
        }
    }

    /// The array offsets are those the format defines for the header's capacity.
    pub open spec fn has_canonical_layout(self) -> bool {
        &&& self.document_ids_offset == 80
        &&& self.starts_offset == starts_base(self.capacity as int)
        &&& self.lengths_offset == lengths_base(self.capacity as int)
        &&& self.deleted_flags_offset == flags_base(self.capacity as int)
    }

    /// Create a new posting storage header
    pub fn new(capacity: usize) -> (r: Result<PostingStorageHeader, ShardexError>)
        ensures
            r is Ok <==> (1 <= capacity <= u32::MAX),
            capacity == 0 ==> (r matches Err(e) && e.model() == ErrorModel::Config("Capacity cannot be zero"@)),
            capacity > u32::MAX ==> (r matches Err(e) && e.model() == ErrorModel::Config(
                capacity_exceeds_text(capacity as nat),
            )),
            r matches Ok(h) ==> {
                &&& h.is_valid()
                &&& h.has_canonical_layout()
                &&& h.capacity == capacity
                &&& h.current_count == 0
                &&& h.active_count == 0
                &&& h.file_header.header_size == FILE_HEADER_SIZE
                &&& h.file_header.checksum == 0
                &&& h.reserved@ == Seq::new(12, |i: int| 0u8)
            },
    {
        if capacity == 0 {
            return Err(ShardexError::Config(owned("Capacity cannot be zero")));
        }
        if capacity > 4294967295usize {
            let message = with_number(owned("Capacity "), capacity as u128);
            let message = with_text(message, " exceeds maximum ");
            return Err(ShardexError::Config(with_number(message, 4294967295u128)));
        }
        let cap = capacity as u64;
        let document_ids_offset: u64 = 80;
        let starts_offset: u64 = document_ids_offset + cap * 16;
        let lengths_offset: u64 = starts_offset + cap * 4;
        let deleted_flags_offset: u64 = lengths_offset + cap * 4;
        let magic = POSTING_STORAGE_MAGIC;
        assert(magic@ =~= magic_seq());
        let reserved: [u8; 12] = [0u8; 12];
        assert(reserved@ =~= Seq::new(12, |i: int| 0u8));
        Ok(PostingStorageHeader {
            file_header: FileHeader::new_without_checksum(
                magic,
                POSTING_STORAGE_VERSION,
                FILE_HEADER_SIZE as u64,
            ),
            capacity: capacity as u32,
            current_count: 0,
            active_count: 0,
            document_ids_offset,
            starts_offset,
            lengths_offset,
            deleted_flags_offset,
            document_id_size: 16,
            reserved,
        })
    }

    /// Validate the header magic bytes, version, document id size and counts.
    pub fn validate(&self) -> (r: Result<(), ShardexError>)
        ensures
            r is Ok <==> self.is_valid(),
            r is Ok <==> header_failure(*self) is None,
            r matches Err(e) ==> Some(e.model()) == header_failure(*self),
    {
        let magic = POSTING_STORAGE_MAGIC;
        assert(magic@ =~= magic_seq());
        let m = self.file_header.validate_magic(magic);
        if m.is_err() {
            return m;
        }
        if self.file_header.version != POSTING_STORAGE_VERSION {
            let message = with_number(
                owned("Unsupported posting storage version: expected "),
                POSTING_STORAGE_VERSION as u128,
            );
            let message = with_text(message, ", found ");
            return Err(ShardexError::Corruption(with_number(message, self.file_header.version as u128)));
        }
        if self.document_id_size != 16 {
            let message = with_number(
                owned("Invalid document ID size: expected 16 bytes, found "),
                self.document_id_size as u128,
            );
            return Err(ShardexError::Corruption(message));
        }
        if self.current_count > self.capacity {
            let message = with_number(owned("Current count "), self.current_count as u128);
            let message = with_text(message, " exceeds capacity ");
            return Err(ShardexError::Corruption(with_number(message, self.capacity as u128)));
        }
        if self.active_count > self.current_count {
            let message = with_number(owned("Active count "), self.active_count as u128);
            let message = with_text(message, " exceeds current count ");
            return Err(ShardexError::Corruption(with_number(message, self.current_count as u128)));
        }
        Ok(())
    }

    /// Update the checksum based on posting data
    pub fn update_checksum(&mut self, posting_data: &[u8])
        ensures
            *final(self) == (PostingStorageHeader {
                file_header: FileHeader { checksum: checksum_of(posting_data@), ..old(self).file_header },
                ..*old(self)
            }),
    {
        self.file_header.update_checksum(posting_data);
    }

    /// Calculate the total file size needed for this configuration
    pub fn calculate_file_size(&self) -> (n: usize)
        requires
            spec_file_size(self.capacity as int) <= usize::MAX,
        ensures
            n == spec_file_size(self.capacity as int),
    {
        let capacity = self.capacity as u64;
        let document_ids_size = capacity * 16;
        let starts_size = capacity * 4;
        let lengths_size = capacity * 4;
        let deleted_flags_size = (capacity + 7) / 8;
        (80 + document_ids_size + starts_size + lengths_size + deleted_flags_size) as usize
    }
}

/// The message for a capacity above the largest the format can hold.
pub open spec fn capacity_exceeds_text(capacity: nat) -> Seq<char> {
    "Capacity "@ + decimal(capacity) + " exceeds maximum "@ + decimal(u32::MAX as nat)
}

/// One stored posting: document id, start position and length.
pub struct PostingRecord {
    pub document_id: u128,
    pub start: u32,
    pub length: u32,
}

/// Abstract contents of a posting storage.
pub struct PostingStorageView {
    /// Maximum number of postings
    pub capacity: nat,
    /// Every stored posting, deleted ones included, in insertion order
    pub postings: Seq<PostingRecord>,
    /// The deleted flag of each stored posting
    pub deleted: Seq<bool>,
    /// The stored count of active postings
    pub active_count: nat,
    /// Whether modifications are refused
    pub read_only: bool,
}

impl PostingStorageView {
    /// Number of stored postings, deleted ones included.
    pub open spec fn current_count(self) -> nat {
        self.postings.len()
    }

    /// The flags run parallel to the postings and the counts are ordered.
    pub open spec fn is_well_formed(self) -> bool {
        &&& self.deleted.len() == self.postings.len()
        &&& self.active_count <= self.postings.len() <= self.capacity
    }

    /// The contents after appending an active posting.
    pub open spec fn add(self, rec: PostingRecord) -> PostingStorageView {
        PostingStorageView {
            postings: self.postings.push(rec),
            deleted: self.deleted.push(false),
            active_count: self.active_count + 1,
            ..self
        }
    }

    /// The contents after replacing the posting at `index`.
    pub open spec fn update(self, index: int, rec: PostingRecord) -> PostingStorageView {
        PostingStorageView { postings: self.postings.update(index, rec), ..self }
    }

    /// The contents after marking the posting at `index` deleted; the stored
    /// active count goes down by one (unless it is zero) when the posting was
    /// active, and stays as it is when the posting was already deleted.
    pub open spec fn remove(self, index: int) -> PostingStorageView {
        PostingStorageView {
            deleted: self.deleted.update(index, true),
            active_count: if self.deleted[index] {
                self.active_count
            } else if self.active_count > 0 {
                (self.active_count - 1) as nat
            } else {
                0
            },
            ..self
        }
    }

    /// Indices below `n` of active postings with the given document id, in increasing order.
    pub open spec fn matching_indices(self, doc: u128, n: int) -> Seq<usize>
        decreases n,
    {
        if n <= 0 {
            Seq::empty()
        } else if !self.deleted[n - 1] && self.postings[n - 1].document_id == doc {
            self.matching_indices(doc, n - 1).push((n - 1) as usize)
        } else {
            self.matching_indices(doc, n - 1)
        }
    }

    /// The active postings below `n` as (index, document id, start, length), in index order.
    pub open spec fn active_entries(self, n: int) -> Seq<(usize, u128, u32, u32)>
        decreases n,
    {
        if n <= 0 {
            Seq::empty()
        } else if !self.deleted[n - 1] {
            self.active_entries(n - 1).push(
                (
                    (n - 1) as usize,
                    self.postings[n - 1].document_id,
                    self.postings[n - 1].start,
                    self.postings[n - 1].length,
                ),
            )
        } else {
            self.active_entries(n - 1)
        }
    }

    /// Number of postings below `n` whose deleted flag is clear.
    pub open spec fn count_active(self, n: int) -> nat
        decreases n,
    {
        if n <= 0 {
            0
        } else if !self.deleted[n - 1] {
            self.count_active(n - 1) + 1
        } else {
            self.count_active(n - 1)
        }
    }

    /// Posting `i` has a sane range, and a zero document id only if it is deleted.
    pub open spec fn record_is_sane(self, i: int) -> bool {
        &&& self.postings[i].length <= u32::MAX / 2
        &&& self.postings[i].start + self.postings[i].length <= u32::MAX
        &&& (self.postings[i].document_id == 0 ==> self.deleted[i])
    }

    /// The stored active count matches the flags and every posting is sane.
    pub open spec fn data_consistent(self) -> bool {
        &&& self.count_active(self.current_count() as int) == self.active_count
        &&& forall|i: int| 0 <= i < self.current_count() ==> #[trigger] self.record_is_sane(i)
    }

    /// What the integrity check reports of posting `i`, if it is not sane; the
    /// checks go in this order.
    pub open spec fn record_failure(self, i: int) -> Option<Seq<char>> {
        let p = self.postings[i];
        if p.length > u32::MAX / 2 {
            Some("Posting "@ + decimal(i as nat) + " has unreasonable length: "@ + decimal(p.length as nat))
        } else if p.start + p.length > u32::MAX {
            Some(
                "Posting "@ + decimal(i as nat) + " position overflow: start="@ + decimal(p.start as nat)
                    + ", length="@ + decimal(p.length as nat),
            )
        } else if p.document_id == 0 && !self.deleted[i] {
            Some("Active posting "@ + decimal(i as nat) + " has invalid zero document ID"@)
        } else {
            None
        }
    }

    /// What the integrity check reports of the first posting among the first `n` that is not sane.
    pub open spec fn first_record_failure(self, n: int) -> Option<Seq<char>>
        decreases n,
    {
        if n <= 0 {
            None
        } else {
            match self.first_record_failure(n - 1) {
                Some(m) => Some(m),
                None => self.record_failure(n - 1),
            }
        }
    }

    /// What the integrity check reports of contents that are not consistent: a
    /// stored active count that differs from the clear flags, or else the first
    /// posting that is not sane.
    pub open spec fn integrity_failure(self) -> Option<Seq<char>> {
        let actual = self.count_active(self.current_count() as int);
        if actual != self.active_count {
            Some(
                "Active count mismatch: header claims "@ + decimal(self.active_count) + ", actual count is "@
                    + decimal(actual),
            )
        } else {
            self.first_record_failure(self.current_count() as int)
        }
    }
}

/// Once a failing posting is found among the first `n`, it stays the first one;
/// and none fails among the first `n` exactly when they are all sane.
proof fn lemma_first_record_failure(v: PostingStorageView, n: int)
    requires
        0 <= n <= v.current_count(),
    ensures
        v.first_record_failure(n) is Some ==> v.first_record_failure(v.current_count() as int)
            == v.first_record_failure(n),
        v.first_record_failure(n) is None <==> forall|i: int| 0 <= i < n ==> #[trigger] v.record_is_sane(i),
    decreases v.current_count() - n,
{
    lemma_first_record_failure_prefix(v, n);
    if n < v.current_count() {
        lemma_first_record_failure(v, n + 1);
    }
}

/// No posting among the first `n` fails exactly when they are all sane.
proof fn lemma_first_record_failure_prefix(v: PostingStorageView, n: int)
    requires
        0 <= n,
    ensures
        v.first_record_failure(n) is None <==> forall|i: int| 0 <= i < n ==> #[trigger] v.record_is_sane(i),
    decreases n,
{
    if n > 0 {
        lemma_first_record_failure_prefix(v, n - 1);
        if v.first_record_failure(n) is None {
            assert forall|i: int| 0 <= i < n implies #[trigger] v.record_is_sane(i) by {
                if i == n - 1 {
                    assert(v.record_failure(i) is None);
                }
            }
        } else if v.first_record_failure(n - 1) is None {
            assert(!v.record_is_sane(n - 1));
        }
    }
}

/// Bit `k` of byte `b`.
pub open spec fn flag_bit(b: u8, k: int) -> bool {
    ((b >> (k as u8)) & 1u8) == 1u8
}

/// Offset of the document id of posting `i`.
pub open spec fn doc_off(l: ArrayLayout, i: int) -> int {
    l.doc + 16 * i
}

/// Offset of the start of posting `i`.
pub open spec fn start_off(l: ArrayLayout, i: int) -> int {
    l.starts + 4 * i
}

/// Offset of the length of posting `i`.
pub open spec fn length_off(l: ArrayLayout, i: int) -> int {
    l.lengths + 4 * i
}

/// Offset of the byte holding the deleted flag of posting `i`.
pub open spec fn flag_off(l: ArrayLayout, i: int) -> int {
    l.flags + i / 8
}

/// Posting `i` as encoded in image `s` with layout `l`.
pub open spec fn image_record(s: Seq<u8>, l: ArrayLayout, i: int) -> PostingRecord {
    PostingRecord {
        document_id: u128_le(s, doc_off(l, i)) as u128,
        start: u32_le(s, start_off(l, i)) as u32,
        length: u32_le(s, length_off(l, i)) as u32,
    }
}

/// Deleted flag of posting `i` as encoded in image `s` with layout `l`.
pub open spec fn image_deleted(s: Seq<u8>, l: ArrayLayout, i: int) -> bool {
    flag_bit(s[flag_off(l, i)], i % 8)
}

/// The contents that image `s` encodes for the given layout, capacity and counts.
pub open spec fn image_view(s: Seq<u8>, l: ArrayLayout, cap: nat, count: nat, active: nat, ro: bool) -> PostingStorageView {
    PostingStorageView {
        capacity: cap,
        postings: Seq::new(count, |i: int| image_record(s, l, i)),
        deleted: Seq::new(count, |i: int| image_deleted(s, l, i)),
        active_count: active,
        read_only: ro,
    }
}

/// The layout that the header of image `s` names.
pub open spec fn image_layout(s: Seq<u8>) -> ArrayLayout {
    ArrayLayout { doc: u64_le(s, 32), starts: u64_le(s, 40), lengths: u64_le(s, 48), flags: u64_le(s, 56) }
}

/// What opening image `s` yields: the contents it encodes, if its header is valid,
/// its size sufficient, its checksum right, and its arrays placed apart from
/// each other and inside the image.
pub open spec fn spec_open(s: Seq<u8>, ro: bool) -> Option<PostingStorageView> {
    let cap = u32_le(s, 20);
    let cur = u32_le(s, 24);
    let act = u32_le(s, 28);
    if {
        &&& s.len() >= 80
        &&& s.subrange(0, 4) == magic_seq()
        &&& u32_le(s, 4) == POSTING_STORAGE_VERSION
        &&& u32_le(s, 64) == 16
        &&& cur <= cap
        &&& act <= cur
        &&& s.len() >= spec_file_size(cap)
        &&& u32_le(s, 16) == checksum_of(s.subrange(80, spec_file_size(cap)))
        &&& layout_fits(image_layout(s), cap, s.len() as int)
    } {
        Some(image_view(s, image_layout(s), cap as nat, cur as nat, act as nat, ro))
    } else {
        None
    }
}

/// Why an image fails to open, if it does; the checks go in this order: the
/// header's size, the header's fields, the image's size, the checksum, and
/// the placement of the arrays.
pub open spec fn open_failure(s: Seq<u8>) -> Option<ErrorModel> {
    let cap = u32_le(s, 20);
    if s.len() < 80 {
        Some(ErrorModel::Corruption("File too small for posting storage header"@))
    } else if header_fields_failure(
        s.subrange(0, 4),
        u32_le(s, 4) as u32,
        u32_le(s, 64) as u32,
        cap as u32,
        u32_le(s, 24) as u32,
        u32_le(s, 28) as u32,
    ) is Some {
        header_fields_failure(
            s.subrange(0, 4),
            u32_le(s, 4) as u32,
            u32_le(s, 64) as u32,
            cap as u32,
            u32_le(s, 24) as u32,
            u32_le(s, 28) as u32,
        )
    } else if s.len() < spec_file_size(cap) {
        Some(ErrorModel::Corruption("File too small for declared posting capacity"@))
    } else if u32_le(s, 16) != checksum_of(s.subrange(80, spec_file_size(cap))) {
        Some(ErrorModel::Corruption("Checksum mismatch"@))
    } else if !layout_fits(image_layout(s), cap, s.len() as int) {
        Some(ErrorModel::Corruption("Posting storage arrays overlap or lie outside the file"@))
    } else {
        None
    }
}

/// High-performance posting storage over a byte image.
///
/// The image is what the storage file holds; the caller loads it from and
/// flushes it to disk.
pub struct PostingStorage {
    /// The byte image of the storage file
    mmap_file: MemoryMappedFile,
    /// Storage metadata and configuration
    header: PostingStorageHeader,
    /// Current capacity (cached from header for performance)
    capacity: usize,
    /// Flag indicating if storage is read-only
    read_only: bool,
}

impl View for PostingStorage {
    type V = PostingStorageView;

    closed spec fn view(&self) -> PostingStorageView {
        image_view(
            self.mmap_file@,
            self.header.layout(),
            self.capacity as nat,
            self.header.current_count as nat,
            self.header.active_count as nat,
            self.read_only,
        )
    }
}

impl PostingStorage {
    /// The storage's internal invariant: a valid header whose arrays fit apart
    /// inside the image, encoded at the start of an image large enough for the
    /// capacity, with a checksum that matches the data.
    pub closed spec fn wf(&self) -> bool {
        let cap = self.header.capacity as int;
        &&& self.capacity == self.header.capacity
        &&& self.header.is_valid()
        &&& layout_fits(self.header.layout(), cap, self.mmap_file@.len() as int)
        &&& self.mmap_file@.len() >= spec_file_size(cap)
        &&& header_in_image(self.mmap_file@, self.header)
        &&& self.header.file_header.checksum == checksum_of(
            self.mmap_file@.subrange(80, spec_file_size(cap)),
        )
    }

    /// Get the total capacity
    pub fn capacity(&self) -> (n: usize)
        requires
            self.wf(),
        ensures
            n == self@.capacity,
    {
        self.capacity
    }

    /// Get the current count of postings (including deleted ones)
    pub fn current_count(&self) -> (n: usize)
        requires
            self.wf(),
        ensures
            n == self@.current_count(),
    {
        self.header.current_count as usize
    }

    /// Get the count of active (non-deleted) postings
    pub fn active_count(&self) -> (n: usize)
        requires
            self.wf(),
        ensures
            n == self@.active_count,
    {
        self.header.active_count as usize
    }

    /// Check if the storage is read-only
    pub fn is_read_only(&self) -> (b: bool)
        ensures
            b == self@.read_only,
    {
        self.read_only
    }

    /// Check if the storage is at capacity
    pub fn is_full(&self) -> (b: bool)
        requires
            self.wf(),
        ensures
            b == (self@.current_count() >= self@.capacity),
    {
        self.current_count() >= self.capacity()
    }

    /// Get remaining capacity
    pub fn remaining_capacity(&self) -> (n: usize)
        requires
            self.wf(),
        ensures
            n == self@.capacity - self@.current_count(),
    {
        self.capacity().saturating_sub(self.current_count())
    }

    /// Get the underlying byte image for external integrity validation and persistence
    pub fn memory_mapped_file(&self) -> (f: &MemoryMappedFile)
        ensures
            f@ == self.image(),
    {
        &self.mmap_file
    }

    /// The byte image of the storage.
    pub closed spec fn image(&self) -> Seq<u8> {
        self.mmap_file@
    }
}

/// The deleted flag of posting `j` lies inside the bitset.
proof fn lemma_flag_in_range(j: int, cap: int)
    requires
        0 <= j < cap,
    ensures
        0 <= j / 8,
        j / 8 < (cap + 7) / 8,
{
    assert(0 <= j / 8 && j / 8 < (cap + 7) / 8) by (nonlinear_arith)
        requires
            0 <= j < cap,
    ;
}

/// What a write to `[woff, woff + n)` leaves of the postings encoded in an image.
proof fn lemma_image_frame(new: Seq<u8>, old: Seq<u8>, l: ArrayLayout, cap: int, count: int, woff: int, n: int)
    requires
        same_outside(new, old, woff, n),
        layout_fits(l, cap, old.len() as int),
        0 <= count <= cap,
        0 <= n,
    ensures
        forall|j: int|
            0 <= j < count && (doc_off(l, j) + 16 <= woff || woff + n <= doc_off(l, j)) ==> #[trigger] image_record(new, l, j).document_id
                == image_record(old, l, j).document_id,
        forall|j: int|
            0 <= j < count && (start_off(l, j) + 4 <= woff || woff + n <= start_off(l, j))
                ==> #[trigger] image_record(new, l, j).start == image_record(old, l, j).start,
        forall|j: int|
            0 <= j < count && (length_off(l, j) + 4 <= woff || woff + n <= length_off(l, j))
                ==> #[trigger] image_record(new, l, j).length == image_record(old, l, j).length,
        forall|j: int|
            0 <= j < count && (flag_off(l, j) < woff || woff + n <= flag_off(l, j))
                ==> #[trigger] image_deleted(new, l, j) == image_deleted(old, l, j),
{
    assert forall|j: int|
        0 <= j < count && (doc_off(l, j) + 16 <= woff || woff + n <= doc_off(l, j)) implies #[trigger] image_record(new, l, j).document_id
            == image_record(old, l, j).document_id by {
        lemma_u128_frame(new, old, doc_off(l, j), woff, n);
    }
    assert forall|j: int|
        0 <= j < count && (start_off(l, j) + 4 <= woff || woff + n <= start_off(l, j))
            implies #[trigger] image_record(new, l, j).start == image_record(old, l, j).start by {
        lemma_u32_frame(new, old, start_off(l, j), woff, n);
    }
    assert forall|j: int|
        0 <= j < count && (length_off(l, j) + 4 <= woff || woff + n <= length_off(l, j))
            implies #[trigger] image_record(new, l, j).length == image_record(old, l, j).length by {
        lemma_u32_frame(new, old, length_off(l, j), woff, n);
    }
    assert forall|j: int|
        0 <= j < count && (flag_off(l, j) < woff || woff + n <= flag_off(l, j))
            implies #[trigger] image_deleted(new, l, j) == image_deleted(old, l, j) by {
        lemma_flag_in_range(j, cap);
        assert(new[flag_off(l, j)] == old[flag_off(l, j)]);
    }
}

/// Two images that encode the same header and agree past it are the same image:
/// the header's fields cover its 80 bytes.
proof fn lemma_header_image_unique(new: Seq<u8>, old: Seq<u8>, h: PostingStorageHeader)
    requires
        header_in_image(new, h),
        header_in_image(old, h),
        same_outside(new, old, 0, 80),
    ensures
        new == old,
{
    lemma_u32_le_determines(new, old, 4);
    lemma_u64_le_determines(new, old, 8);
    lemma_u32_le_determines(new, old, 16);
    lemma_u32_le_determines(new, old, 20);
    lemma_u32_le_determines(new, old, 24);
    lemma_u32_le_determines(new, old, 28);
    lemma_u64_le_determines(new, old, 32);
    lemma_u64_le_determines(new, old, 40);
    lemma_u64_le_determines(new, old, 48);
    lemma_u64_le_determines(new, old, 56);
    lemma_u32_le_determines(new, old, 64);
    assert forall|i: int| 0 <= i < new.len() implies new[i] == old[i] by {
        if 0 <= i < 4 {
            assert(new.subrange(0, 4)[i] == old.subrange(0, 4)[i]);
        } else if 68 <= i < 80 {
            assert(new.subrange(68, 80)[i - 68] == old.subrange(68, 80)[i - 68]);
        }
    }
    assert(new =~= old);
}

/// A write inside the header leaves the data region, hence the contents, as they were.
proof fn lemma_header_write_keeps_data(
    new: Seq<u8>,
    old: Seq<u8>,
    l: ArrayLayout,
    cap: int,
    count: int,
    active: int,
    ro: bool,
)
    requires
        same_outside(new, old, 0, 80),
        old.len() >= spec_file_size(cap),
        layout_fits(l, cap, old.len() as int),
        0 <= count <= cap,
        0 <= active,
    ensures
        new.subrange(80, spec_file_size(cap)) == old.subrange(80, spec_file_size(cap)),
        image_view(new, l, cap as nat, count as nat, active as nat, ro) == image_view(
            old,
            l,
            cap as nat,
            count as nat,
            active as nat,
            ro,
        ),
{
    lemma_image_frame(new, old, l, cap, count, 0, 80);
    assert(new.subrange(80, spec_file_size(cap)) =~= old.subrange(80, spec_file_size(cap)));
    let vn = image_view(new, l, cap as nat, count as nat, active as nat, ro);
    let vo = image_view(old, l, cap as nat, count as nat, active as nat, ro);
    assert forall|j: int| 0 <= j < count implies vn.postings[j] == vo.postings[j] by {
        assert(image_record(new, l, j).document_id == image_record(old, l, j).document_id);
        assert(image_record(new, l, j).start == image_record(old, l, j).start);
        assert(image_record(new, l, j).length == image_record(old, l, j).length);
    }
    assert forall|j: int| 0 <= j < count implies vn.deleted[j] == vo.deleted[j] by {
        assert(image_deleted(new, l, j) == image_deleted(old, l, j));
    }
    assert(vn.postings =~= vo.postings);
    assert(vn.deleted =~= vo.deleted);
}

/// Encodes `h` into the first 80 bytes of the image.
fn write_header_image(mmap: &mut MemoryMappedFile, h: &PostingStorageHeader)
    requires
        old(mmap)@.len() >= 80,
    ensures
        header_in_image(final(mmap)@, *h),
        same_outside(final(mmap)@, old(mmap)@, 0, 80),
{
    let ghost s0 = mmap@;
    write_magic(mmap, h.file_header.magic);
    let ghost prev = mmap@;
    mmap.write_u32(4, h.file_header.version);
    proof {
        assert(mmap@.subrange(0, 4) =~= prev.subrange(0, 4));
    }
    let ghost prev = mmap@;
    mmap.write_u64(8, h.file_header.header_size);
    proof {
        assert(mmap@.subrange(0, 4) =~= prev.subrange(0, 4));
        lemma_u32_frame(mmap@, prev, 4, 8, 8);
    }
    let ghost prev = mmap@;
    mmap.write_u32(16, h.file_header.checksum);
    proof {
        assert(mmap@.subrange(0, 4) =~= prev.subrange(0, 4));
        lemma_u32_frame(mmap@, prev, 4, 16, 4);
        lemma_u64_frame(mmap@, prev, 8, 16, 4);
    }
    let ghost prev = mmap@;
    mmap.write_u32(20, h.capacity);
    proof {
        assert(mmap@.subrange(0, 4) =~= prev.subrange(0, 4));
        lemma_u32_frame(mmap@, prev, 4, 20, 4);
        lemma_u64_frame(mmap@, prev, 8, 20, 4);
        lemma_u32_frame(mmap@, prev, 16, 20, 4);
    }
    let ghost prev = mmap@;
    mmap.write_u32(24, h.current_count);
    proof {
        assert(mmap@.subrange(0, 4) =~= prev.subrange(0, 4));
        lemma_u32_frame(mmap@, prev, 4, 24, 4);
        lemma_u64_frame(mmap@, prev, 8, 24, 4);
        lemma_u32_frame(mmap@, prev, 16, 24, 4);
        lemma_u32_frame(mmap@, prev, 20, 24, 4);
    }
    let ghost prev = mmap@;
    mmap.write_u32(28, h.active_count);
    proof {
        assert(mmap@.subrange(0, 4) =~= prev.subrange(0, 4));
        lemma_u32_frame(mmap@, prev, 4, 28, 4);
        lemma_u64_frame(mmap@, prev, 8, 28, 4);
        lemma_u32_frame(mmap@, prev, 16, 28, 4);
        lemma_u32_frame(mmap@, prev, 20, 28, 4);
        lemma_u32_frame(mmap@, prev, 24, 28, 4);
    }
    let ghost prev = mmap@;
    mmap.write_u64(32, h.document_ids_offset);
    proof {
        assert(mmap@.subrange(0, 4) =~= prev.subrange(0, 4));
        lemma_u32_frame(mmap@, prev, 4, 32, 8);
        lemma_u64_frame(mmap@, prev, 8, 32, 8);
        lemma_u32_frame(mmap@, prev, 16, 32, 8);
        lemma_u32_frame(mmap@, prev, 20, 32, 8);
        lemma_u32_frame(mmap@, prev, 24, 32, 8);
        lemma_u32_frame(mmap@, prev, 28, 32, 8);
    }
    let ghost prev = mmap@;
    mmap.write_u64(40, h.starts_offset);
    proof {
        assert(mmap@.subrange(0, 4) =~= prev.subrange(0, 4));
        lemma_u32_frame(mmap@, prev, 4, 40, 8);
        lemma_u64_frame(mmap@, prev, 8, 40, 8);
        lemma_u32_frame(mmap@, prev, 16, 40, 8);
        lemma_u32_frame(mmap@, prev, 20, 40, 8);
        lemma_u32_frame(mmap@, prev, 24, 40, 8);
        lemma_u32_frame(mmap@, prev, 28, 40, 8);
        lemma_u64_frame(mmap@, prev, 32, 40, 8);
    }
    let ghost prev = mmap@;
    mmap.write_u64(48, h.lengths_offset);
    proof {
        assert(mmap@.subrange(0, 4) =~= prev.subrange(0, 4));
        lemma_u32_frame(mmap@, prev, 4, 48, 8);
        lemma_u64_frame(mmap@, prev, 8, 48, 8);
        lemma_u32_frame(mmap@, prev, 16, 48, 8);
        lemma_u32_frame(mmap@, prev, 20, 48, 8);
        lemma_u32_frame(mmap@, prev, 24, 48, 8);
        lemma_u32_frame(mmap@, prev, 28, 48, 8);
        lemma_u64_frame(mmap@, prev, 32, 48, 8);
        lemma_u64_frame(mmap@, prev, 40, 48, 8);
    }
    let ghost prev = mmap@;
    mmap.write_u64(56, h.deleted_flags_offset);
    proof {
        assert(mmap@.subrange(0, 4) =~= prev.subrange(0, 4));
        lemma_u32_frame(mmap@, prev, 4, 56, 8);
        lemma_u64_frame(mmap@, prev, 8, 56, 8);
        lemma_u32_frame(mmap@, prev, 16, 56, 8);
        lemma_u32_frame(mmap@, prev, 20, 56, 8);
        lemma_u32_frame(mmap@, prev, 24, 56, 8);
        lemma_u32_frame(mmap@, prev, 28, 56, 8);
        lemma_u64_frame(mmap@, prev, 32, 56, 8);
        lemma_u64_frame(mmap@, prev, 40, 56, 8);
        lemma_u64_frame(mmap@, prev, 48, 56, 8);
    }
    let ghost prev = mmap@;
    mmap.write_u32(64, h.document_id_size);
    proof {
        assert(mmap@.subrange(0, 4) =~= prev.subrange(0, 4));
        lemma_u32_frame(mmap@, prev, 4, 64, 4);
        lemma_u64_frame(mmap@, prev, 8, 64, 4);
        lemma_u32_frame(mmap@, prev, 16, 64, 4);
        lemma_u32_frame(mmap@, prev, 20, 64, 4);
        lemma_u32_frame(mmap@, prev, 24, 64, 4);
        lemma_u32_frame(mmap@, prev, 28, 64, 4);
        lemma_u64_frame(mmap@, prev, 32, 64, 4);
        lemma_u64_frame(mmap@, prev, 40, 64, 4);
        lemma_u64_frame(mmap@, prev, 48, 64, 4);
        lemma_u64_frame(mmap@, prev, 56, 64, 4);
    }
    let ghost prev = mmap@;
    write_reserved(mmap, h.reserved);
    proof {
        assert(mmap@.subrange(0, 4) =~= prev.subrange(0, 4));
        lemma_u32_frame(mmap@, prev, 4, 68, 12);
        lemma_u64_frame(mmap@, prev, 8, 68, 12);
        lemma_u32_frame(mmap@, prev, 16, 68, 12);
        lemma_u32_frame(mmap@, prev, 20, 68, 12);
        lemma_u32_frame(mmap@, prev, 24, 68, 12);
        lemma_u32_frame(mmap@, prev, 28, 68, 12);
        lemma_u64_frame(mmap@, prev, 32, 68, 12);
        lemma_u64_frame(mmap@, prev, 40, 68, 12);
        lemma_u64_frame(mmap@, prev, 48, 68, 12);
        lemma_u64_frame(mmap@, prev, 56, 68, 12);
        lemma_u32_frame(mmap@, prev, 64, 68, 12);
    }
    assert(same_outside(mmap@, s0, 0, 80));
}

/// Writes the magic bytes at the start of the image.
fn write_magic(mmap: &mut MemoryMappedFile, magic: [u8; 4])
    requires
        old(mmap)@.len() >= 80,
    ensures
        final(mmap)@.subrange(0, 4) == magic@,
        same_outside(final(mmap)@, old(mmap)@, 0, 4),
{
    mmap.write_u8(0, magic[0]);
    mmap.write_u8(1, magic[1]);
    mmap.write_u8(2, magic[2]);
    mmap.write_u8(3, magic[3]);
    assert(mmap@.subrange(0, 4) =~= magic@);
}

/// Writes the reserved bytes at the end of the header.
fn write_reserved(mmap: &mut MemoryMappedFile, reserved: [u8; 12])
    requires
        old(mmap)@.len() >= 80,
    ensures
        final(mmap)@.subrange(68, 80) == reserved@,
        same_outside(final(mmap)@, old(mmap)@, 68, 12),
{
    mmap.write_u8(68, reserved[0]);
    mmap.write_u8(69, reserved[1]);
    mmap.write_u8(70, reserved[2]);
    mmap.write_u8(71, reserved[3]);
    mmap.write_u8(72, reserved[4]);
    mmap.write_u8(73, reserved[5]);
    mmap.write_u8(74, reserved[6]);
    mmap.write_u8(75, reserved[7]);
    mmap.write_u8(76, reserved[8]);
    mmap.write_u8(77, reserved[9]);
    mmap.write_u8(78, reserved[10]);
    mmap.write_u8(79, reserved[11]);
    assert(mmap@.subrange(68, 80) =~= reserved@);
}

/// Setting or clearing one bit of a byte leaves the other bits as they were.
proof fn lemma_set_bit(b: u8, bit: u8, k: u8)
    requires
        bit < 8,
        k < 8,
    ensures
        ((((b | (1u8 << bit)) >> k) & 1u8) == 1u8) == (k == bit || ((b >> k) & 1u8) == 1u8),
        ((((b & !(1u8 << bit)) >> k) & 1u8) == 1u8) == (k != bit && ((b >> k) & 1u8) == 1u8),
{
    assert(((((b | (1u8 << bit)) >> k) & 1u8) == 1u8) == (k == bit || ((b >> k) & 1u8) == 1u8))
        by (bit_vector)
        requires
            bit < 8,
            k < 8,
    ;
    assert(((((b & !(1u8 << bit)) >> k) & 1u8) == 1u8) == (k != bit && ((b >> k) & 1u8) == 1u8))
        by (bit_vector)
        requires
            bit < 8,
            k < 8,
    ;
}

impl PostingStorage {
    /// The header fields other than the checksum agree with the cached capacity,
    /// and the image is large enough for the capacity.
    closed spec fn layout_ok(&self) -> bool {
        &&& self.capacity == self.header.capacity
        &&& self.header.is_valid()
        &&& layout_fits(self.header.layout(), self.header.capacity as int, self.mmap_file@.len() as int)
        &&& self.mmap_file@.len() >= spec_file_size(self.header.capacity as int)
    }

    proof fn lemma_wf_layout(&self)
        requires
            self.wf(),
        ensures
            self.layout_ok(),
    {
    }

    /// Recomputes the checksum of the data region and re-encodes the header into the image.
    fn update_header(&mut self)
        requires
            old(self).layout_ok(),
        ensures
            final(self).wf(),
            final(self)@ == old(self)@,
            final(self).capacity == old(self).capacity,
            final(self).read_only == old(self).read_only,
            final(self).header.capacity == old(self).header.capacity,
            final(self).header.current_count == old(self).header.current_count,
            final(self).header.active_count == old(self).header.active_count,
            final(self).mmap_file@.len() == old(self).mmap_file@.len(),
            old(self).wf() ==> final(self).image() == old(self).image(),
    {
        let _len = self.mmap_file.len();
        let ghost s0 = self.mmap_file@;
        let ghost h0 = self.header;
        let fs = self.header.calculate_file_size();
        let c = self.mmap_file.checksum_range(80, fs);
        self.header.file_header.checksum = c;
        write_header_image(&mut self.mmap_file, &self.header);
        proof {
            if old(self).wf() {
                assert(self.header == h0);
                lemma_header_image_unique(self.mmap_file@, s0, h0);
            }
            lemma_header_write_keeps_data(
                self.mmap_file@,
                s0,
                self.header.layout(),
                self.header.capacity as int,
                self.header.current_count as int,
                self.header.active_count as int,
                self.read_only,
            );
        }
    }

    /// Writes the fields of posting `index` into the image.
    #[verifier::rlimit(60)]
    fn write_posting_at_index(&mut self, index: usize, document_id: DocumentId, start: u32, length: u32)
        requires
            old(self).layout_ok(),
            index < old(self).capacity,
        ensures
            final(self).layout_ok(),
            final(self).header == old(self).header,
            final(self).capacity == old(self).capacity,
            final(self).read_only == old(self).read_only,
            image_record(final(self).mmap_file@, final(self).header.layout(), index as int) == (
            PostingRecord { document_id: document_id.value(), start, length }),
            forall|j: int|
                0 <= j < old(self).capacity && j != index ==> #[trigger] image_record(
                    final(self).mmap_file@,
                    old(self).header.layout(),
                    j,
                ) == image_record(old(self).mmap_file@, old(self).header.layout(), j),
            forall|j: int|
                0 <= j < old(self).capacity ==> #[trigger] image_deleted(
                    final(self).mmap_file@,
                    old(self).header.layout(),
                    j,
                ) == image_deleted(old(self).mmap_file@, old(self).header.layout(), j),
    {
        let _len = self.mmap_file.len();
        let ghost cap = self.capacity as int;
        let ghost lay = self.header.layout();
        let ghost s0 = self.mmap_file@;
        let doc_offset = self.header.document_ids_offset as usize + index * 16;
        self.mmap_file.write_u128(doc_offset, document_id.raw());
        let ghost s1 = self.mmap_file@;
        proof {
            lemma_image_frame(s1, s0, lay, cap, cap, doc_off(lay, index as int), 16);
        }
        let start_offset = self.header.starts_offset as usize + index * 4;
        self.mmap_file.write_u32(start_offset, start);
        let ghost s2 = self.mmap_file@;
        proof {
            lemma_image_frame(s2, s1, lay, cap, cap, start_off(lay, index as int), 4);
        }
        let length_offset = self.header.lengths_offset as usize + index * 4;
        self.mmap_file.write_u32(length_offset, length);
        let ghost s3 = self.mmap_file@;
        proof {
            lemma_image_frame(s3, s2, lay, cap, cap, length_off(lay, index as int), 4);
            assert(image_record(s3, lay, index as int).document_id == document_id.value());
            assert forall|j: int| 0 <= j < cap && j != index implies #[trigger] image_record(
                s3,
                lay,
                j,
            ) == image_record(s0, lay, j) by {
                assert(image_record(s3, lay, j).document_id == image_record(s2, lay, j).document_id);
                assert(image_record(s2, lay, j).document_id == image_record(s1, lay, j).document_id);
                assert(image_record(s1, lay, j).document_id == image_record(s0, lay, j).document_id);
                assert(image_record(s3, lay, j).start == image_record(s2, lay, j).start);
                assert(image_record(s2, lay, j).start == image_record(s1, lay, j).start);
                assert(image_record(s1, lay, j).start == image_record(s0, lay, j).start);
                assert(image_record(s3, lay, j).length == image_record(s2, lay, j).length);
                assert(image_record(s2, lay, j).length == image_record(s1, lay, j).length);
                assert(image_record(s1, lay, j).length == image_record(s0, lay, j).length);
            }
            assert forall|j: int| 0 <= j < cap implies #[trigger] image_deleted(s3, lay, j)
                == image_deleted(s0, lay, j) by {
                lemma_flag_in_range(j, cap);
                assert(image_deleted(s3, lay, j) == image_deleted(s2, lay, j));
                assert(image_deleted(s2, lay, j) == image_deleted(s1, lay, j));
                assert(image_deleted(s1, lay, j) == image_deleted(s0, lay, j));
            }
        }
    }

    /// Reads the fields of posting `index` from the image.
    fn read_posting_at_index(&self, index: usize) -> (r: (DocumentId, u32, u32))
        requires
            self.layout_ok(),
            index < self.capacity,
        ensures
            r.0.value() == image_record(self.mmap_file@, self.header.layout(), index as int).document_id,
            r.1 == image_record(self.mmap_file@, self.header.layout(), index as int).start,
            r.2 == image_record(self.mmap_file@, self.header.layout(), index as int).length,
    {
        let _len = self.mmap_file.len();
        let doc_offset = self.header.document_ids_offset as usize + index * 16;
        let document_id = DocumentId::from_raw(self.mmap_file.read_u128(doc_offset));
        let start_offset = self.header.starts_offset as usize + index * 4;
        let start = self.mmap_file.read_u32(start_offset);
        let length_offset = self.header.lengths_offset as usize + index * 4;
        let length = self.mmap_file.read_u32(length_offset);
        (document_id, start, length)
    }

    /// Sets the deleted flag of posting `index` in the image.
    fn set_deleted_flag(&mut self, index: usize, deleted: bool)
        requires
            old(self).layout_ok(),
            index < old(self).capacity,
        ensures
            final(self).layout_ok(),
            final(self).header == old(self).header,
            final(self).capacity == old(self).capacity,
            final(self).read_only == old(self).read_only,
            image_deleted(final(self).mmap_file@, final(self).header.layout(), index as int) == deleted,
            forall|j: int|
                0 <= j < old(self).capacity ==> #[trigger] image_record(
                    final(self).mmap_file@,
                    old(self).header.layout(),
                    j,
                ) == image_record(old(self).mmap_file@, old(self).header.layout(), j),
            forall|j: int|
                0 <= j < old(self).capacity && j != index ==> #[trigger] image_deleted(
                    final(self).mmap_file@,
                    old(self).header.layout(),
                    j,
                ) == image_deleted(old(self).mmap_file@, old(self).header.layout(), j),
    {
        let _len = self.mmap_file.len();
        let ghost cap = self.capacity as int;
        let ghost lay = self.header.layout();
        let ghost s0 = self.mmap_file@;
        proof {
            lemma_flag_in_range(index as int, cap);
        }
        let byte_index = index / 8;
        let bit_index = (index % 8) as u8;
        let byte_offset = self.header.deleted_flags_offset as usize + byte_index;
        let current_byte = self.mmap_file.read_u8(byte_offset);
        let new_byte = if deleted {
            current_byte | (1u8 << bit_index)
        } else {
            current_byte & !(1u8 << bit_index)
        };
        self.mmap_file.write_u8(byte_offset, new_byte);
        let ghost s1 = self.mmap_file@;
        proof {
            lemma_update_same_outside(s0, byte_offset as int, new_byte);
            lemma_image_frame(s1, s0, lay, cap, cap, byte_offset as int, 1);
            assert forall|j: int| 0 <= j < cap implies #[trigger] image_record(s1, lay, j)
                == image_record(s0, lay, j) by {
                assert(image_record(s1, lay, j).document_id == image_record(s0, lay, j).document_id);
                assert(image_record(s1, lay, j).start == image_record(s0, lay, j).start);
                assert(image_record(s1, lay, j).length == image_record(s0, lay, j).length);
            }
            lemma_set_bit(current_byte, bit_index, bit_index);
            assert forall|j: int| 0 <= j < cap && j != index implies #[trigger] image_deleted(
                s1,
                lay,
                j,
            ) == image_deleted(s0, lay, j) by {
                lemma_flag_in_range(j, cap);
                if flag_off(lay, j) != byte_offset {
                    assert(image_deleted(s1, lay, j) == image_deleted(s0, lay, j));
                } else {
                    lemma_set_bit(current_byte, bit_index, (j % 8) as u8);
                }
            }
        }
    }

    /// Reads the deleted flag of posting `index` from the image.
    fn get_deleted_flag(&self, index: usize) -> (b: bool)
        requires
            self.layout_ok(),
            index < self.capacity,
        ensures
            b == image_deleted(self.mmap_file@, self.header.layout(), index as int),
    {
        let _len = self.mmap_file.len();
        proof {
            lemma_flag_in_range(index as int, self.capacity as int);
        }
        let byte_index = index / 8;
        let bit_index = (index % 8) as u8;
        let byte_offset = self.header.deleted_flags_offset as usize + byte_index;
        let current_byte = self.mmap_file.read_u8(byte_offset);
        ((current_byte >> bit_index) & 1u8) == 1u8
    }
}

impl PostingStorage {
    /// Create a new posting storage with the specified capacity (number of postings).
    ///
    /// The image is zero-filled and carries an encoded header with the checksum of its data.
    pub fn create(capacity: usize) -> (r: Result<PostingStorage, ShardexError>)
        requires
            capacity <= u32::MAX ==> spec_file_size(capacity as int) <= usize::MAX,
        ensures
            r is Ok <==> (1 <= capacity <= u32::MAX),
            capacity == 0 ==> (r matches Err(e) && e.model() == ErrorModel::Config("Capacity cannot be zero"@)),
            capacity > u32::MAX ==> (r matches Err(e) && e.model() == ErrorModel::Config(
                capacity_exceeds_text(capacity as nat),
            )),
            r matches Ok(st) ==> {
                &&& st.wf()
                &&& st@.is_well_formed()
                &&& st@ == (PostingStorageView {
                    capacity: capacity as nat,
                    postings: Seq::empty(),
                    deleted: Seq::empty(),
                    active_count: 0,
                    read_only: false,
                })
                &&& st.image().len() == spec_file_size(capacity as int)
            },
    {
        let header = match PostingStorageHeader::new(capacity) {
            Ok(h) => h,
            Err(e) => return Err(e),
        };
        let total_size = header.calculate_file_size();
        let mmap_file = MemoryMappedFile::create(total_size);
        let mut storage = PostingStorage { mmap_file, header, capacity, read_only: false };
        storage.update_header();
        assert(storage.image().len() == total_size);
        assert(storage@.postings =~= Seq::<PostingRecord>::empty());
        assert(storage@.deleted =~= Seq::<bool>::empty());
        Ok(storage)
    }

    /// Add a posting to the storage
    ///
    /// Returns the index where the posting was stored.
    pub fn add_posting(&mut self, document_id: DocumentId, start: u32, length: u32) -> (r: Result<
        usize,
        ShardexError,
    >)
        requires
            old(self).wf(),
        ensures
            final(self).wf(),
            final(self)@.is_well_formed(),
            r is Ok <==> (!old(self)@.read_only && old(self)@.current_count() < old(self)@.capacity),
            r is Err ==> final(self)@ == old(self)@,
            r matches Err(e) ==> e.model() == ErrorModel::Config(
                if old(self)@.read_only {
                    "Cannot add posting to read-only storage"@
                } else {
                    "Posting storage is at capacity"@
                },
            ),
            r matches Ok(i) ==> {
                &&& i == old(self)@.current_count()
                &&& final(self)@ == old(self)@.add(
                    PostingRecord { document_id: document_id.value(), start, length },
                )
            },
    {
        if self.read_only {
            return Err(ShardexError::Config(owned("Cannot add posting to read-only storage")));
        }
        if self.is_full() {
            return Err(ShardexError::Config(owned("Posting storage is at capacity")));
        }
        let ghost old_view = self@;
        let ghost s0 = self.mmap_file@;
        let ghost cap = self.capacity as int;
        let ghost lay = self.header.layout();
        let index = self.current_count();
        self.write_posting_at_index(index, document_id, start, length);
        self.set_deleted_flag(index, false);
        let ghost s2 = self.mmap_file@;
        self.header.current_count = self.header.current_count + 1;
        self.header.active_count = self.header.active_count + 1;
        let ghost pre = self@;
        self.update_header();
        proof {
            let rec = PostingRecord { document_id: document_id.value(), start, length };
            assert forall|j: int| 0 <= j < index implies #[trigger] pre.postings[j]
                == old_view.postings[j] by {
                assert(image_record(s2, lay, j) == image_record(s0, lay, j));
            }
            assert(pre.postings[index as int] == rec);
            assert(pre.postings =~= old_view.postings.push(rec));
            assert forall|j: int| 0 <= j < index implies #[trigger] pre.deleted[j]
                == old_view.deleted[j] by {
                assert(image_deleted(s2, lay, j) == image_deleted(s0, lay, j));
            }
            assert(pre.deleted =~= old_view.deleted.push(false));
        }
        Ok(index)
    }

    /// Get a posting by index
    ///
    /// Returns (document_id, start, length) tuple.
    pub fn get_posting(&self, index: usize) -> (r: Result<(DocumentId, u32, u32), ShardexError>)
        requires
            self.wf(),
        ensures
            r is Ok <==> index < self@.current_count(),
            r matches Err(e) ==> e.model() == ErrorModel::Config(
                out_of_bounds_text(index as nat, self@.current_count()),
            ),
            r matches Ok(p) ==> {
                &&& p.0.value() == self@.postings[index as int].document_id
                &&& p.1 == self@.postings[index as int].start
                &&& p.2 == self@.postings[index as int].length
            },
    {
        if index >= self.current_count() {
            return Err(ShardexError::Config(out_of_bounds_message(index, self.current_count())));
        }
        Ok(self.read_posting_at_index(index))
    }

    /// Update a posting at the specified index
    pub fn update_posting(&mut self, index: usize, document_id: DocumentId, start: u32, length: u32) -> (r:
        Result<(), ShardexError>)
        requires
            old(self).wf(),
        ensures
            final(self).wf(),
            final(self)@.is_well_formed(),
            r is Ok <==> (!old(self)@.read_only && index < old(self)@.current_count()),
            r is Err ==> final(self)@ == old(self)@,
            r matches Err(e) ==> e.model() == ErrorModel::Config(
                if old(self)@.read_only {
                    "Cannot update posting in read-only storage"@
                } else {
                    out_of_bounds_text(index as nat, old(self)@.current_count())
                },
            ),
            r is Ok ==> final(self)@ == old(self)@.update(
                index as int,
                PostingRecord { document_id: document_id.value(), start, length },
            ),
    {
        if self.read_only {
            return Err(ShardexError::Config(owned("Cannot update posting in read-only storage")));
        }
        if index >= self.current_count() {
            return Err(ShardexError::Config(out_of_bounds_message(index, self.current_count())));
        }
        let ghost old_view = self@;
        let ghost s0 = self.mmap_file@;
        let ghost cap = self.capacity as int;
        let ghost lay = self.header.layout();
        self.write_posting_at_index(index, document_id, start, length);
        let ghost s1 = self.mmap_file@;
        let ghost pre = self@;
        self.update_header();
        proof {
            let rec = PostingRecord { document_id: document_id.value(), start, length };
            assert forall|j: int| 0 <= j < old_view.postings.len() && j != index implies #[trigger] pre.postings[j]
                == old_view.postings[j] by {
                assert(image_record(s1, lay, j) == image_record(s0, lay, j));
            }
            assert(pre.postings =~= old_view.postings.update(index as int, rec));
            assert forall|j: int| 0 <= j < old_view.deleted.len() implies #[trigger] pre.deleted[j]
                == old_view.deleted[j] by {
                assert(image_deleted(s1, lay, j) == image_deleted(s0, lay, j));
            }
            assert(pre.deleted =~= old_view.deleted);
        }
        Ok(())
    }

    /// Mark a posting as deleted (tombstone approach)
    ///
    /// The posting data remains in place but is marked as inactive. The active
    /// count goes down by one when the posting was active; removing a posting
    /// that is already deleted leaves the count as it is.
    pub fn remove_posting(&mut self, index: usize) -> (r: Result<(), ShardexError>)
        requires
            old(self).wf(),
        ensures
            final(self).wf(),
            final(self)@.is_well_formed(),
            r is Ok <==> (!old(self)@.read_only && index < old(self)@.current_count()),
            r is Err ==> final(self)@ == old(self)@,
            r matches Err(e) ==> e.model() == ErrorModel::Config(
                if old(self)@.read_only {
                    "Cannot remove posting from read-only storage"@
                } else {
                    out_of_bounds_text(index as nat, old(self)@.current_count())
                },
            ),
            r is Ok ==> final(self)@ == old(self)@.remove(index as int),
    {
        if self.read_only {
            return Err(ShardexError::Config(owned("Cannot remove posting from read-only storage")));
        }
        if index >= self.current_count() {
            return Err(ShardexError::Config(out_of_bounds_message(index, self.current_count())));
        }
        let ghost old_view = self@;
        let ghost s0 = self.mmap_file@;
        let ghost cap = self.capacity as int;
        let ghost lay = self.header.layout();
        let was_deleted = self.get_deleted_flag(index);
        self.set_deleted_flag(index, true);
        let ghost s1 = self.mmap_file@;
        if !was_deleted && self.header.active_count > 0 {
            self.header.active_count = self.header.active_count - 1;
        }
        let ghost pre = self@;
        self.update_header();
        proof {
            assert forall|j: int| 0 <= j < old_view.postings.len() implies #[trigger] pre.postings[j]
                == old_view.postings[j] by {
                assert(image_record(s1, lay, j) == image_record(s0, lay, j));
            }
            assert(pre.postings =~= old_view.postings);
            assert forall|j: int| 0 <= j < old_view.deleted.len() && j != index implies #[trigger] pre.deleted[j]
                == old_view.deleted[j] by {
                assert(image_deleted(s1, lay, j) == image_deleted(s0, lay, j));
            }
            assert(pre.deleted =~= old_view.deleted.update(index as int, true));
        }
        Ok(())
    }

    /// Check if a posting at the given index is deleted
    ///
    /// Indices past the current count are reported as not deleted.
    pub fn is_deleted(&self, index: usize) -> (r: Result<bool, ShardexError>)
        requires
            self.wf(),
        ensures
            r == Ok::<bool, ShardexError>(index < self@.current_count() && self@.deleted[index as int]),
    {
        if index >= self.current_count() {
            return Ok(false);
        }
        Ok(self.get_deleted_flag(index))
    }

    /// Synchronize the storage: re-encodes the header and checksum into the image
    /// (nothing to do for read-only storage). The caller flushes the image to disk.
    ///
    /// The image already holds the header and checksum of its contents, so the
    /// image that the caller flushes is the one it had before.
    pub fn sync(&mut self) -> (r: Result<(), ShardexError>)
        requires
            old(self).wf(),
        ensures
            final(self).wf(),
            final(self)@.is_well_formed(),
            r is Ok,
            final(self)@ == old(self)@,
            final(self).image() == old(self).image(),
    {
        if self.read_only {
            return Ok(());
        }
        self.update_header();
        Ok(())
    }
}

/// The message for an index past the current count.
pub open spec fn out_of_bounds_text(index: nat, count: nat) -> Seq<char> {
    "Index "@ + decimal(index) + " out of bounds (current count: "@ + decimal(count) + ")"@
}

/// The message for an index past the current count.
fn out_of_bounds_message(index: usize, count: usize) -> (s: String)
    ensures
        s@ == out_of_bounds_text(index as nat, count as nat),
{
    let s = with_number(owned("Index "), index as u128);
    let s = with_text(s, " out of bounds (current count: ");
    let s = with_number(s, count as u128);
    with_text(s, ")")
}

/// Whether the arrays that header `h` places lie past the header, inside an
/// image of `len` bytes, and apart from each other.
fn arrays_fit(h: &PostingStorageHeader, len: usize) -> (b: bool)
    ensures
        b == layout_fits(h.layout(), h.capacity as int, len as int),
{
    let cap = h.capacity as u128;
    let len = len as u128;
    let d = h.document_ids_offset as u128;
    let st = h.starts_offset as u128;
    let le = h.lengths_offset as u128;
    let fl = h.deleted_flags_offset as u128;
    let dn = 16 * cap;
    let sn = 4 * cap;
    let ln = 4 * cap;
    let fnn = (cap + 7) / 8;
    80 <= d && d + dn <= len && 80 <= st && st + sn <= len && 80 <= le && le + ln <= len && 80 <= fl
        && fl + fnn <= len && spans_apart_exec(d, dn, st, sn) && spans_apart_exec(d, dn, le, ln)
        && spans_apart_exec(d, dn, fl, fnn) && spans_apart_exec(st, sn, le, ln) && spans_apart_exec(
        st,
        sn,
        fl,
        fnn,
    ) && spans_apart_exec(le, ln, fl, fnn)
}

/// Whether two byte ranges, given by start and length, have no byte in common.
fn spans_apart_exec(a: u128, a_len: u128, b: u128, b_len: u128) -> (r: bool)
    requires
        a + a_len <= u128::MAX,
        b + b_len <= u128::MAX,
    ensures
        r == spans_apart(a as int, a_len as int, b as int, b_len as int),
{
    a_len == 0 || b_len == 0 || a + a_len <= b || b + b_len <= a
}

impl PostingStorage {
    /// Open a storage image in read-write mode.
    pub fn open(data: Vec<u8>) -> (r: Result<PostingStorage, ShardexError>)
        ensures
            r is Ok <==> spec_open(data@, false) is Some,
            r matches Err(e) ==> Some(e.model()) == open_failure(data@),
            r matches Ok(st) ==> st@.is_well_formed(),
            r matches Ok(st) ==> st.wf() && st@ == spec_open(data@, false)->Some_0 && st.image()
                == data@,
    {
        Self::open_with_mode(data, false)
    }

    /// Open a storage image in read-only mode.
    pub fn open_read_only(data: Vec<u8>) -> (r: Result<PostingStorage, ShardexError>)
        ensures
            r is Ok <==> spec_open(data@, true) is Some,
            r matches Err(e) ==> Some(e.model()) == open_failure(data@),
            r matches Ok(st) ==> st@.is_well_formed(),
            r matches Ok(st) ==> st.wf() && st@ == spec_open(data@, true)->Some_0 && st.image()
                == data@,
    {
        Self::open_with_mode(data, true)
    }

    /// Reads and validates the header, the layout, the size and the checksum of an image.
    fn open_with_mode(data: Vec<u8>, read_only: bool) -> (r: Result<PostingStorage, ShardexError>)
        ensures
            r is Ok <==> spec_open(data@, read_only) is Some,
            r matches Err(e) ==> Some(e.model()) == open_failure(data@),
            r matches Ok(st) ==> st.wf() && st@ == spec_open(data@, read_only)->Some_0
                && st.image() == data@,
    {
        let mmap_file = MemoryMappedFile::from_bytes(data);
        let len = mmap_file.len();
        if len < 80 {
            return Err(ShardexError::Corruption(owned("File too small for posting storage header")));
        }
        let magic: [u8; 4] = [
            mmap_file.read_u8(0),
            mmap_file.read_u8(1),
            mmap_file.read_u8(2),
            mmap_file.read_u8(3),
        ];
        let reserved: [u8; 12] = [
            mmap_file.read_u8(68),
            mmap_file.read_u8(69),
            mmap_file.read_u8(70),
            mmap_file.read_u8(71),
            mmap_file.read_u8(72),
            mmap_file.read_u8(73),
            mmap_file.read_u8(74),
            mmap_file.read_u8(75),
            mmap_file.read_u8(76),
            mmap_file.read_u8(77),
            mmap_file.read_u8(78),
            mmap_file.read_u8(79),
        ];
        let header = PostingStorageHeader {
            file_header: FileHeader {
                magic,
                version: mmap_file.read_u32(4),
                header_size: mmap_file.read_u64(8),
                checksum: mmap_file.read_u32(16),
            },
            capacity: mmap_file.read_u32(20),
            current_count: mmap_file.read_u32(24),
            active_count: mmap_file.read_u32(28),
            document_ids_offset: mmap_file.read_u64(32),
            starts_offset: mmap_file.read_u64(40),
            lengths_offset: mmap_file.read_u64(48),
            deleted_flags_offset: mmap_file.read_u64(56),
            document_id_size: mmap_file.read_u32(64),
            reserved,
        };
        assert(header.file_header.magic@ =~= mmap_file@.subrange(0, 4));
        assert(header.reserved@ =~= mmap_file@.subrange(68, 80));
        let v = header.validate();
        if v.is_err() {
            return Err(v.unwrap_err());
        }
        let cap = header.capacity as u64;
        let expected_size: u64 = 80 + 24 * cap + (cap + 7) / 8;
        if (len as u64) < expected_size {
            return Err(ShardexError::Corruption(owned("File too small for declared posting capacity")));
        }
        let data_size = header.calculate_file_size();
        let actual = mmap_file.checksum_range(80, data_size);
        if actual != header.file_header.checksum {
            return Err(ShardexError::Corruption(owned("Checksum mismatch")));
        }
        if !arrays_fit(&header, len) {
            return Err(ShardexError::Corruption(owned("Posting storage arrays overlap or lie outside the file")));
        }
        let capacity = header.capacity as usize;
        let storage = PostingStorage { mmap_file, header, capacity, read_only };
        Ok(storage)
    }

    /// Find all indices of active postings with the specified document ID, in increasing order.
    pub fn find_by_document_id(&self, document_id: DocumentId) -> (r: Result<Vec<usize>, ShardexError>)
        requires
            self.wf(),
        ensures
            r matches Ok(v) && v@ == self@.matching_indices(
                document_id.value(),
                self@.current_count() as int,
            ),
    {
        let ghost view = self@;
        let mut indices: Vec<usize> = Vec::new();
        let count = self.current_count();
        let mut i: usize = 0;
        while i < count
            invariant
                self.wf(),
                view == self@,
                count == view.current_count(),
                i <= count,
                indices@ == view.matching_indices(document_id.value(), i as int),
            decreases count - i,
        {
            proof {
                self.lemma_wf_layout();
            }
            if !self.get_deleted_flag(i) {
                let (doc_id, _, _) = self.read_posting_at_index(i);
                if doc_id.raw() == document_id.raw() {
                    indices.push(i);
                }
            }
            i = i + 1;
        }
        Ok(indices)
    }

    /// All active (non-deleted) postings as (index, document id, start, length), in index order.
    pub fn iter_active(&self) -> (r: Vec<(usize, DocumentId, u32, u32)>)
        requires
            self.wf(),
        ensures
            r@.map_values(|e: (usize, DocumentId, u32, u32)| (e.0, e.1.value(), e.2, e.3))
                == self@.active_entries(self@.current_count() as int),
            forall|k: int| #![trigger r@[k]]
                0 <= k < r@.len() ==> {
                    let i = r@[k].0 as int;
                    &&& i < self@.current_count()
                    &&& !self@.deleted[i]
                    &&& r@[k].1.value() == self@.postings[i].document_id
                    &&& r@[k].2 == self@.postings[i].start
                    &&& r@[k].3 == self@.postings[i].length
                },
            forall|a: int, b: int| 0 <= a < b < r@.len() ==> r@[a].0 < r@[b].0,
            forall|i: int|
                0 <= i < self@.current_count() && !self@.deleted[i] ==> exists|k: int|
                    0 <= k < r@.len() && #[trigger] r@[k].0 == i,
    {
        let ghost view = self@;
        let mut out: Vec<(usize, DocumentId, u32, u32)> = Vec::new();
        let count = self.current_count();
        let mut i: usize = 0;
        while i < count
            invariant
                self.wf(),
                view == self@,
                count == view.current_count(),
                i <= count,
                out@.map_values(|e: (usize, DocumentId, u32, u32)| (e.0, e.1.value(), e.2, e.3))
                    == view.active_entries(i as int),
            decreases count - i,
        {
            proof {
                self.lemma_wf_layout();
            }
            if !self.get_deleted_flag(i) {
                let (doc_id, start, length) = self.read_posting_at_index(i);
                let ghost before = out@;
                out.push((i, doc_id, start, length));
                assert(out@.map_values(
                    |e: (usize, DocumentId, u32, u32)| (e.0, e.1.value(), e.2, e.3),
                ) =~= before.map_values(
                    |e: (usize, DocumentId, u32, u32)| (e.0, e.1.value(), e.2, e.3),
                ).push((i, doc_id.value(), start, length)));
            }
            i = i + 1;
        }
        proof {
            self.lemma_counts_ordered();
            lemma_listed_entries(out@, view, count as int);
        }
        out
    }
}

proof fn lemma_count_active_bounded(v: PostingStorageView, n: int)
    requires
        0 <= n,
    ensures
        v.count_active(n) <= n,
    decreases n,
{
    if n > 0 {
        lemma_count_active_bounded(v, n - 1);
    }
}

impl PostingStorage {
    /// Validate the integrity of the posting storage
    ///
    /// Checks the header, the image size and the checksum, then that the stored
    /// active count matches the deleted flags and that every posting is sane.
    pub fn validate_integrity(&self) -> (r: Result<(), ShardexError>)
        requires
            self.wf(),
        ensures
            r is Ok <==> self@.data_consistent(),
            r is Ok <==> self@.integrity_failure() is None,
            r matches Err(e) ==> (self@.integrity_failure() matches Some(m) && e.model() == ErrorModel::Corruption(m)),
    {
        proof {
            self.lemma_wf_layout();
        }
        let v = self.header.validate();
        if v.is_err() {
            return v;
        }
        let _len = self.mmap_file.len();
        let data_size = self.header.calculate_file_size();
        if data_size > self.mmap_file.len() {
            return Err(ShardexError::Corruption(owned("File size is inconsistent with header metadata")));
        }
        let actual = self.mmap_file.checksum_range(80, data_size);
        assert(actual == self.header.file_header.checksum);
        if actual != self.header.file_header.checksum {
            return Err(ShardexError::Corruption(owned("Checksum mismatch")));
        }
        self.validate_data_consistency()
    }

    /// Checks that the active count matches the flags and that every posting is sane.
    fn validate_data_consistency(&self) -> (r: Result<(), ShardexError>)
        requires
            self.wf(),
        ensures
            r is Ok <==> self@.data_consistent(),
            r is Ok <==> self@.integrity_failure() is None,
            r matches Err(e) ==> (self@.integrity_failure() matches Some(m) && e.model() == ErrorModel::Corruption(m)),
    {
        proof {
            lemma_first_record_failure(self@, self@.current_count() as int);
        }
        let ghost view = self@;
        let count = self.current_count();
        let mut actual_active_count: u32 = 0;
        let mut i: usize = 0;
        while i < count
            invariant
                self.wf(),
                view == self@,
                count == view.current_count(),
                i <= count,
                actual_active_count == view.count_active(i as int),
            decreases count - i,
        {
            proof {
                self.lemma_wf_layout();
                lemma_count_active_bounded(view, i as int);
            }
            if !self.get_deleted_flag(i) {
                actual_active_count = actual_active_count + 1;
            }
            i = i + 1;
        }
        if actual_active_count != self.header.active_count {
            let message = with_number(
                owned("Active count mismatch: header claims "),
                self.header.active_count as u128,
            );
            let message = with_text(message, ", actual count is ");
            return Err(ShardexError::Corruption(with_number(message, actual_active_count as u128)));
        }
        let mut i: usize = 0;
        while i < count
            invariant
                self.wf(),
                view == self@,
                count == view.current_count(),
                i <= count,
                view.count_active(count as int) == view.active_count,
                view.first_record_failure(i as int) is None,
            decreases count - i,
        {
            if let Err(e) = self.check_posting(i) {
                proof {
                    lemma_first_record_failure(view, i as int + 1);
                }
                return Err(e);
            }
            i = i + 1;
        }
        Ok(())
    }

    /// Checks one posting's range and document id.
    fn check_posting(&self, i: usize) -> (r: Result<(), ShardexError>)
        requires
            self.wf(),
            i < self@.current_count(),
        ensures
            r is Ok <==> self@.record_failure(i as int) is None,
            r matches Err(e) ==> (self@.record_failure(i as int) matches Some(m) && e.model() == ErrorModel::Corruption(m)),
    {
        proof {
            self.lemma_wf_layout();
        }
        let (doc_id, start, length) = self.read_posting_at_index(i);
        if length > 4294967295u32 / 2 {
            let message = with_number(owned("Posting "), i as u128);
            let message = with_text(message, " has unreasonable length: ");
            return Err(ShardexError::Corruption(with_number(message, length as u128)));
        }
        if start.checked_add(length).is_none() {
            let message = with_number(owned("Posting "), i as u128);
            let message = with_text(message, " position overflow: start=");
            let message = with_number(message, start as u128);
            let message = with_text(message, ", length=");
            return Err(ShardexError::Corruption(with_number(message, length as u128)));
        }
        if doc_id.raw() == 0 && !self.get_deleted_flag(i) {
            let message = with_number(owned("Active posting "), i as u128);
            return Err(ShardexError::Corruption(with_text(message, " has invalid zero document ID")));
        }
        Ok(())
    }

    /// The counts of a storage stay ordered: active postings never outnumber stored
    /// postings, and stored postings never outnumber the capacity.
    pub proof fn lemma_counts_ordered(&self)
        requires
            self.wf(),
        ensures
            self@.is_well_formed(),
    {
    }

    /// Reopening a storage's image, at any moment, yields the same contents:
    /// every operation leaves the header, the counts and the checksum encoded in the image.
    pub proof fn lemma_image_reopens_to_same_contents(&self, read_only: bool)
        requires
            self.wf(),
        ensures
            spec_open(self.image(), read_only) == Some(
                PostingStorageView { read_only, ..self@ },
            ),
    {
        let s = self.mmap_file@;
        assert(s.subrange(0, 4) == magic_seq());
        assert(image_layout(s) == self.header.layout());
        let v = image_view(
            s,
            self.header.layout(),
            self.capacity as nat,
            self.header.current_count as nat,
            self.header.active_count as nat,
            read_only,
        );
        assert(v == PostingStorageView { read_only, ..self@ });
    }
}

/// A posting that was added is read back as added, at the index the add returned;
/// it is active, and the postings before it are untouched.
pub proof fn lemma_add_then_read(v: PostingStorageView, rec: PostingRecord)
    requires
        v.is_well_formed(),
    ensures
        v.add(rec).postings[v.current_count() as int] == rec,
        !v.add(rec).deleted[v.current_count() as int],
        v.add(rec).current_count() == v.current_count() + 1,
        forall|j: int| 0 <= j < v.current_count() ==> #[trigger] v.add(rec).postings[j] == v.postings[j],
{
}

/// An update replaces exactly the posting at its index and leaves its deleted flag alone.
pub proof fn lemma_update_then_read(v: PostingStorageView, index: int, rec: PostingRecord)
    requires
        v.is_well_formed(),
        0 <= index < v.current_count(),
    ensures
        v.update(index, rec).postings[index] == rec,
        v.update(index, rec).deleted == v.deleted,
        v.update(index, rec).current_count() == v.current_count(),
        forall|j: int|
            0 <= j < v.current_count() && j != index ==> #[trigger] v.update(index, rec).postings[j]
                == v.postings[j],
{
}

/// A removal is a tombstone: the posting stays readable and counted, only its
/// flag is set; the active count drops by one when the posting was active and
/// stays when it was already deleted.
pub proof fn lemma_remove_keeps_data(v: PostingStorageView, index: int)
    requires
        v.is_well_formed(),
        0 <= index < v.current_count(),
    ensures
        v.remove(index).postings == v.postings,
        v.remove(index).deleted[index],
        v.remove(index).current_count() == v.current_count(),
        v.remove(index).capacity == v.capacity,
        v.deleted[index] ==> v.remove(index).active_count == v.active_count,
        !v.deleted[index] && v.active_count > 0 ==> v.remove(index).active_count + 1 == v.active_count,
        forall|j: int|
            0 <= j < v.current_count() && j != index ==> #[trigger] v.remove(index).deleted[j]
                == v.deleted[j],
{
}

/// `find_by_document_id` returns exactly the active postings with the document id, in increasing order.
#[verifier::spinoff_prover]
pub proof fn lemma_matching_indices_exact(v: PostingStorageView, doc: u128, n: int)
    requires
        v.is_well_formed(),
        0 <= n <= v.current_count(),
        n <= usize::MAX,
    ensures
        forall|i: int|
            0 <= i < n ==> (v.matching_indices(doc, n).contains(i as usize) <==> (!v.deleted[i]
                && v.postings[i].document_id == doc)),
        forall|a: int, b: int|
            0 <= a < b < v.matching_indices(doc, n).len() ==> v.matching_indices(doc, n)[a]
                < v.matching_indices(doc, n)[b],
        forall|a: int|
            0 <= a < v.matching_indices(doc, n).len() ==> v.matching_indices(doc, n)[a] < n,
    decreases n,
{
    if n > 0 {
        lemma_matching_indices_exact(v, doc, n - 1);
        let prev = v.matching_indices(doc, n - 1);
        let cur = v.matching_indices(doc, n);
        assert forall|i: int| 0 <= i < n implies (cur.contains(i as usize) <==> (!v.deleted[i]
            && v.postings[i].document_id == doc)) by {
            if i < n - 1 {
                if cur.contains(i as usize) {
                    let k = choose|k: int| 0 <= k < cur.len() && cur[k] == i as usize;
                    if k < prev.len() {
                        assert(prev[k] == i as usize);
                    }
                }
                if prev.contains(i as usize) {
                    let k = choose|k: int| 0 <= k < prev.len() && prev[k] == i as usize;
                    assert(cur[k] == i as usize);
                }
            } else {
                if cur.contains(i as usize) {
                    let k = choose|k: int| 0 <= k < cur.len() && cur[k] == i as usize;
                    if k < prev.len() {
                        assert(prev[k] < n - 1);
                    }
                }
                if !v.deleted[i] && v.postings[i].document_id == doc {
                    assert(cur[cur.len() - 1] == i as usize);
                }
            }
        }
    }
}

/// `iter_active` lists exactly the active postings below `n`, each as its
/// index with the document id, start and length stored there, in increasing
/// order of index.
#[verifier::spinoff_prover]
pub proof fn lemma_active_entries_exact(v: PostingStorageView, n: int)
    requires
        v.is_well_formed(),
        0 <= n <= v.current_count(),
        n <= usize::MAX,
    ensures
        forall|k: int| #![trigger v.active_entries(n)[k]]
            0 <= k < v.active_entries(n).len() ==> {
                let e = v.active_entries(n)[k];
                &&& e.0 < n
                &&& !v.deleted[e.0 as int]
                &&& e.1 == v.postings[e.0 as int].document_id
                &&& e.2 == v.postings[e.0 as int].start
                &&& e.3 == v.postings[e.0 as int].length
            },
        forall|a: int, b: int|
            0 <= a < b < v.active_entries(n).len() ==> v.active_entries(n)[a].0 < v.active_entries(n)[b].0,
        forall|i: int|
            0 <= i < n && !v.deleted[i] ==> exists|k: int|
                0 <= k < v.active_entries(n).len() && #[trigger] v.active_entries(n)[k].0 == i,
    decreases n,
{
    if n > 0 {
        lemma_active_entries_exact(v, n - 1);
        let prev = v.active_entries(n - 1);
        let cur = v.active_entries(n);
        if !v.deleted[n - 1] {
            assert(cur == prev.push(((n - 1) as usize, v.postings[n - 1].document_id, v.postings[n - 1].start, v.postings[n - 1].length)));
            assert forall|k: int| 0 <= k < prev.len() implies cur[k] == prev[k] by {}
            assert forall|i: int| 0 <= i < n && !v.deleted[i] implies exists|k: int|
                0 <= k < cur.len() && #[trigger] cur[k].0 == i by {
                if i == n - 1 {
                    assert(cur[prev.len() as int].0 == i);
                } else {
                    let k = choose|k: int| 0 <= k < prev.len() && #[trigger] prev[k].0 == i;
                    assert(cur[k].0 == i);
                }
            }
        } else {
            assert(cur == prev);
        }
    }
}

/// A list whose entries, read as plain values, are the active entries below
/// `n` lists exactly the active postings below `n`, in increasing order.
proof fn lemma_listed_entries(out: Seq<(usize, DocumentId, u32, u32)>, v: PostingStorageView, n: int)
    requires
        v.is_well_formed(),
        0 <= n <= v.current_count(),
        n <= usize::MAX,
        out.map_values(|e: (usize, DocumentId, u32, u32)| (e.0, e.1.value(), e.2, e.3)) == v.active_entries(n),
    ensures
        forall|k: int| #![trigger out[k]]
            0 <= k < out.len() ==> {
                let i = out[k].0 as int;
                &&& i < v.current_count()
                &&& !v.deleted[i]
                &&& out[k].1.value() == v.postings[i].document_id
                &&& out[k].2 == v.postings[i].start
                &&& out[k].3 == v.postings[i].length
            },
        forall|a: int, b: int| 0 <= a < b < out.len() ==> out[a].0 < out[b].0,
        forall|i: int|
            0 <= i < n && !v.deleted[i] ==> exists|k: int| 0 <= k < out.len() && #[trigger] out[k].0 == i,
{
    lemma_active_entries_exact(v, n);
    let m = v.active_entries(n);
    assert(out.len() == m.len());
    assert forall|k: int| 0 <= k < out.len() implies m[k] == (
        out[k].0,
        out[k].1.value(),
        out[k].2,
        out[k].3,
    ) by {}
    assert forall|a: int, b: int| 0 <= a < b < out.len() implies out[a].0 < out[b].0 by {
        assert(m[a].0 == out[a].0 && m[b].0 == out[b].0);
    }
    assert forall|k: int| #![trigger out[k]] 0 <= k < out.len() implies {
        let i = out[k].0 as int;
        &&& i < v.current_count()
        &&& !v.deleted[i]
        &&& out[k].1.value() == v.postings[i].document_id
        &&& out[k].2 == v.postings[i].start
        &&& out[k].3 == v.postings[i].length
    } by {
        assert(m[k] == (out[k].0, out[k].1.value(), out[k].2, out[k].3));
    }
    assert forall|i: int| 0 <= i < n && !v.deleted[i] implies exists|k: int|
        0 <= k < out.len() && #[trigger] out[k].0 == i by {
        let k = choose|k: int| 0 <= k < m.len() && #[trigger] m[k].0 == i;
        assert(m[k] == (out[k].0, out[k].1.value(), out[k].2, out[k].3));
    }
}

/// The active count of a prefix depends only on the flags in that prefix.
proof fn lemma_count_active_prefix(a: PostingStorageView, b: PostingStorageView, n: int)
    requires
        0 <= n <= a.deleted.len(),
        n <= b.deleted.len(),
        forall|i: int| 0 <= i < n ==> a.deleted[i] == b.deleted[i],
    ensures
        a.count_active(n) == b.count_active(n),
    decreases n,
{
    if n > 0 {
        lemma_count_active_prefix(a, b, n - 1);
    }
}

/// Marking a posting deleted lowers the count of clear flags by one if its flag was clear.
proof fn lemma_count_active_after_remove(v: PostingStorageView, index: int, n: int)
    requires
        v.is_well_formed(),
        0 <= index < v.current_count(),
        0 <= n <= v.current_count(),
    ensures
        v.remove(index).count_active(n) == if index < n && !v.deleted[index] {
            v.count_active(n) - 1
        } else {
            v.count_active(n) as int
        },
    decreases n,
{
    if n > 0 {
        lemma_count_active_after_remove(v, index, n - 1);
    }
}

/// Adding a sane posting to consistent contents keeps them consistent, so the
/// integrity check keeps passing under ordinary use.
pub proof fn lemma_add_keeps_consistency(v: PostingStorageView, rec: PostingRecord)
    requires
        v.is_well_formed(),
        v.data_consistent(),
        rec.length <= u32::MAX / 2,
        rec.start + rec.length <= u32::MAX,
        rec.document_id != 0,
    ensures
        v.add(rec).data_consistent(),
{
    let w = v.add(rec);
    let n = v.current_count() as int;
    lemma_count_active_prefix(v, w, n);
    assert(w.count_active(n + 1) == w.count_active(n) + 1);
    assert forall|i: int| 0 <= i < w.current_count() implies #[trigger] w.record_is_sane(i) by {
        if i < n {
            assert(v.record_is_sane(i));
        }
    }
}

/// Removing a posting, active or already deleted, from consistent contents
/// keeps them consistent.
pub proof fn lemma_remove_keeps_consistency(v: PostingStorageView, index: int)
    requires
        v.is_well_formed(),
        v.data_consistent(),
        0 <= index < v.current_count(),
    ensures
        v.remove(index).data_consistent(),
{
    let w = v.remove(index);
    let n = v.current_count() as int;
    lemma_count_active_after_remove(v, index, n);
    assert forall|i: int| 0 <= i < w.current_count() implies #[trigger] w.record_is_sane(i) by {
        assert(v.record_is_sane(i));
    }
}

/// Replacing a posting by a sane one (a non-zero document id, unless the
/// posting is deleted, and a range as the integrity check asks) keeps
/// consistent contents consistent.
pub proof fn lemma_update_keeps_consistency(v: PostingStorageView, index: int, rec: PostingRecord)
    requires
        v.is_well_formed(),
        v.data_consistent(),
        0 <= index < v.current_count(),
        rec.length <= u32::MAX / 2,
        rec.start + rec.length <= u32::MAX,
        rec.document_id != 0 || v.deleted[index],
    ensures
        v.update(index, rec).data_consistent(),
{
    let w = v.update(index, rec);
    assert(w.deleted == v.deleted);
    lemma_count_active_prefix(v, w, v.current_count() as int);
    assert forall|i: int| 0 <= i < w.current_count() implies #[trigger] w.record_is_sane(i) by {
        if i != index {
            assert(v.record_is_sane(i));
        }
    }
}

/// One operation on a posting storage, as its contents see it.
pub enum StorageOp {
    /// `add_posting` of a record
    Add(PostingRecord),
    /// `update_posting` at an index
    Update(int, PostingRecord),
    /// `remove_posting` at an index
    Remove(int),
}

/// A record that the integrity check accepts on an active posting.
pub open spec fn record_sane(rec: PostingRecord) -> bool {
    &&& rec.document_id != 0
    &&& rec.length <= u32::MAX / 2
    &&& rec.start + rec.length <= u32::MAX
}

/// The operation only stores sane records.
pub open spec fn op_is_sane(op: StorageOp) -> bool {
    match op {
        StorageOp::Add(rec) => record_sane(rec),
        StorageOp::Update(_, rec) => record_sane(rec),
        StorageOp::Remove(_) => true,
    }
}

/// The contents after an operation: what `add_posting`, `update_posting` or
/// `remove_posting` make of them when they succeed, and the same contents when
/// they refuse (read-only storage, a full storage, an index out of bounds).
pub open spec fn apply_op(v: PostingStorageView, op: StorageOp) -> PostingStorageView {
    match op {
        StorageOp::Add(rec) => if !v.read_only && v.current_count() < v.capacity {
            v.add(rec)
        } else {
            v
        },
        StorageOp::Update(i, rec) => if !v.read_only && 0 <= i < v.current_count() {
            v.update(i, rec)
        } else {
            v
        },
        StorageOp::Remove(i) => if !v.read_only && 0 <= i < v.current_count() {
            v.remove(i)
        } else {
            v
        },
    }
}

/// The contents after a sequence of operations, in order.
pub open spec fn apply_ops(v: PostingStorageView, ops: Seq<StorageOp>) -> PostingStorageView
    decreases ops.len(),
{
    if ops.len() == 0 {
        v
    } else {
        apply_ops(apply_op(v, ops[0]), ops.drop_first())
    }
}

/// The integrity check keeps passing under ordinary use: from consistent
/// contents (a new storage's, for one), any sequence of adds, updates and
/// removals that stores only sane records leaves the contents consistent.
pub proof fn lemma_ops_keep_consistency(v: PostingStorageView, ops: Seq<StorageOp>)
    requires
        v.is_well_formed(),
        v.data_consistent(),
        forall|k: int| 0 <= k < ops.len() ==> op_is_sane(#[trigger] ops[k]),
    ensures
        apply_ops(v, ops).is_well_formed(),
        apply_ops(v, ops).data_consistent(),
    decreases ops.len(),
{
    if ops.len() > 0 {
        let w = apply_op(v, ops[0]);
        assert(op_is_sane(ops[0]));
        match ops[0] {
            StorageOp::Add(rec) => {
                if !v.read_only && v.current_count() < v.capacity {
                    lemma_add_keeps_consistency(v, rec);
                }
            },
            StorageOp::Update(i, rec) => {
                if !v.read_only && 0 <= i < v.current_count() {
                    lemma_update_keeps_consistency(v, i, rec);
                }
            },
            StorageOp::Remove(i) => {
                if !v.read_only && 0 <= i < v.current_count() {
                    lemma_remove_keeps_consistency(v, i);
                }
            },
        }
        assert forall|k: int| 0 <= k < ops.drop_first().len() implies op_is_sane(#[trigger] ops.drop_first()[k]) by {
            assert(ops.drop_first()[k] == ops[k + 1]);
        }
        lemma_ops_keep_consistency(w, ops.drop_first());
    }
}

/// A new storage's contents are consistent.
pub proof fn lemma_empty_is_consistent(capacity: nat)
    ensures
        (PostingStorageView {
            capacity,
            postings: Seq::empty(),
            deleted: Seq::empty(),
            active_count: 0,
            read_only: false,
        }).data_consistent(),
{
}

} // verus!
