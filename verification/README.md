# shardex

Storage and bookkeeping components of a sharded vector index, written in
Verus: each public function carries a contract over a mathematical model of
its data, and the library's laws are stated and proved as proof functions.

## Layout

- `src/` — the verified library.
  - `memory.rs`: byte images with little-endian reads and writes, file
    headers with magic bytes, versions and FNV-1a checksums.
  - `posting_storage.rs`: the posting store (document id, start, length and
    deleted flag of each posting) over one byte image, with its header, its
    abstract view and the laws that tie its operations together.
  - `shard.rs`: shard metadata derived from a shard's storages, and the
    check that a shard's vector and posting storages agree.
  - `shardex.rs`: validation of postings, removals, searches, document
    replacements and logged adds, and the sizing of write batches.
  - `shardex_index.rs`: the slop factor used to choose how many shards a
    search visits, and the per-document tally of a batch of deletions.
  - `recovery.rs`: retry decisions with exponential backoff, the handling
    of exhausted resources, and the steps of crash recovery.
  - `monitoring.rs`, `structures.rs`, `time_span.rs`: latency samples and
    percentiles by rank, a bounded history of data points, flush statistics
    and posting headers.
  - `error.rs`, `text.rs`, `identifiers.rs`, `test_utils/`: errors and the
    exact text of their messages, decimal numerals, document ids and helpers
    for tests.
- `tests/` — tests run against the compiled library.
- `app/` — ordinary Rust around the library: file persistence of storage
  images, retry and recovery loops and resource relief, serde copies of library types, and
  the floating-point parts (percentile ranks, trends, similarity scores).
