# prometheus_histogram

Open Metrics histograms with a verified core.

- `src/` (verified with Verus)
  - `spans.rs`: span/delta encoding of sparse native-histogram buckets
    (`make_buckets`, `try_make_buckets`) against a specification of the encoder.
  - `decoding.rs`: what an encoding decodes to, and the round-trip law.
  - `float_bits.rs`: IEEE-754 doubles read from their bit patterns; `frexp`.
  - `bounds.rs`: the bucket-boundary tables of schemas 0 to 8.
  - `rounding.rs`, `bounds_rounding.rs`: the proof that boundary `i` of
    schema `n` lies within four units in the last place of `2^(i / 2^n - 1)`
    (and, at odd positions of schemas 7 and 8, is the nearest double),
    through squaring chains of integers.
  - `bucket_index.rs`: bucket index of a value under a schema, with the laws
    that a value lies between its bucket's bounds, that lowering the schema
    merges buckets pairwise and that indices grow with the magnitude;
    clamping of the schema.
  - `native.rs`: native histogram state (counts, zero bucket, sparse
    buckets), with the accounting of observations against decoded buckets.
  - `classic.rs`: classic histogram state (fixed upper bounds).
- `app/`: shared handles (`Arc` + `parking_lot::RwLock`), the `f64` sums,
  bucket generators and the logarithms that pick a schema; values cross into
  the core as `f64::to_bits`.
- `tests/`: tests of the core.
