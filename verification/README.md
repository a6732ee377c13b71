# vestige

Verified core of a local memory store's temporal and embedding logic.

- `src/temporal.rs`: UTC instants, bi-temporal ranges (containment, overlap,
  length) and the validity state of a fact at an instant, with the laws that
  tie them together. chrono is called for the representability of an
  instant and for the length of a range; the system clock is read through
  std and converted to an instant as chrono converts a `SystemTime`.
- `src/text.rs`: limiting texts to the model's byte budget at a character
  boundary, and splitting a batch of texts into model-sized batches.
- `src/embeddings.rs`: backends, limits, errors, the record of the one-time
  model load (loaded at most once, failures kept), what callers get from the
  model, the service's readiness queries, and the cache directory with its
  relative paths.
- `src/codec.rs`: the storage format of embedding vectors (little-endian
  32-bit components), with read-after-write laws.
- `src/read_api.rs`: the route table of the read-only HTTP surface: paths,
  the `GET` method of each, and the handler.
- `app/`: model loading and inference with fastembed, floating-point vector
  maths, environment and directories, serde records, and the axum server.
