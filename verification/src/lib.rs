//! Bi-temporal validity ranges and the embedding service's text, batching
//! and storage logic, verified with Verus.

mod codec;
mod embeddings;
mod read_api;
mod temporal;
mod text;

pub use codec::{
    embedding_from_bytes, embedding_to_bytes, le_byte, le_bytes_to_words, le_word,
    lemma_read_after_write, lemma_read_layout, lemma_stored_layout, lemma_write_after_read,
    words_to_le_bytes,
};
pub use embeddings::{
    check_embedding_output, choose_cache_dir, lemma_active_dimensions,
    lemma_failed_load_stays_failed, lemma_model_loads_once, prepare_embedding_text,
    qwen3_format_query, BackendAccess, CacheDir, EmbeddingBackend, EmbeddingError,
    EmbeddingService, ModelLoad, ACTIVE_BACKEND, BATCH_SIZE, EMBEDDING_DIMENSIONS,
    MAX_TEXT_LENGTH, NOMIC_EMBEDDING_DIMENSIONS, QWEN3_EMBEDDING_DIMENSIONS,
    QWEN3_QUERY_INSTRUCTION,
};
pub use read_api::{
    bare_routes, lemma_every_route_has_api_alias, lemma_routes_are_get_only, read_route_table,
    read_routes, HttpMethod, ReadHandler, CONCURRENCY_LIMIT, DEFAULT_READ_API_PORT,
};
pub use temporal::{
    after_start, before_end, chrono_span_nanos, chrono_timestamp_valid, clock_nanos_below_second,
    ends_before, instant_at_nanos, lemma_reading_instant, lemma_validity_states,
    validity_at_reading, lemma_bounds_are_inclusive, lemma_duration_of_ordered_bounds,
    lemma_overlap_has_shared_instant, lemma_overlaps_symmetric, lemma_shared_instant_overlaps,
    lemma_unbounded_contains_all, lemma_validity_agrees_with_range, reading_nanos,
    timestamp_of_reading, ts_le, ts_lt, validity_at, ClockReading, TemporalRange,
    TemporalValidity, TimeSpan, Timestamp, MAX_TIMESTAMP_SECS, MIN_TIMESTAMP_SECS,
};
pub use text::{
    batch_len, char_floor, is_model_input, kept_len, lemma_char_floor, lemma_kept_len, plan_embedding_batches,
    truncate_at_char_boundary,
};
