//! The embedding service: its backends, limits and errors, and the
//! decisions it takes around the embedding model.

use vstd::prelude::*;
use vstd::string::StringExecFns;

use crate::text::{is_model_input, truncate_at_char_boundary};

verus! {

/// Nomic Embed Text v1.5 output dimensions after Matryoshka truncation.
pub const NOMIC_EMBEDDING_DIMENSIONS: usize = 256;

/// Qwen3-Embedding-0.6B native output dimensions.
pub const QWEN3_EMBEDDING_DIMENSIONS: usize = 1024;

/// Dimensions of the active backend (Nomic).
pub const EMBEDDING_DIMENSIONS: usize = NOMIC_EMBEDDING_DIMENSIONS;

/// Maximum text length in bytes handed to the model (longer texts are cut).
pub const MAX_TEXT_LENGTH: usize = 8192;

/// Number of texts handed to the model at once.
pub const BATCH_SIZE: usize = 32;

/// Qwen3 instruct prefix for retrieval queries.
pub const QWEN3_QUERY_INSTRUCTION: &'static str =
    "Given a web search query, retrieve relevant passages that answer the query";

/// The embedding backends the service can run.
#[derive(Clone, Copy, Debug, PartialEq, Eq, Structural)]
pub enum EmbeddingBackend {
    /// Nomic Embed Text v1.5 (768d, Matryoshka-truncated to 256d).
    Nomic,
    /// Qwen3-Embedding-0.6B (1024d, asymmetric query format).
    Qwen3,
}

/// The backend this build runs.
pub const ACTIVE_BACKEND: EmbeddingBackend = EmbeddingBackend::Nomic;

impl EmbeddingBackend {
    /// HuggingFace repo ID of the backend's model.
    pub open spec fn spec_model_name(self) -> Seq<char> {
        match self {
            EmbeddingBackend::Nomic => "nomic-ai/nomic-embed-text-v1.5"@,
            EmbeddingBackend::Qwen3 => "Qwen/Qwen3-Embedding-0.6B"@,
        }
    }

    /// Output dimensions after post-processing.
    pub open spec fn spec_dimensions(self) -> usize {
        match self {
            EmbeddingBackend::Nomic => NOMIC_EMBEDDING_DIMENSIONS,
            EmbeddingBackend::Qwen3 => QWEN3_EMBEDDING_DIMENSIONS,
        }
    }

    /// The text handed to the model for the search query `query`.
    pub open spec fn spec_query_text(self, query: Seq<char>) -> Seq<char> {
        match self {
            EmbeddingBackend::Nomic => query,
            EmbeddingBackend::Qwen3 => "Instruct: "@ + QWEN3_QUERY_INSTRUCTION@ + "\nQuery:"@ + query,
        }
    }

    /// HuggingFace repo ID of the backend's model.
    pub fn model_name(&self) -> (r: &'static str)
        ensures
            r@ == self.spec_model_name(),
    {
        match self {
            EmbeddingBackend::Nomic => "nomic-ai/nomic-embed-text-v1.5",
            EmbeddingBackend::Qwen3 => "Qwen/Qwen3-Embedding-0.6B",
        }
    }

    /// Output vector dimensions after post-processing.
    pub fn dimensions(&self) -> (r: usize)
        ensures
            r == self.spec_dimensions(),
    {
        match self {
            EmbeddingBackend::Nomic => NOMIC_EMBEDDING_DIMENSIONS,
            EmbeddingBackend::Qwen3 => QWEN3_EMBEDDING_DIMENSIONS,
        }
    }

    /// Formats a search query for this backend: Nomic is symmetric and takes
    /// the query as it is; Qwen3 wraps it in its instruct template (no space
    /// after `Query:`).
    pub fn format_query(&self, query: &str) -> (r: String)
        ensures
            r@ == self.spec_query_text(query@),
    {
        match self {
            EmbeddingBackend::Nomic => String::from_str(query),
            EmbeddingBackend::Qwen3 => {
                let mut text = String::from_str("Instruct: ");
                text.append(QWEN3_QUERY_INSTRUCTION);
                text.append("\nQuery:");
                text.append(query);
                text
            },
        }
    }
}

/// Formats a query string for the active backend. Under the Nomic backend
/// this is the query itself; call it on query text at search time, never on
/// document text.
pub fn qwen3_format_query(query: &str) -> (r: String)
    ensures
        r@ == ACTIVE_BACKEND.spec_query_text(query@),
        r@ == query@,
{
    ACTIVE_BACKEND.format_query(query)
}


/// The active backend's output has the dimensions the service advertises.
pub proof fn lemma_active_dimensions()
    ensures
        ACTIVE_BACKEND.spec_dimensions() == EMBEDDING_DIMENSIONS,
{
}

/// Embedding error types.
#[non_exhaustive]
#[derive(Debug)]
pub enum EmbeddingError {
    /// Failed to initialize the embedding model.
    ModelInit(String),
    /// Failed to generate an embedding.
    EmbeddingFailed(String),
    /// Invalid input (empty, too long, etc.).
    InvalidInput(String),
}

impl Clone for EmbeddingError {
    fn clone(&self) -> (r: EmbeddingError)
        ensures
            r == *self,
    {
        match self {
            EmbeddingError::ModelInit(m) => EmbeddingError::ModelInit(m.clone()),
            EmbeddingError::EmbeddingFailed(m) => EmbeddingError::EmbeddingFailed(m.clone()),
            EmbeddingError::InvalidInput(m) => EmbeddingError::InvalidInput(m.clone()),
        }
    }
}

impl EmbeddingError {
    /// The human-readable description of the error.
    pub open spec fn spec_message(&self) -> Seq<char> {
        match self {
            EmbeddingError::ModelInit(e) => "Model initialization failed: "@ + e@,
            EmbeddingError::EmbeddingFailed(e) => "Embedding generation failed: "@ + e@,
            EmbeddingError::InvalidInput(e) => "Invalid input: "@ + e@,
        }
    }

    /// The human-readable description of the error.
    pub fn message(&self) -> (r: String)
        ensures
            r@ == self.spec_message(),
    {
        match self {
            EmbeddingError::ModelInit(e) => {
                let mut m = String::from_str("Model initialization failed: ");
                m.append(e.as_str());
                m
            },
            EmbeddingError::EmbeddingFailed(e) => {
                let mut m = String::from_str("Embedding generation failed: ");
                m.append(e.as_str());
                m
            },
            EmbeddingError::InvalidInput(e) => {
                let mut m = String::from_str("Invalid input: ");
                m.append(e.as_str());
                m
            },
        }
    }
}

/// The one-time load of the embedding model, as the process records it.
/// The model is loaded at most once: a finished load, whether it succeeded
/// or failed, is kept, and a failed load is never retried.
#[derive(Debug)]
pub enum ModelLoad {
    /// No load has been attempted yet.
    NotStarted,
    /// The load was attempted: the backend that loaded, or the loader's
    /// message.
    Finished(Result<EmbeddingBackend, String>),
}

impl ModelLoad {
    /// The model still has to be loaded.
    pub open spec fn spec_needs_load(&self) -> bool {
        *self is NotStarted
    }

    /// The record after a load attempt with the given outcome: the outcome
    /// where no load had finished, else the record unchanged.
    pub open spec fn spec_finish(self, outcome: Result<EmbeddingBackend, String>) -> ModelLoad {
        match self {
            ModelLoad::NotStarted => ModelLoad::Finished(outcome),
            ModelLoad::Finished(_) => self,
        }
    }

    /// Whether the model still has to be loaded.
    pub fn needs_load(&self) -> (r: bool)
        ensures
            r == self.spec_needs_load(),
    {
        match self {
            ModelLoad::NotStarted => true,
            ModelLoad::Finished(_) => false,
        }
    }

    /// Records the outcome of a load attempt; a load that already finished
    /// keeps its outcome.
    pub fn finish(self, outcome: Result<EmbeddingBackend, String>) -> (r: ModelLoad)
        ensures
            r == self.spec_finish(outcome),
    {
        match self {
            ModelLoad::NotStarted => ModelLoad::Finished(outcome),
            ModelLoad::Finished(kept) => ModelLoad::Finished(kept),
        }
    }

    /// What a caller gets from the model after the load, given the error of
    /// taking the loaded model's lock where that lock is poisoned: `None`
    /// before any load finished.
    pub fn access(&self, lock_error: Option<String>) -> (r: Option<BackendAccess>)
        ensures
            r is None <==> self.spec_needs_load(),
            *self matches ModelLoad::Finished(Ok(k)) ==> r == Some(
                match lock_error {
                    None => BackendAccess::Ready(k),
                    Some(e) => BackendAccess::LockPoisoned(e),
                },
            ),
            *self matches ModelLoad::Finished(Err(m)) ==> r == Some(BackendAccess::LoadFailed(m)),
    {
        match self {
            ModelLoad::NotStarted => None,
            ModelLoad::Finished(Ok(k)) => match lock_error {
                None => Some(BackendAccess::Ready(*k)),
                Some(e) => Some(BackendAccess::LockPoisoned(e)),
            },
            ModelLoad::Finished(Err(m)) => Some(BackendAccess::LoadFailed(m.clone())),
        }
    }
}

/// The model is loaded at most once: after a load attempt finishes no
/// further load is asked for, and later attempts leave its outcome, failed
/// or not, unchanged.
pub proof fn lemma_model_loads_once(
    load: ModelLoad,
    first: Result<EmbeddingBackend, String>,
    later: Result<EmbeddingBackend, String>,
)
    ensures
        !load.spec_finish(first).spec_needs_load(),
        load.spec_finish(first).spec_finish(later) == load.spec_finish(first),
        load is NotStarted ==> load.spec_finish(first) == ModelLoad::Finished(first),
{
}

/// A failed load is never retried: whatever later attempts report, the
/// record keeps the failure.
pub proof fn lemma_failed_load_stays_failed(message: String, later: Result<EmbeddingBackend, String>)
    ensures
        ModelLoad::NotStarted.spec_finish(Err(message)).spec_finish(later) == ModelLoad::Finished(
            Err::<EmbeddingBackend, String>(message),
        ),
{
}

/// What a caller gets from the model: the backend, or why not.
#[derive(Debug)]
pub enum BackendAccess {
    /// The model loaded and its lock was taken.
    Ready(EmbeddingBackend),
    /// The model failed to load, with the loader's message.
    LoadFailed(String),
    /// The model loaded but its lock is poisoned, with the lock error's message.
    LockPoisoned(String),
}

impl BackendAccess {
    /// `e` is the error this access is answered with.
    pub open spec fn reports(&self, e: EmbeddingError) -> bool {
        match self {
            BackendAccess::Ready(_) => false,
            BackendAccess::LoadFailed(m) => (e matches EmbeddingError::ModelInit(x) && x@ == m@),
            BackendAccess::LockPoisoned(p) => (e matches EmbeddingError::ModelInit(x) && x@
                == "Lock poisoned: "@ + p@),
        }
    }

    /// The backend that runs, or the error that the service answers with:
    /// a model-initialisation error carrying the loader's message, or
    /// `Lock poisoned: ` and the lock error's message.
    pub fn status(&self) -> (r: Result<EmbeddingBackend, EmbeddingError>)
        ensures
            r is Ok <==> *self is Ready,
            *self matches BackendAccess::Ready(k) ==> r == Ok::<EmbeddingBackend, EmbeddingError>(k),
            r matches Err(e) ==> self.reports(e),
    {
        match self {
            BackendAccess::Ready(k) => Ok(*k),
            BackendAccess::LoadFailed(m) => Err(EmbeddingError::ModelInit(m.clone())),
            BackendAccess::LockPoisoned(p) => {
                let mut m = String::from_str("Lock poisoned: ");
                m.append(p.as_str());
                Err(EmbeddingError::ModelInit(m))
            },
        }
    }
}

/// Service for generating and managing embeddings. The model itself is
/// loaded once per process by the caller; each query below takes what the
/// caller got from it: the backend that runs, or why not.
pub struct EmbeddingService {
    _unused: (),
}

impl Default for EmbeddingService {
    fn default() -> (r: EmbeddingService) {
        EmbeddingService::new()
    }
}

impl EmbeddingService {
    /// Create a new embedding service.
    pub fn new() -> (r: EmbeddingService) {
        EmbeddingService { _unused: () }
    }

    /// Whether the model is ready: it is exactly when it loaded and its lock
    /// could be taken.
    pub fn is_ready(&self, access: &BackendAccess) -> (r: bool)
        ensures
            r == *access is Ready,
    {
        match access {
            BackendAccess::Ready(_) => true,
            _ => false,
        }
    }

    /// Whether the model is ready, with the error the service answers with
    /// if it is not.
    pub fn check_ready(&self, access: &BackendAccess) -> (r: Result<(), EmbeddingError>)
        ensures
            r is Ok <==> *access is Ready,
            r matches Err(e) ==> access.reports(e),
    {
        match access.status() {
            Ok(_) => Ok(()),
            Err(e) => Err(e),
        }
    }

    /// Initialise the model: succeeds exactly when it loaded, else gives the
    /// error the service answers with.
    pub fn init(&self, access: &BackendAccess) -> (r: Result<(), EmbeddingError>)
        ensures
            r is Ok <==> *access is Ready,
            r matches Err(e) ==> access.reports(e),
    {
        self.check_ready(access)
    }

    /// HuggingFace repo ID of the backend that runs, or of the backend this
    /// build selects where the model is not available.
    pub fn model_name(&self, access: &BackendAccess) -> (r: &'static str)
        ensures
            r@ == match access {
                BackendAccess::Ready(k) => k.spec_model_name(),
                _ => ACTIVE_BACKEND.spec_model_name(),
            },
    {
        match access {
            BackendAccess::Ready(k) => k.model_name(),
            _ => ACTIVE_BACKEND.model_name(),
        }
    }

    /// Output vector dimensions of the backend that runs, or the build's
    /// default where the model is not available.
    pub fn dimensions(&self, access: &BackendAccess) -> (r: usize)
        ensures
            r == match access {
                BackendAccess::Ready(k) => k.spec_dimensions(),
                _ => EMBEDDING_DIMENSIONS,
            },
    {
        match access {
            BackendAccess::Ready(k) => k.dimensions(),
            _ => EMBEDDING_DIMENSIONS,
        }
    }
}

/// Checks a text before it is embedded: an empty text is refused, any other
/// is limited to `MAX_TEXT_LENGTH` bytes at a character boundary.
pub fn prepare_embedding_text(text: &str) -> (r: Result<&str, EmbeddingError>)
    ensures
        text@.len() == 0 <==> r is Err,
        r matches Err(e) ==> e matches EmbeddingError::InvalidInput(m) && m@ == "Text cannot be empty"@,
        r matches Ok(kept) ==> is_model_input(kept, text),
{
    if text.is_empty() {
        return Err(EmbeddingError::InvalidInput(String::from_str("Text cannot be empty")));
    }
    Ok(truncate_at_char_boundary(text, MAX_TEXT_LENGTH))
}

/// Checks the shape of what the model returned for a single text, given the
/// length of its first vector (`None` where it returned no vector): there
/// must be a first vector and it must not be empty.
pub fn check_embedding_output(first_len: Option<usize>) -> (r: Result<(), EmbeddingError>)
    ensures
        r is Ok <==> (first_len matches Some(n) && n > 0),
        first_len is None ==> (r matches Err(EmbeddingError::EmbeddingFailed(m)) && m@
            == "No embedding generated"@),
        first_len == Some(0usize) ==> (r matches Err(EmbeddingError::EmbeddingFailed(m)) && m@
            == "Backend returned an empty embedding vector"@),
{
    match first_len {
        None => Err(EmbeddingError::EmbeddingFailed(String::from_str("No embedding generated"))),
        Some(0) => Err(
            EmbeddingError::EmbeddingFailed(
                String::from_str("Backend returned an empty embedding vector"),
            ),
        ),
        Some(_) => Ok(()),
    }
}


/// Where the model cache lives, by order of preference; `P` is a path.
#[derive(Debug, PartialEq, Eq)]
pub enum CacheDir<P> {
    /// The directory named by the `FASTEMBED_CACHE_PATH` override, as given.
    Override(P),
    /// `fastembed` inside the given platform cache directory of the application.
    PlatformCache(P),
    /// `.cache/vestige/fastembed` inside the given home directory.
    HomeCache(P),
    /// `.fastembed_cache` relative to the working directory.
    WorkingDir,
}

impl<P> CacheDir<P> {
    /// The path joined under the chosen base directory: none for the
    /// override (used as given), `fastembed` under the platform cache
    /// directory, `.cache/vestige/fastembed` under the home directory, and
    /// `.fastembed_cache` relative to the working directory.
    pub open spec fn spec_suffix(self) -> Option<Seq<char>> {
        match self {
            CacheDir::Override(_) => None,
            CacheDir::PlatformCache(_) => Some("fastembed"@),
            CacheDir::HomeCache(_) => Some(".cache/vestige/fastembed"@),
            CacheDir::WorkingDir => Some(".fastembed_cache"@),
        }
    }

    /// The base directory of the choice: none for the working directory.
    pub open spec fn spec_base(self) -> Option<P> {
        match self {
            CacheDir::Override(p) => Some(p),
            CacheDir::PlatformCache(c) => Some(c),
            CacheDir::HomeCache(h) => Some(h),
            CacheDir::WorkingDir => None,
        }
    }

    /// The cache directory as a base directory and a relative path to join
    /// under it; the directory is the base where there is no relative path,
    /// and the relative path (from the working directory) where there is no
    /// base.
    pub fn into_parts(self) -> (r: (Option<P>, Option<&'static str>))
        ensures
            r.0 == self.spec_base(),
            r.1 is Some <==> self.spec_suffix() is Some,
            r.1 matches Some(s) ==> self.spec_suffix() == Some(s@),
    {
        match self {
            CacheDir::Override(p) => (Some(p), None),
            CacheDir::PlatformCache(c) => (Some(c), Some("fastembed")),
            CacheDir::HomeCache(h) => (Some(h), Some(".cache/vestige/fastembed")),
            CacheDir::WorkingDir => (None, Some(".fastembed_cache")),
        }
    }
}

/// Chooses the model cache directory: the explicit override if set, else
/// the platform cache directory, else the home directory, else the working
/// directory.
pub fn choose_cache_dir<P>(
    override_path: Option<P>,
    platform_cache: Option<P>,
    home: Option<P>,
) -> (r: CacheDir<P>)
    ensures
        r == match (override_path, platform_cache, home) {
            (Some(p), _, _) => CacheDir::Override(p),
            (None, Some(c), _) => CacheDir::PlatformCache(c),
            (None, None, Some(h)) => CacheDir::HomeCache(h),
            (None, None, None) => CacheDir::WorkingDir,
        },
{
    if let Some(p) = override_path {
        return CacheDir::Override(p);
    }
    if let Some(c) = platform_cache {
        return CacheDir::PlatformCache(c);
    }
    if let Some(h) = home {
        return CacheDir::HomeCache(h);
    }
    CacheDir::WorkingDir
}

} // verus!
