use vestige::{
    BackendAccess, ModelLoad,
    check_embedding_output, choose_cache_dir, embedding_from_bytes, embedding_to_bytes,
    plan_embedding_batches, prepare_embedding_text, qwen3_format_query,
    truncate_at_char_boundary, CacheDir, EmbeddingBackend, EmbeddingError, EmbeddingService,
    ACTIVE_BACKEND, BATCH_SIZE, EMBEDDING_DIMENSIONS, MAX_TEXT_LENGTH, NOMIC_EMBEDDING_DIMENSIONS,
    QWEN3_EMBEDDING_DIMENSIONS, QWEN3_QUERY_INSTRUCTION,
};

#[test]
fn test_qwen3_format_query_feature_gated() {
    let wrapped = qwen3_format_query("cats are cute");
    // Under the nomic backend the wrapper is a no-op.
    assert_eq!(wrapped, "cats are cute");
}

#[test]
fn test_backend_dimensions_match_feature_flag() {
    assert_eq!(EMBEDDING_DIMENSIONS, NOMIC_EMBEDDING_DIMENSIONS);
}

#[test]
fn test_embedding_to_from_bytes() {
    let original: Vec<f32> = vec![1.5, 2.5, 3.5, 4.5];
    let bits: Vec<u32> = original.iter().map(|f| f.to_bits()).collect();
    let bytes = embedding_to_bytes(&bits);
    let restored: Vec<f32> = embedding_from_bytes(&bytes)
        .unwrap()
        .into_iter()
        .map(f32::from_bits)
        .collect();

    assert_eq!(original.len(), restored.len());
    for (a, b) in original.iter().zip(restored.iter()) {
        assert!((a - b).abs() < 0.0001);
    }
}

#[test]
fn stored_bytes_match_little_endian_floats() {
    let values: Vec<f32> = vec![1.5, -0.25, 0.0, f32::MAX];
    let bits: Vec<u32> = values.iter().map(|f| f.to_bits()).collect();
    let expected: Vec<u8> = values.iter().flat_map(|f| f.to_le_bytes()).collect();
    assert_eq!(embedding_to_bytes(&bits), expected);
    assert_eq!(embedding_to_bytes(&[0x0403_0201]), vec![1, 2, 3, 4]);
    assert_eq!(embedding_from_bytes(&[1, 2, 3, 4, 0xff, 0, 0, 0x80]), Some(vec![0x0403_0201, 0x8000_00ff]));
}

#[test]
fn from_bytes_refuses_partial_components() {
    assert_eq!(embedding_from_bytes(&[1, 2, 3]), None);
    assert_eq!(embedding_from_bytes(&[1, 2, 3, 4, 5]), None);
    assert_eq!(embedding_from_bytes(&[]), Some(vec![]));
    let bytes = vec![9u8, 8, 7, 6, 5, 4, 3, 2];
    assert_eq!(embedding_to_bytes(&embedding_from_bytes(&bytes).unwrap()), bytes);
}

#[test]
fn backends_report_their_models() {
    assert_eq!(EmbeddingBackend::Nomic.model_name(), "nomic-ai/nomic-embed-text-v1.5");
    assert_eq!(EmbeddingBackend::Qwen3.model_name(), "Qwen/Qwen3-Embedding-0.6B");
    assert_eq!(EmbeddingBackend::Nomic.dimensions(), 256);
    assert_eq!(EmbeddingBackend::Qwen3.dimensions(), QWEN3_EMBEDDING_DIMENSIONS);
    assert_eq!(ACTIVE_BACKEND, EmbeddingBackend::Nomic);
    assert_eq!(ACTIVE_BACKEND.dimensions(), EMBEDDING_DIMENSIONS);
}

#[test]
fn qwen3_query_template() {
    let wrapped = EmbeddingBackend::Qwen3.format_query("cats are cute");
    assert!(wrapped.starts_with("Instruct: "));
    assert!(wrapped.ends_with("\nQuery:cats are cute"));
    assert_eq!(wrapped, format!("Instruct: {}\nQuery:cats are cute", QWEN3_QUERY_INSTRUCTION));
    assert_eq!(EmbeddingBackend::Nomic.format_query("q"), "q");
}

#[test]
fn service_reports_readiness_from_the_load() {
    let service = EmbeddingService::new();
    let loaded = BackendAccess::Ready(EmbeddingBackend::Qwen3);
    let failed = BackendAccess::LoadFailed("no runtime".to_string());
    let poisoned = BackendAccess::LockPoisoned("poisoned lock".to_string());

    assert!(service.is_ready(&loaded));
    assert!(!service.is_ready(&failed));
    assert!(!service.is_ready(&poisoned));
    assert!(service.check_ready(&loaded).is_ok());
    assert!(service.init(&loaded).is_ok());
    match service.check_ready(&failed) {
        Err(EmbeddingError::ModelInit(m)) => assert_eq!(m, "no runtime"),
        other => panic!("unexpected {:?}", other),
    }
    match service.init(&failed) {
        Err(EmbeddingError::ModelInit(m)) => assert_eq!(m, "no runtime"),
        other => panic!("unexpected {:?}", other),
    }
    match service.check_ready(&poisoned) {
        Err(EmbeddingError::ModelInit(m)) => assert_eq!(m, "Lock poisoned: poisoned lock"),
        other => panic!("unexpected {:?}", other),
    }
    assert_eq!(service.model_name(&loaded), "Qwen/Qwen3-Embedding-0.6B");
    assert_eq!(service.model_name(&failed), "nomic-ai/nomic-embed-text-v1.5");
    assert_eq!(service.dimensions(&loaded), 1024);
    assert_eq!(service.dimensions(&poisoned), EMBEDDING_DIMENSIONS);
    let _ = EmbeddingService::default();
}

#[test]
fn model_is_loaded_once_and_failures_are_kept() {
    let load = ModelLoad::NotStarted;
    assert!(load.needs_load());
    assert!(load.access(None).is_none());
    let load = load.finish(Err("download failed".to_string()));
    assert!(!load.needs_load());
    let load = load.finish(Ok(EmbeddingBackend::Nomic));
    assert!(!load.needs_load());
    match load.access(None) {
        Some(BackendAccess::LoadFailed(m)) => assert_eq!(m, "download failed"),
        other => panic!("unexpected {:?}", other),
    }

    let ok = ModelLoad::NotStarted.finish(Ok(EmbeddingBackend::Nomic));
    assert!(matches!(ok.access(None), Some(BackendAccess::Ready(EmbeddingBackend::Nomic))));
    match ok.access(Some("poisoned".to_string())) {
        Some(BackendAccess::LockPoisoned(m)) => assert_eq!(m, "poisoned"),
        other => panic!("unexpected {:?}", other),
    }
    let ok = ok.finish(Err("ignored".to_string()));
    assert!(matches!(ok.access(None), Some(BackendAccess::Ready(EmbeddingBackend::Nomic))));
}

#[test]
fn error_messages() {
    assert_eq!(
        EmbeddingError::ModelInit("x".to_string()).message(),
        "Model initialization failed: x"
    );
    assert_eq!(
        EmbeddingError::EmbeddingFailed("y".to_string()).message(),
        "Embedding generation failed: y"
    );
    assert_eq!(EmbeddingError::InvalidInput("z".to_string()).message(), "Invalid input: z");
    let e = EmbeddingError::InvalidInput("z".to_string());
    assert_eq!(e.clone().message(), e.message());
}

#[test]
fn truncation_keeps_short_texts_whole() {
    assert_eq!(truncate_at_char_boundary("hello", 5), "hello");
    assert_eq!(truncate_at_char_boundary("hello", 100), "hello");
    assert_eq!(truncate_at_char_boundary("hello", 3), "hel");
    assert_eq!(truncate_at_char_boundary("", 0), "");
}

#[test]
fn truncation_never_splits_a_character() {
    // 'é' takes two bytes, '漢' three.
    assert_eq!(truncate_at_char_boundary("aé", 2), "a");
    assert_eq!(truncate_at_char_boundary("aé", 3), "aé");
    assert_eq!(truncate_at_char_boundary("漢字", 5), "漢");
    assert_eq!(truncate_at_char_boundary("漢字", 2), "");
    let long = "é".repeat(MAX_TEXT_LENGTH);
    let cut = truncate_at_char_boundary(&long, MAX_TEXT_LENGTH + 1);
    assert_eq!(cut.len(), MAX_TEXT_LENGTH);
}

#[test]
fn preparing_text_refuses_empty_and_limits_length() {
    match prepare_embedding_text("") {
        Err(EmbeddingError::InvalidInput(m)) => assert_eq!(m, "Text cannot be empty"),
        other => panic!("unexpected {:?}", other),
    }
    assert_eq!(prepare_embedding_text("hi").unwrap(), "hi");
    let long = "a".repeat(MAX_TEXT_LENGTH + 10);
    assert_eq!(prepare_embedding_text(&long).unwrap().len(), MAX_TEXT_LENGTH);
    let mut wide = "a".repeat(MAX_TEXT_LENGTH - 1);
    wide.push('é');
    assert_eq!(prepare_embedding_text(&wide).unwrap().len(), MAX_TEXT_LENGTH - 1);
}

#[test]
fn output_shape_checks() {
    assert!(check_embedding_output(Some(256)).is_ok());
    match check_embedding_output(None) {
        Err(EmbeddingError::EmbeddingFailed(m)) => assert_eq!(m, "No embedding generated"),
        other => panic!("unexpected {:?}", other),
    }
    match check_embedding_output(Some(0)) {
        Err(EmbeddingError::EmbeddingFailed(m)) => {
            assert_eq!(m, "Backend returned an empty embedding vector")
        }
        other => panic!("unexpected {:?}", other),
    }
}

#[test]
fn batches_follow_batch_size() {
    let texts: Vec<String> = (0..70).map(|i| format!("text {}", i)).collect();
    let refs: Vec<&str> = texts.iter().map(|s| s.as_str()).collect();
    let batches = plan_embedding_batches(&refs);
    assert_eq!(batches.len(), 3);
    assert_eq!(batches[0].len(), BATCH_SIZE);
    assert_eq!(batches[1].len(), BATCH_SIZE);
    assert_eq!(batches[2].len(), 6);
    let flat: Vec<&str> = batches.into_iter().flatten().collect();
    assert_eq!(flat, refs);
    assert!(plan_embedding_batches(&[]).is_empty());
    let exact: Vec<&str> = vec!["x"; 64];
    assert_eq!(plan_embedding_batches(&exact).len(), 2);
}

#[test]
fn batches_truncate_long_texts() {
    let long = "b".repeat(MAX_TEXT_LENGTH * 2);
    let batches = plan_embedding_batches(&["short", long.as_str()]);
    assert_eq!(batches.len(), 1);
    assert_eq!(batches[0][0], "short");
    assert_eq!(batches[0][1].len(), MAX_TEXT_LENGTH);
}

#[test]
fn cache_dir_resolution_order() {
    let s = |v: &str| Some(v.to_string());
    assert_eq!(choose_cache_dir(s("/x"), s("/p"), s("/h")), CacheDir::Override("/x".to_string()));
    assert_eq!(choose_cache_dir(None, s("/p"), s("/h")), CacheDir::PlatformCache("/p".to_string()));
    assert_eq!(choose_cache_dir(None, None, s("/h")), CacheDir::HomeCache("/h".to_string()));
    assert_eq!(choose_cache_dir::<String>(None, None, None), CacheDir::WorkingDir);
    assert_eq!(CacheDir::Override("/x").into_parts(), (Some("/x"), None));
    assert_eq!(CacheDir::PlatformCache("/p").into_parts(), (Some("/p"), Some("fastembed")));
    assert_eq!(
        CacheDir::HomeCache("/h").into_parts(),
        (Some("/h"), Some(".cache/vestige/fastembed"))
    );
    assert_eq!(CacheDir::<&str>::WorkingDir.into_parts(), (None, Some(".fastembed_cache")));
}
