use skypydb::config::{
    check_float_literal, take_bool, take_optional_float, take_optional_string, take_string,
    validate_remaining_config, ConfigMap, ConfigValue, ConfigValueKind, NumValue,
};
use skypydb::errors::ErrorKind;
use skypydb::factory::{get_embedding_function, EmbeddingProvider};
use skypydb::local::{LocalEvent, SentenceTransformerEmbedding};
use skypydb::names::{model_leaf_alias, normalize_model_name, resolve_model, ModelDescriptor};
use skypydb::ollama::{OllamaEmbedding, SequentialBody, SequentialEvent};
use skypydb::openai::{BatchBody, BatchEvent, OpenAIEmbedding};
use skypydb::strutil::{strip_url, u64_to_dec_string};

fn str_value(s: &str) -> ConfigValue {
    ConfigValue { v: ConfigValueKind::Str(s.to_string()) }
}

fn num_value(text: &str) -> ConfigValue {
    ConfigValue { v: ConfigValueKind::Num(NumValue { text: text.to_string() }) }
}

// Identifiers are spelled as the local runtime's own parser prints them, the
// way the rim builds its registry.
fn registry() -> Vec<ModelDescriptor> {
    vec![
        ModelDescriptor {
            ident: "BGESmallENV15".to_string(),
            code: "BAAI/bge-small-en-v1.5".to_string(),
        },
        ModelDescriptor {
            ident: "AllMiniLML6V2".to_string(),
            code: "Qdrant/all-MiniLM-L6-v2-onnx".to_string(),
        },
    ]
}

#[test]
fn normalization_trims_lowers_and_hyphenates() {
    assert_eq!(normalize_model_name("  All_MiniLM_L6_V2  "), "all-minilm-l6-v2");
    assert_eq!(normalize_model_name(""), "");
    assert_eq!(normalize_model_name("   "), "");
    assert_eq!(normalize_model_name("abc"), "abc");
}

#[test]
fn leaf_alias_takes_last_segment_and_strips_onnx() {
    assert_eq!(model_leaf_alias("qdrant/all-minilm-l6-v2-onnx"), "all-minilm-l6-v2");
    assert_eq!(model_leaf_alias("no-slashes"), "no-slashes");
    assert_eq!(model_leaf_alias("a/b/c"), "c");
    assert_eq!(model_leaf_alias("x-onnx-onnx"), "x");
    assert_eq!(model_leaf_alias("ends-with/"), "");
}

#[test]
fn url_stripping_removes_trailing_slashes() {
    assert_eq!(strip_url("http://localhost:11434///"), "http://localhost:11434");
    assert_eq!(strip_url("http://h"), "http://h");
    assert_eq!(strip_url("///"), "");
}

#[test]
fn decimal_rendering_is_exact() {
    assert_eq!(u64_to_dec_string(0), "0");
    assert_eq!(u64_to_dec_string(7), "7");
    assert_eq!(u64_to_dec_string(404), "404");
    assert_eq!(u64_to_dec_string(65535), "65535");
}

#[test]
fn resolution_accepts_loose_forms_of_one_model() {
    let reg = registry();
    let a = resolve_model("AllMiniLML6V2", &reg).unwrap();
    let b = resolve_model("all-MiniLM-L6-v2", &reg).unwrap();
    let c = resolve_model("Qdrant/all-MiniLM-L6-v2-ONNX", &reg).unwrap();
    let d = resolve_model(" qdrant/all_minilm_l6_v2-onnx ", &reg).unwrap();
    assert_eq!(a, 1);
    assert_eq!(b, 1);
    assert_eq!(c, 1);
    assert_eq!(d, 1);
    // The bare leaf without the `all-` prefix matches neither an identifier
    // nor any code's leaf alias, so it is rejected.
    let e = resolve_model("MiniLM-L6-v2", &reg).unwrap_err();
    assert!(matches!(e.kind, ErrorKind::Validation));
}

#[test]
fn resolution_fast_path_is_case_insensitive() {
    let reg = registry();
    assert_eq!(resolve_model("bgesmallenv15", &reg).unwrap(), 0);
}

#[test]
fn resolution_rejects_blank_names() {
    let reg = registry();
    let e = resolve_model("   ", &reg).unwrap_err();
    assert!(matches!(e.kind(), ErrorKind::Validation));
    assert_eq!(e.message(), "Model name cannot be empty for sentence-transformers provider.");
}

#[test]
fn resolution_rejects_unknown_names_with_examples() {
    let reg = registry();
    let e = resolve_model("no-such-model", &reg).unwrap_err();
    assert!(matches!(e.kind, ErrorKind::Validation));
    assert!(e.message.contains("Unsupported sentence-transformers model 'no-such-model'"));
    assert!(e.message.contains("all-MiniLM-L6-v2"));
    assert!(e.message.contains("BAAI/bge-base-en-v1.5"));
}

#[test]
fn float_literals_follow_the_standard_grammar() {
    assert!(check_float_literal("60"));
    assert!(check_float_literal("-1.5"));
    assert!(check_float_literal("+.25"));
    assert!(check_float_literal("1."));
    assert!(check_float_literal("2e10"));
    assert!(check_float_literal("2.5E-3"));
    assert!(check_float_literal("inf"));
    assert!(check_float_literal("-Infinity"));
    assert!(check_float_literal("NaN"));
    assert!(!check_float_literal(""));
    assert!(!check_float_literal("."));
    assert!(!check_float_literal("abc"));
    assert!(!check_float_literal("1.2.3"));
    assert!(!check_float_literal("1e"));
    assert!(!check_float_literal("e5"));
    assert!(!check_float_literal("--1"));
}

#[test]
fn float_literal_check_matches_real_parsing() {
    for s in ["60", "-1.5", "+.25", "1.", "2e10", "2.5E-3", "inf", "-Infinity", "NaN"] {
        assert!(s.parse::<f64>().is_ok(), "{s}");
    }
    for s in ["", ".", "abc", "1.2.3", "1e", "e5", "--1"] {
        assert!(s.parse::<f64>().is_err(), "{s}");
    }
}

#[test]
fn take_string_coerces_and_defaults() {
    let mut cfg = ConfigMap::new();
    cfg.insert("model".to_string(), str_value("x"));
    cfg.insert("n".to_string(), num_value("42"));
    cfg.insert("b".to_string(), ConfigValue { v: ConfigValueKind::Bool(true) });
    cfg.insert("z".to_string(), ConfigValue { v: ConfigValueKind::Null });
    assert_eq!(take_string(&mut cfg, "model", "d").unwrap(), "x");
    assert_eq!(take_string(&mut cfg, "n", "d").unwrap(), "42");
    assert_eq!(take_string(&mut cfg, "b", "d").unwrap(), "true");
    assert_eq!(take_string(&mut cfg, "z", "d").unwrap(), "null");
    assert_eq!(take_string(&mut cfg, "missing", "d").unwrap(), "d");
    assert_eq!(cfg.len(), 0);
}

#[test]
fn take_optional_string_treats_null_as_absent() {
    let mut cfg = ConfigMap::new();
    cfg.insert("a".to_string(), ConfigValue { v: ConfigValueKind::Null });
    cfg.insert("b".to_string(), str_value("v"));
    assert_eq!(take_optional_string(&mut cfg, "a").unwrap(), None);
    assert_eq!(take_optional_string(&mut cfg, "b").unwrap(), Some("v".to_string()));
    assert_eq!(take_optional_string(&mut cfg, "c").unwrap(), None);
}

#[test]
fn take_optional_float_validates_strings_and_types() {
    let mut cfg = ConfigMap::new();
    cfg.insert("t".to_string(), num_value("30"));
    let f = take_optional_float(&mut cfg, "t").unwrap().unwrap();
    assert_eq!(f.text, "30");

    cfg.insert("t".to_string(), str_value("1.5"));
    let f = take_optional_float(&mut cfg, "t").unwrap().unwrap();
    assert_eq!(f.text, "1.5");

    cfg.insert("t".to_string(), str_value("not-a-number"));
    let e = take_optional_float(&mut cfg, "t").unwrap_err();
    assert!(matches!(e.kind, ErrorKind::Validation));
    assert_eq!(e.message, "Invalid float value for key 't'");

    cfg.insert("t".to_string(), ConfigValue { v: ConfigValueKind::Bool(true) });
    let e = take_optional_float(&mut cfg, "t").unwrap_err();
    assert_eq!(e.message, "Invalid value type for key 't', expected float");

    assert!(take_optional_float(&mut cfg, "gone").unwrap().is_none());
}

#[test]
fn take_bool_coerces_loosely() {
    let mut cfg = ConfigMap::new();
    cfg.insert("b".to_string(), ConfigValue { v: ConfigValueKind::Bool(true) });
    assert!(take_bool(&mut cfg, "b", false).unwrap());
    cfg.insert("b".to_string(), str_value("TRUE"));
    assert!(take_bool(&mut cfg, "b", false).unwrap());
    cfg.insert("b".to_string(), str_value("yes"));
    assert!(take_bool(&mut cfg, "b", false).unwrap());
    cfg.insert("b".to_string(), str_value("1"));
    assert!(take_bool(&mut cfg, "b", false).unwrap());
    cfg.insert("b".to_string(), str_value("no"));
    assert!(!take_bool(&mut cfg, "b", true).unwrap());
    cfg.insert("b".to_string(), num_value("0"));
    assert!(!take_bool(&mut cfg, "b", true).unwrap());
    cfg.insert("b".to_string(), num_value("2"));
    assert!(take_bool(&mut cfg, "b", false).unwrap());
    cfg.insert("b".to_string(), num_value("0.5"));
    assert!(take_bool(&mut cfg, "b", false).unwrap());
    cfg.insert("b".to_string(), num_value("0.0"));
    assert!(!take_bool(&mut cfg, "b", true).unwrap());
    cfg.insert("b".to_string(), num_value("-0.0"));
    assert!(!take_bool(&mut cfg, "b", true).unwrap());
    cfg.insert("b".to_string(), num_value("1e-30"));
    assert!(take_bool(&mut cfg, "b", false).unwrap());
    assert!(take_bool(&mut cfg, "missing", true).unwrap());
    cfg.insert("b".to_string(), ConfigValue { v: ConfigValueKind::Composite("[]".to_string()) });
    let e = take_bool(&mut cfg, "b", false).unwrap_err();
    assert_eq!(e.message, "Invalid value type for key 'b', expected bool");
}

#[test]
fn leftover_keys_are_a_closed_configuration_error() {
    let mut cfg = ConfigMap::new();
    cfg.insert("model".to_string(), str_value("x"));
    cfg.insert("totally_unknown_key".to_string(), num_value("1"));
    let reg = registry();
    for provider in ["ollama", "openai", "sentence-transformers"] {
        let mut c = ConfigMap::new();
        c.insert("model".to_string(), str_value("all-MiniLM-L6-v2"));
        c.insert("totally_unknown_key".to_string(), num_value("1"));
        if provider == "openai" {
            c.insert("api_key".to_string(), str_value("k"));
        }
        let e = get_embedding_function(provider, c, None, &reg).unwrap_err();
        assert!(matches!(e.kind, ErrorKind::Validation), "{provider}");
        assert!(e.message.contains("totally_unknown_key"), "{provider}: {}", e.message);
        assert!(e.message.contains(provider), "{provider}: {}", e.message);
    }
    let e = validate_remaining_config("openai", &cfg).unwrap_err();
    assert_eq!(
        e.message,
        "Unsupported embedding config keys for provider 'openai': model, totally_unknown_key"
    );
}

#[test]
fn openai_credential_resolution() {
    let e = OpenAIEmbedding::new(None, "m".to_string(), None, None, None, None, None).unwrap_err();
    assert!(matches!(e.kind, ErrorKind::Validation));
    assert_eq!(e.message, "OpenAI API key is required. Provide `api_key` or set OPENAI_API_KEY.");

    let p = OpenAIEmbedding::new(None, "m".to_string(), None, None, None, None, Some("from-env".to_string()))
        .unwrap();
    assert_eq!(p.api_key, "from-env");

    let p = OpenAIEmbedding::new(
        Some("explicit".to_string()),
        "m".to_string(),
        None,
        None,
        None,
        None,
        Some("from-env".to_string()),
    )
    .unwrap();
    assert_eq!(p.api_key, "explicit");
    assert_eq!(p.base_url, "https://api.openai.com/v1");
    assert_eq!(p.timeout.text, "60");
}

#[test]
fn openai_request_shape() {
    let p = OpenAIEmbedding::new(
        Some("sk".to_string()),
        "m".to_string(),
        Some("https://example.test/v1///".to_string()),
        None,
        None,
        None,
        None,
    )
    .unwrap();
    assert_eq!(p.request_url(), "https://example.test/v1/embeddings");
    assert_eq!(p.auth_header(), "Bearer sk");
    let empty = p.empty_batch_result::<Vec<f32>>(0).unwrap();
    assert!(empty.is_empty());
    assert!(p.empty_batch_result::<Vec<f32>>(3).is_none());
}

#[test]
fn openai_batch_acceptance_preserves_order_and_length() {
    let p = OpenAIEmbedding::new(Some("k".to_string()), "m".to_string(), None, None, None, None, None)
        .unwrap();
    let items: Vec<Vec<f32>> = vec![vec![0.0], vec![1.0], vec![2.0], vec![3.0], vec![4.0]];
    let out = p
        .accept_batch_response(
            5,
            BatchEvent::Response {
                status: 200,
                body_text: String::new(),
                body: BatchBody::Items(items.clone()),
            },
        )
        .unwrap();
    assert_eq!(out, items);

    let e = p
        .accept_batch_response(
            3,
            BatchEvent::Response {
                status: 200,
                body_text: String::new(),
                body: BatchBody::Items(vec![vec![0.0f32]]),
            },
        )
        .unwrap_err();
    assert_eq!(e.message, "OpenAI embedding response held 1 embeddings for 3 inputs");

    let e = p
        .accept_batch_response::<Vec<f32>>(
            1,
            BatchEvent::Response {
                status: 503,
                body_text: "overloaded".to_string(),
                body: BatchBody::Unparsed { detail: String::new() },
            },
        )
        .unwrap_err();
    assert!(matches!(e.kind, ErrorKind::Embedding));
    assert_eq!(e.message, "OpenAI embedding request failed with status 503: overloaded");

    let e = p
        .accept_batch_response::<Vec<f32>>(
            1,
            BatchEvent::ConnectFailed { detail: "refused".to_string() },
        )
        .unwrap_err();
    assert_eq!(e.message, "OpenAI embedding request failed: refused");

    let e = p
        .accept_batch_response::<Vec<f32>>(
            1,
            BatchEvent::Response {
                status: 200,
                body_text: String::new(),
                body: BatchBody::Unparsed { detail: "bad json".to_string() },
            },
        )
        .unwrap_err();
    assert_eq!(e.message, "Invalid response from OpenAI: bad json");
}

#[test]
fn ollama_empty_batch_needs_no_request() {
    let p = OllamaEmbedding::new("m".to_string(), "http://localhost:11434/".to_string());
    let run = p.begin_embed::<Vec<f32>>(0);
    assert_eq!(run.next_index(), None);
    let out = run.finish().unwrap();
    assert!(out.is_empty());
}

#[test]
fn ollama_sequential_run_preserves_order() {
    let p = OllamaEmbedding::new("m".to_string(), "http://h".to_string());
    assert_eq!(p.request_url(), "http://h/api/embeddings");
    let inputs = ["a", "b", "c", "d", "e"];
    let mut run = p.begin_embed::<Vec<f32>>(inputs.len());
    while let Some(i) = run.next_index() {
        run.on_item(SequentialEvent::Response {
            status: 200,
            body: SequentialBody::Embedding(vec![i as f32]),
        });
    }
    let out = run.finish().unwrap();
    assert_eq!(out.len(), inputs.len());
    for (i, v) in out.iter().enumerate() {
        assert_eq!(v, &vec![i as f32]);
    }
}

#[test]
fn ollama_mid_batch_failure_discards_partial_results() {
    let p = OllamaEmbedding::new("m".to_string(), "http://h".to_string());
    let mut run = p.begin_embed::<Vec<f32>>(3);
    let i = run.next_index().unwrap();
    assert_eq!(i, 0);
    run.on_item(SequentialEvent::Response {
        status: 200,
        body: SequentialBody::Embedding(vec![0.0]),
    });
    assert_eq!(run.next_index(), Some(1));
    run.on_item(SequentialEvent::Response {
        status: 500,
        body: SequentialBody::Unparsed { detail: String::new() },
    });
    assert_eq!(run.next_index(), None);
    let e = run.finish().unwrap_err();
    assert!(matches!(e.kind, ErrorKind::Embedding));
    assert_eq!(e.message, "Ollama embedding request failed with status 500");
}

#[test]
fn ollama_failure_messages_name_their_cause() {
    let p = OllamaEmbedding::new("m".to_string(), "http://h".to_string());
    let mut run = p.begin_embed::<Vec<f32>>(1);
    run.on_item(SequentialEvent::ConnectFailed { detail: "refused".to_string() });
    let e = run.finish().unwrap_err();
    assert_eq!(
        e.message,
        "Cannot connect to Ollama at http://h. Make sure Ollama is running. Error: refused"
    );

    let mut run = p.begin_embed::<Vec<f32>>(1);
    run.on_item(SequentialEvent::Response { status: 200, body: SequentialBody::MissingEmbedding });
    let e = run.finish().unwrap_err();
    assert_eq!(
        e.message,
        "No embedding returned from Ollama. Make sure the selected model is an embedding model."
    );

    let mut run = p.begin_embed::<Vec<f32>>(1);
    run.on_item(SequentialEvent::Response {
        status: 200,
        body: SequentialBody::Unparsed { detail: "eof".to_string() },
    });
    let e = run.finish().unwrap_err();
    assert_eq!(e.message, "Invalid response from Ollama: eof");
}

#[test]
fn local_provider_resolves_and_classifies() {
    let reg = registry();
    let p = SentenceTransformerEmbedding::new("all-MiniLM-L6-v2".to_string(), true, &reg).unwrap();
    assert_eq!(p.canonical_ident, "AllMiniLML6V2");
    assert!(p.normalize_embeddings);
    let empty = p.empty_batch_result::<Vec<f32>>(0).unwrap();
    assert!(empty.is_empty());
    assert!(p.empty_batch_result::<Vec<f32>>(2).is_none());

    let items: Vec<Vec<f32>> = vec![vec![1.0], vec![2.0]];
    let out = p.accept_inference(2, LocalEvent::Embedded(items.clone())).unwrap();
    assert_eq!(out, items);

    let e = p
        .accept_inference::<Vec<f32>>(1, LocalEvent::LockPoisoned { detail: "poisoned".to_string() })
        .unwrap_err();
    assert_eq!(e.message, "Sentence-transformers model lock poisoned: poisoned");

    let e = p
        .accept_inference::<Vec<f32>>(1, LocalEvent::InferenceFailed { detail: "boom".to_string() })
        .unwrap_err();
    assert_eq!(
        e.message,
        "Sentence Transformers embedding provider failed for model 'all-MiniLM-L6-v2': boom"
    );

    let e = p.accept_inference(3, LocalEvent::Embedded(vec![vec![1.0f32]])).unwrap_err();
    assert_eq!(e.message, "Sentence-transformers inference returned 1 embeddings for 3 inputs");

    let e = p.init_failure("download failed");
    assert_eq!(
        e.message,
        "Failed to initialize fastembed model 'all-MiniLM-L6-v2': download failed"
    );
}

#[test]
fn factory_builds_each_provider() {
    let reg = registry();

    let mut cfg = ConfigMap::new();
    cfg.insert("base_url".to_string(), str_value("http://o:1//"));
    let p = get_embedding_function("Ollama", cfg, None, &reg).unwrap();
    match p {
        EmbeddingProvider::Ollama(o) => {
            assert_eq!(o.model, "mxbai-embed-large");
            assert_eq!(o.base_url, "http://o:1");
        }
        _ => panic!("expected the sequential provider"),
    }

    let mut cfg = ConfigMap::new();
    cfg.insert("api_key".to_string(), str_value("k"));
    cfg.insert("timeout".to_string(), str_value("2.5"));
    let p = get_embedding_function("OPENAI", cfg, None, &reg).unwrap();
    match p {
        EmbeddingProvider::OpenAI(o) => {
            assert_eq!(o.model, "text-embedding-3-small");
            assert_eq!(o.timeout.text, "2.5");
        }
        _ => panic!("expected the batched provider"),
    }

    let cfg = ConfigMap::new();
    let p = get_embedding_function(" sentence_transformers ", cfg, None, &reg).unwrap();
    match p {
        EmbeddingProvider::SentenceTransformer(s) => {
            assert_eq!(s.model, "all-MiniLM-L6-v2");
            assert!(!s.normalize_embeddings);
            assert_eq!(s.canonical_ident, "AllMiniLML6V2");
        }
        _ => panic!("expected the local provider"),
    }
}

#[test]
fn factory_accepts_both_local_spellings() {
    let reg = registry();
    let a = get_embedding_function("sentence-transformer", ConfigMap::new(), None, &reg).unwrap();
    let b = get_embedding_function("sentence-transformers", ConfigMap::new(), None, &reg).unwrap();
    assert!(matches!(a, EmbeddingProvider::SentenceTransformer(_)));
    assert!(matches!(b, EmbeddingProvider::SentenceTransformer(_)));
}

#[test]
fn factory_rejects_unknown_providers() {
    let reg = registry();
    let e = get_embedding_function("Cohere", ConfigMap::new(), None, &reg).unwrap_err();
    assert!(matches!(e.kind, ErrorKind::Embedding));
    assert_eq!(
        e.message,
        "Unsupported embedding provider 'cohere'. Supported providers: ollama, openai, sentence-transformers."
    );
}

#[test]
fn factory_resolves_openai_credential_from_environment_value() {
    let reg = registry();
    let e = get_embedding_function("openai", ConfigMap::new(), None, &reg).unwrap_err();
    assert!(matches!(e.kind, ErrorKind::Validation));
    let p = get_embedding_function("openai", ConfigMap::new(), Some("env-key".to_string()), &reg)
        .unwrap();
    match p {
        EmbeddingProvider::OpenAI(o) => assert_eq!(o.api_key, "env-key"),
        _ => panic!("expected the batched provider"),
    }
}

#[test]
fn factory_rejects_bad_timeout_before_other_checks() {
    let reg = registry();
    let mut cfg = ConfigMap::new();
    cfg.insert("api_key".to_string(), str_value("k"));
    cfg.insert("timeout".to_string(), str_value("soon"));
    cfg.insert("junk".to_string(), str_value("x"));
    let e = get_embedding_function("openai", cfg, None, &reg).unwrap_err();
    assert_eq!(e.message, "Invalid float value for key 'timeout'");
}

#[test]
fn factory_rejects_unresolvable_local_model() {
    let reg = registry();
    let mut cfg = ConfigMap::new();
    cfg.insert("model".to_string(), str_value("mystery"));
    let e = get_embedding_function("sentence-transformers", cfg, None, &reg).unwrap_err();
    assert!(matches!(e.kind, ErrorKind::Validation));
    assert!(e.message.contains("Unsupported sentence-transformers model 'mystery'"));
}
