//! The provider factory: normalizes the provider name, extracts and
//! validates each recognized configuration key, rejects whatever is left
//! over, and constructs exactly one provider. Configuration is validated
//! closed: every surviving key is an error, not a warning.

use vstd::prelude::*;

verus! {

use vstd::string::StrSliceExecFns;
use vstd::string::StringExecFns;
use crate::errors::{SkypydbError, ErrorKind};
use crate::strutil::{str_eq, strip_trailing_slashes};
use crate::names::{
    ModelDescriptor,
    normalize_model_name,
    normalized_name,
    resolution_ok,
    ident_match,
    code_match,
    empty_model_name_message,
    unsupported_model_message,
};
use crate::config::{
    ConfigMap,
    ConfigValueKind,
    FloatValue,
    lookup,
    without_key,
    lemma_without_key,
    take_string,
    take_optional_string,
    take_optional_float,
    take_bool,
    validate_remaining_config,
    str_or_default,
    opt_str,
    bool_or_default,
    opt_view,
    joined_keys_spec,
    unsupported_keys_message,
    invalid_float_message,
    float_type_message,
    bool_type_message,
    is_float_literal,
};
use crate::ollama::OllamaEmbedding;
use crate::openai::{OpenAIEmbedding, missing_api_key_message};
use crate::local::SentenceTransformerEmbedding;

/// One constructed provider, typed only by the capability the caller uses.
#[derive(Debug)]
pub enum EmbeddingProvider {
    Ollama(OllamaEmbedding),
    OpenAI(OpenAIEmbedding),
    SentenceTransformer(SentenceTransformerEmbedding),
}

/// The message rejecting an unknown provider name, listing the supported
/// ones.
pub open spec fn unknown_provider_message(provider: Seq<char>) -> Seq<char> {
    "Unsupported embedding provider '"@ + provider
        + "'. Supported providers: ollama, openai, sentence-transformers."@
}

/// What the sequential-provider branch of the factory must produce.
pub open spec fn ollama_outcome(
    cfg: Seq<(Seq<char>, ConfigValueKind)>,
    r: Result<EmbeddingProvider, SkypydbError>,
) -> bool {
    let rest = without_key(without_key(cfg, "model"@), "base_url"@);
    if rest.len() == 0 {
        match r {
            Ok(EmbeddingProvider::Ollama(o)) => o.model@ == str_or_default(
                cfg,
                "model"@,
                "mxbai-embed-large"@,
            ) && o.base_url@ == strip_trailing_slashes(
                str_or_default(cfg, "base_url"@, "http://localhost:11434"@),
            ),
            _ => false,
        }
    } else {
        match r {
            Err(e) => e.kind == ErrorKind::Validation && e.message@ == unsupported_keys_message(
                "ollama"@,
                joined_keys_spec(rest),
            ),
            _ => false,
        }
    }
}

/// What the batched-provider branch of the factory must produce.
pub open spec fn openai_outcome(
    cfg: Seq<(Seq<char>, ConfigValueKind)>,
    env_api_key: Option<String>,
    r: Result<EmbeddingProvider, SkypydbError>,
) -> bool {
    let rest = without_key(
        without_key(
            without_key(
                without_key(without_key(without_key(cfg, "api_key"@), "model"@), "base_url"@),
                "organization"@,
            ),
            "project"@,
        ),
        "timeout"@,
    );
    if timeout_is_bad_string(cfg) {
        match r {
            Err(e) => e.kind == ErrorKind::Validation && e.message@ == invalid_float_message(
                "timeout"@,
            ),
            _ => false,
        }
    } else if timeout_is_bad_type(cfg) {
        match r {
            Err(e) => e.kind == ErrorKind::Validation && e.message@ == float_type_message(
                "timeout"@,
            ),
            _ => false,
        }
    } else if rest.len() != 0 {
        match r {
            Err(e) => e.kind == ErrorKind::Validation && e.message@ == unsupported_keys_message(
                "openai"@,
                joined_keys_spec(rest),
            ),
            _ => false,
        }
    } else if opt_str(cfg, "api_key"@).is_none() && env_api_key.is_none() {
        match r {
            Err(e) => e.kind == ErrorKind::Validation && e.message@ == missing_api_key_message(),
            _ => false,
        }
    } else {
        match r {
            Ok(EmbeddingProvider::OpenAI(p)) => {
                &&& p.api_key@ == match opt_str(cfg, "api_key"@) {
                    Some(k) => k,
                    None => match env_api_key {
                        Some(k) => k@,
                        None => Seq::<char>::empty(),
                    },
                }
                &&& p.model@ == str_or_default(cfg, "model"@, "text-embedding-3-small"@)
                &&& p.base_url@ == strip_trailing_slashes(
                    match opt_str(cfg, "base_url"@) {
                        Some(u) => u,
                        None => "https://api.openai.com/v1"@,
                    },
                )
                &&& opt_view(p.organization) == opt_str(cfg, "organization"@)
                &&& opt_view(p.project) == opt_str(cfg, "project"@)
                &&& p.timeout.text@ == match lookup(cfg, "timeout"@) {
                    Some(ConfigValueKind::Num(n)) => n.text@,
                    Some(ConfigValueKind::Str(s)) => s@,
                    _ => "60"@,
                }
            },
            _ => false,
        }
    }
}

/// The timeout key holds a string that does not spell a float.
pub open spec fn timeout_is_bad_string(cfg: Seq<(Seq<char>, ConfigValueKind)>) -> bool {
    match lookup(cfg, "timeout"@) {
        Some(ConfigValueKind::Str(s)) => !is_float_literal(s@),
        _ => false,
    }
}

/// The timeout key holds a value no coercion accepts.
pub open spec fn timeout_is_bad_type(cfg: Seq<(Seq<char>, ConfigValueKind)>) -> bool {
    match lookup(cfg, "timeout"@) {
        Some(ConfigValueKind::Bool(_)) => true,
        Some(ConfigValueKind::Composite(_)) => true,
        _ => false,
    }
}

/// What the local-provider branch of the factory must produce.
pub open spec fn local_outcome(
    cfg: Seq<(Seq<char>, ConfigValueKind)>,
    registry: Seq<ModelDescriptor>,
    r: Result<EmbeddingProvider, SkypydbError>,
) -> bool {
    let rest = without_key(without_key(cfg, "model"@), "normalize_embeddings"@);
    let name = str_or_default(cfg, "model"@, "all-MiniLM-L6-v2"@);
    if normalize_is_bad_type(cfg) {
        match r {
            Err(e) => e.kind == ErrorKind::Validation && e.message@ == bool_type_message(
                "normalize_embeddings"@,
            ),
            _ => false,
        }
    } else if rest.len() != 0 {
        match r {
            Err(e) => e.kind == ErrorKind::Validation && e.message@ == unsupported_keys_message(
                "sentence-transformers"@,
                joined_keys_spec(rest),
            ),
            _ => false,
        }
    } else {
        match r {
            Ok(EmbeddingProvider::SentenceTransformer(p)) => {
                &&& p.model@ == name
                &&& p.normalize_embeddings == bool_or_default(cfg, "normalize_embeddings"@, false)
                &&& exists|i: int|
                    resolution_ok(name, registry, i) && p.canonical_ident@ == registry[i].ident@
            },
            Err(e) => {
                &&& e.kind == ErrorKind::Validation
                &&& if normalized_name(name).len() == 0 {
                    e.message@ == empty_model_name_message()
                } else {
                    &&& e.message@ == unsupported_model_message(name)
                    &&& forall|j: int|
                        0 <= j < registry.len() ==> !ident_match(name, registry[j]) && !code_match(
                            normalized_name(name),
                            registry[j],
                        )
                }
            },
            _ => false,
        }
    }
}

/// The normalize flag holds an aggregate value.
pub open spec fn normalize_is_bad_type(cfg: Seq<(Seq<char>, ConfigValueKind)>) -> bool {
    match lookup(cfg, "normalize_embeddings"@) {
        Some(ConfigValueKind::Composite(_)) => true,
        _ => false,
    }
}

/// Builds the provider a normalized name selects, extracting exactly the
/// keys that provider recognizes and rejecting the rest. The environment's
/// credential and the local runtime's registry come in as plain values, read
/// once by the unverified rim.
pub fn get_embedding_function(
    provider: &str,
    config: ConfigMap,
    env_api_key: Option<String>,
    registry: &Vec<ModelDescriptor>,
) -> (r: Result<EmbeddingProvider, SkypydbError>)
    ensures
        normalized_name(provider@) == "ollama"@ ==> ollama_outcome(config.entries_view(), r),
        normalized_name(provider@) == "openai"@ ==> openai_outcome(
            config.entries_view(),
            env_api_key,
            r,
        ),
        (normalized_name(provider@) == "sentence-transformers"@ || normalized_name(provider@)
            == "sentence-transformer"@) ==> local_outcome(config.entries_view(), registry@, r),
        (normalized_name(provider@) != "ollama"@ && normalized_name(provider@) != "openai"@
            && normalized_name(provider@) != "sentence-transformers"@ && normalized_name(provider@)
            != "sentence-transformer"@) ==> match r {
            Err(e) => e.kind == ErrorKind::Embedding && e.message@ == unknown_provider_message(
                normalized_name(provider@),
            ),
            _ => false,
        },
{
    let mut config = config;
    let ghost cfg0 = config.entries_view();
    let normalized = normalize_model_name(provider);
    proof {
        reveal_strlit("ollama");
        reveal_strlit("openai");
        reveal_strlit("sentence-transformers");
        reveal_strlit("sentence-transformer");
        assert("ollama"@ != "openai"@) by {
            assert("ollama"@[1] == 'l');
            assert("openai"@[1] == 'p');
        }
        assert("ollama"@ != "sentence-transformers"@) by {
            assert("ollama"@.len() == 6);
            assert("sentence-transformers"@.len() == 21);
        }
        assert("ollama"@ != "sentence-transformer"@) by {
            assert("ollama"@.len() == 6);
            assert("sentence-transformer"@.len() == 20);
        }
        assert("openai"@ != "sentence-transformers"@) by {
            assert("openai"@.len() == 6);
            assert("sentence-transformers"@.len() == 21);
        }
        assert("openai"@ != "sentence-transformer"@) by {
            assert("openai"@.len() == 6);
            assert("sentence-transformer"@.len() == 20);
        }
        assert("sentence-transformers"@ != "sentence-transformer"@) by {
            assert("sentence-transformers"@.len() == 21);
            assert("sentence-transformer"@.len() == 20);
        }
    }
    if str_eq(normalized.as_str(), "ollama") {
        let model = match take_string(&mut config, "model", "mxbai-embed-large") {
            Ok(s) => s,
            Err(e) => {
                return Err(e);
            },
        };
        let base_url = match take_string(&mut config, "base_url", "http://localhost:11434") {
            Ok(s) => s,
            Err(e) => {
                return Err(e);
            },
        };
        proof {
            reveal_strlit("model");
            reveal_strlit("base_url");
            assert("model"@ != "base_url"@) by {
                assert("model"@.len() == 5);
                assert("base_url"@.len() == 8);
            }
            lemma_without_key(cfg0, "model"@);
        }
        match validate_remaining_config("ollama", &config) {
            Ok(()) => {},
            Err(e) => {
                return Err(e);
            },
        }
        return Ok(EmbeddingProvider::Ollama(OllamaEmbedding::new(model, base_url)));
    }
    if str_eq(normalized.as_str(), "openai") {
        let api_key = match take_optional_string(&mut config, "api_key") {
            Ok(s) => s,
            Err(e) => {
                return Err(e);
            },
        };
        let ghost cfg1 = config.entries_view();
        let model = match take_string(&mut config, "model", "text-embedding-3-small") {
            Ok(s) => s,
            Err(e) => {
                return Err(e);
            },
        };
        let ghost cfg2 = config.entries_view();
        let base_url = match take_optional_string(&mut config, "base_url") {
            Ok(s) => s,
            Err(e) => {
                return Err(e);
            },
        };
        let ghost cfg3 = config.entries_view();
        let organization = match take_optional_string(&mut config, "organization") {
            Ok(s) => s,
            Err(e) => {
                return Err(e);
            },
        };
        let ghost cfg4 = config.entries_view();
        let project = match take_optional_string(&mut config, "project") {
            Ok(s) => s,
            Err(e) => {
                return Err(e);
            },
        };
        let ghost cfg5 = config.entries_view();
        proof {
            reveal_strlit("api_key");
            reveal_strlit("model");
            reveal_strlit("base_url");
            reveal_strlit("organization");
            reveal_strlit("project");
            reveal_strlit("timeout");
            assert("api_key"@.len() == 7);
            assert("model"@.len() == 5);
            assert("base_url"@.len() == 8);
            assert("organization"@.len() == 12);
            assert("project"@.len() == 7);
            assert("timeout"@.len() == 7);
            assert("api_key"@ != "project"@) by {
                assert("api_key"@[0] == 'a');
                assert("project"@[0] == 'p');
            }
            assert("api_key"@ != "timeout"@) by {
                assert("api_key"@[0] == 'a');
                assert("timeout"@[0] == 't');
            }
            assert("project"@ != "timeout"@) by {
                assert("project"@[0] == 'p');
                assert("timeout"@[0] == 't');
            }
            lemma_without_key(cfg0, "api_key"@);
            lemma_without_key(cfg1, "model"@);
            lemma_without_key(cfg2, "base_url"@);
            lemma_without_key(cfg3, "organization"@);
            lemma_without_key(cfg4, "project"@);
        }
        let timeout = match take_optional_float(&mut config, "timeout") {
            Ok(t) => t,
            Err(e) => {
                return Err(e);
            },
        };
        match validate_remaining_config("openai", &config) {
            Ok(()) => {},
            Err(e) => {
                return Err(e);
            },
        }
        let built = OpenAIEmbedding::new(
            api_key,
            model,
            base_url,
            organization,
            project,
            timeout,
            env_api_key,
        );
        return match built {
            Ok(p) => Ok(EmbeddingProvider::OpenAI(p)),
            Err(e) => Err(e),
        };
    }
    let is_st = str_eq(normalized.as_str(), "sentence-transformers") || str_eq(
        normalized.as_str(),
        "sentence-transformer",
    );
    if is_st {
        let model = match take_string(&mut config, "model", "all-MiniLM-L6-v2") {
            Ok(s) => s,
            Err(e) => {
                return Err(e);
            },
        };
        let ghost cfg1 = config.entries_view();
        proof {
            reveal_strlit("model");
            reveal_strlit("normalize_embeddings");
            assert("model"@ != "normalize_embeddings"@) by {
                assert("model"@.len() == 5);
                assert("normalize_embeddings"@.len() == 20);
            }
            lemma_without_key(cfg0, "model"@);
        }
        let normalize_embeddings = match take_bool(&mut config, "normalize_embeddings", false) {
            Ok(b) => b,
            Err(e) => {
                return Err(e);
            },
        };
        match validate_remaining_config("sentence-transformers", &config) {
            Ok(()) => {},
            Err(e) => {
                return Err(e);
            },
        }
        let built = SentenceTransformerEmbedding::new(model, normalize_embeddings, registry);
        return match built {
            Ok(p) => Ok(EmbeddingProvider::SentenceTransformer(p)),
            Err(e) => Err(e),
        };
    }
    let mut m = String::from_str("Unsupported embedding provider '");
    m.append(normalized.as_str());
    m.append("'. Supported providers: ollama, openai, sentence-transformers.");
    proof {
        assert(m@ =~= unknown_provider_message(normalized_name(provider@)));
    }
    Err(SkypydbError::embedding(m))
}

} // verus!
