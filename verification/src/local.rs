//! The local shared-state provider: an in-process model runtime behind
//! mutual exclusion. Name resolution, the empty-batch short-circuit and the
//! classification of inference outcomes are decided here; the unverified rim
//! holds the runtime handle, the lock, and the floating-point normalization.

use vstd::prelude::*;

verus! {

use vstd::string::StrSliceExecFns;
use vstd::string::StringExecFns;
use crate::strutil::{dec_rep, push_u64_dec};
use crate::errors::{SkypydbError, ErrorKind};
use crate::names::{
    ModelDescriptor,
    resolve_model,
    resolution_ok,
    normalized_name,
    ident_match,
    code_match,
    empty_model_name_message,
    unsupported_model_message,
};
use crate::openai::is_embedding_error;

/// The local provider's validated configuration: the requested model name,
/// whether outputs are L2-normalized, and the runtime identifier the name
/// resolved to.
#[derive(Debug)]
pub struct SentenceTransformerEmbedding {
    pub model: String,
    pub normalize_embeddings: bool,
    pub canonical_ident: String,
}

/// The error text when the runtime handle's lock was poisoned by a panic.
pub open spec fn lock_poisoned_message(detail: Seq<char>) -> Seq<char> {
    "Sentence-transformers model lock poisoned: "@ + detail
}

/// The error text when inference itself failed.
pub open spec fn inference_failed_message(model: Seq<char>, detail: Seq<char>) -> Seq<char> {
    "Sentence Transformers embedding provider failed for model '"@ + model + "': "@ + detail
}

/// The error text when inference returned the wrong number of vectors.
pub open spec fn local_count_message(got: int, expected: int) -> Seq<char> {
    "Sentence-transformers inference returned "@ + dec_rep(got) + " embeddings for "@ + dec_rep(
        expected,
    ) + " inputs"@
}

/// The error text when the runtime could not be initialized.
pub open spec fn init_failed_message(model: Seq<char>, detail: Seq<char>) -> Seq<char> {
    "Failed to initialize fastembed model '"@ + model + "': "@ + detail
}

impl SentenceTransformerEmbedding {
    /// Validates the configuration by resolving the requested name against
    /// the runtime's registry; an unresolvable name is a validation error.
    pub fn new(model: String, normalize_embeddings: bool, registry: &Vec<ModelDescriptor>) -> (r:
        Result<Self, SkypydbError>)
        ensures
            match r {
                Ok(p) => {
                    &&& p.model@ == model@
                    &&& p.normalize_embeddings == normalize_embeddings
                    &&& exists|i: int|
                        resolution_ok(model@, registry@, i) && p.canonical_ident@
                            == registry@[i].ident@
                },
                Err(e) => {
                    &&& e.kind == ErrorKind::Validation
                    &&& if normalized_name(model@).len() == 0 {
                        e.message@ == empty_model_name_message()
                    } else {
                        &&& e.message@ == unsupported_model_message(model@)
                        &&& forall|j: int|
                            0 <= j < registry@.len() ==> !ident_match(model@, registry@[j])
                                && !code_match(normalized_name(model@), registry@[j])
                    }
                },
            },
    {
        let idx = match resolve_model(model.as_str(), registry) {
            Ok(i) => i,
            Err(e) => {
                return Err(e);
            },
        };
        let canonical_ident = registry[idx].ident.clone();
        Ok(SentenceTransformerEmbedding { model, normalize_embeddings, canonical_ident })
    }

    /// The whole-batch short-circuit: an empty batch yields the empty
    /// output, and the runtime is never touched for it; a non-empty batch
    /// needs its one inference.
    pub fn empty_batch_result<E>(&self, batch_len: usize) -> (r: Option<Vec<E>>)
        ensures
            match r {
                Some(v) => batch_len == 0 && v@ == Seq::<E>::empty(),
                None => batch_len != 0,
            },
    {
        if batch_len == 0 {
            let v: Vec<E> = Vec::new();
            Some(v)
        } else {
            None
        }
    }

    /// The message for an initialization failure of the runtime, built for
    /// the rim that performs the initialization.
    pub fn init_failure(&self, detail: &str) -> (e: SkypydbError)
        ensures
            e.kind == ErrorKind::Embedding,
            e.message@ == init_failed_message(self.model@, detail@),
    {
        let mut m = String::from_str("Failed to initialize fastembed model '");
        m.append(self.model.as_str());
        m.append("': ");
        m.append(detail);
        proof {
            assert(m@ =~= init_failed_message(self.model@, detail@));
        }
        SkypydbError::embedding(m)
    }

    /// Accepts or rejects what inference produced: a poisoned lock and a
    /// runtime failure each fail the whole batch with the matching error;
    /// otherwise the vectors pass through unchanged, in order, one per
    /// input.
    pub fn accept_inference<E>(&self, expected: usize, ev: LocalEvent<E>) -> (r: Result<
        Vec<E>,
        SkypydbError,
    >)
        ensures
            match ev {
                LocalEvent::LockPoisoned { detail } => is_embedding_error(
                    r,
                    lock_poisoned_message(detail@),
                ),
                LocalEvent::InferenceFailed { detail } => is_embedding_error(
                    r,
                    inference_failed_message(self.model@, detail@),
                ),
                LocalEvent::Embedded(items) => {
                    if items@.len() == expected {
                        match r {
                            Ok(out) => out@ == items@,
                            Err(_) => false,
                        }
                    } else {
                        is_embedding_error(
                            r,
                            local_count_message(items@.len() as int, expected as int),
                        )
                    }
                },
            },
    {
        match ev {
            LocalEvent::LockPoisoned { detail } => {
                let mut m = String::from_str("Sentence-transformers model lock poisoned: ");
                m.append(detail.as_str());
                Err(SkypydbError::embedding(m))
            },
            LocalEvent::InferenceFailed { detail } => {
                let mut m = String::from_str(
                    "Sentence Transformers embedding provider failed for model '",
                );
                m.append(self.model.as_str());
                m.append("': ");
                m.append(detail.as_str());
                proof {
                    assert(m@ =~= inference_failed_message(self.model@, detail@));
                }
                Err(SkypydbError::embedding(m))
            },
            LocalEvent::Embedded(items) => {
                if items.len() == expected {
                    Ok(items)
                } else {
                    let mut m = String::from_str("Sentence-transformers inference returned ");
                    push_u64_dec(&mut m, items.len() as u64);
                    m.append(" embeddings for ");
                    push_u64_dec(&mut m, expected as u64);
                    m.append(" inputs");
                    proof {
                        assert(m@ =~= local_count_message(items@.len() as int, expected as int));
                    }
                    Err(SkypydbError::embedding(m))
                }
            },
        }
    }
}

/// What the rim reports for one inference over the whole batch.
pub enum LocalEvent<E> {
    /// The lock around the runtime handle was poisoned.
    LockPoisoned { detail: String },
    /// The runtime failed to produce embeddings.
    InferenceFailed { detail: String },
    /// The vectors, in input order.
    Embedded(Vec<E>),
}

} // verus!
