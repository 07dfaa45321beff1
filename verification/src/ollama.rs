//! The remote sequential provider: one request per input text against a
//! local-network style service. The decisions of the per-item loop — which
//! request comes next, how each outcome is classified, and when the batch as
//! a whole succeeds or fails — live here; the unverified rim only performs
//! the transport and reports what came back.

use vstd::prelude::*;

verus! {

use vstd::string::StrSliceExecFns;
use vstd::string::StringExecFns;
use crate::strutil::{strip_trailing_slashes, strip_url, dec_rep, push_u64_dec};
use crate::errors::{SkypydbError, ErrorKind};

/// Whether an HTTP status code counts as success.
pub open spec fn status_success(status: u16) -> bool {
    200 <= status && status < 300
}

/// Runtime test for [`status_success`].
pub fn status_is_success(status: u16) -> (r: bool)
    ensures
        r == status_success(status),
{
    200 <= status && status < 300
}

/// The remote sequential provider's validated configuration.
#[derive(Debug)]
pub struct OllamaEmbedding {
    pub model: String,
    pub base_url: String,
}

/// The error text when the service cannot be reached.
pub open spec fn ollama_connect_message(base_url: Seq<char>, detail: Seq<char>) -> Seq<char> {
    "Cannot connect to Ollama at "@ + base_url + ". Make sure Ollama is running. Error: "@ + detail
}

/// The error text for a non-success status.
pub open spec fn ollama_status_message(status: u16) -> Seq<char> {
    "Ollama embedding request failed with status "@ + dec_rep(status as int)
}

/// The error text for an unreadable response body.
pub open spec fn ollama_invalid_message(detail: Seq<char>) -> Seq<char> {
    "Invalid response from Ollama: "@ + detail
}

/// The error text when the response carries no embedding.
pub open spec fn ollama_missing_message() -> Seq<char> {
    "No embedding returned from Ollama. Make sure the selected model is an embedding model."@
}

impl OllamaEmbedding {
    /// Validates the configuration: the base URL loses its trailing slashes.
    pub fn new(model: String, base_url: String) -> (r: Self)
        ensures
            r.model@ == model@,
            r.base_url@ == strip_trailing_slashes(base_url@),
    {
        let stripped = strip_url(base_url.as_str());
        OllamaEmbedding { model, base_url: stripped }
    }

    /// The endpoint every per-item request goes to.
    pub fn request_url(&self) -> (r: String)
        ensures
            r@ == self.base_url@ + "/api/embeddings"@,
    {
        let mut r = self.base_url.clone();
        r.append("/api/embeddings");
        r
    }

    /// Starts a run over a batch of the given length.
    pub fn begin_embed<E>(&self, total: usize) -> (r: SequentialRun<E>)
        ensures
            r.base_url() == self.base_url@,
            r.total() == total,
            r.collected() == Seq::<E>::empty(),
            r.failure().is_none(),
            r.wf(),
    {
        let r = SequentialRun {
            base_url: self.base_url.clone(),
            total,
            collected: Vec::new(),
            failure: None,
        };
        proof {
            assert(r.collected() =~= Seq::<E>::empty());
        }
        r
    }
}

/// What the rim reports for one request of the sequential run.
pub enum SequentialEvent<E> {
    /// The request never reached the service.
    ConnectFailed { detail: String },
    /// The service answered with a status and a body.
    Response { status: u16, body: SequentialBody<E> },
}

/// The parsed body of one response.
pub enum SequentialBody<E> {
    /// The body was not a well-formed response.
    Unparsed { detail: String },
    /// The response held a null or absent embedding field.
    MissingEmbedding,
    /// The response held one embedding.
    Embedding(E),
}

/// A sequential run: per-item outputs collected in input order, stopped by
/// the first failure. No partial output ever leaves a run: only a run that
/// collected every item yields a vector.
pub struct SequentialRun<E> {
    base_url: String,
    total: usize,
    collected: Vec<E>,
    failure: Option<SkypydbError>,
}

impl<E> SequentialRun<E> {
    /// The base URL the run reports in connection errors.
    pub closed spec fn base_url(&self) -> Seq<char> {
        self.base_url@
    }

    /// How many texts the batch holds.
    pub closed spec fn total(&self) -> nat {
        self.total as nat
    }

    /// The outputs accepted so far, in input order.
    pub closed spec fn collected(&self) -> Seq<E> {
        self.collected@
    }

    /// The failure that ended the run, if one did.
    pub closed spec fn failure(&self) -> Option<SkypydbError> {
        self.failure
    }

    /// Never more outputs than inputs.
    pub open spec fn wf(&self) -> bool {
        self.collected().len() <= self.total()
    }

    /// A run that still wants a request.
    pub open spec fn in_progress(&self) -> bool {
        self.failure().is_none() && self.collected().len() < self.total()
    }

    /// A run that produced one output per input and never failed.
    pub open spec fn complete(&self) -> bool {
        self.failure().is_none() && self.collected().len() == self.total()
    }

    /// The index of the text to request next, or nothing when the run is
    /// over (complete or failed).
    pub fn next_index(&self) -> (r: Option<usize>)
        ensures
            match r {
                Some(i) => self.in_progress() && i == self.collected().len(),
                None => !self.in_progress(),
            },
    {
        if self.failure.is_none() && self.collected.len() < self.total {
            Some(self.collected.len())
        } else {
            None
        }
    }

    /// Classifies the outcome of one request: a connection failure, a
    /// non-success status, an unreadable body and a missing embedding each
    /// end the whole run with the matching error; an embedding is appended
    /// in order.
    pub fn on_item(&mut self, ev: SequentialEvent<E>)
        requires
            old(self).in_progress(),
        ensures
            final(self).base_url() == old(self).base_url(),
            final(self).total() == old(self).total(),
            final(self).wf(),
            match ev {
                SequentialEvent::ConnectFailed { detail } => {
                    &&& final(self).collected() == old(self).collected()
                    &&& is_embedding_failure(
                        final(self).failure(),
                        ollama_connect_message(old(self).base_url(), detail@),
                    )
                },
                SequentialEvent::Response { status, body } => {
                    if !status_success(status) {
                        &&& final(self).collected() == old(self).collected()
                        &&& is_embedding_failure(final(self).failure(), ollama_status_message(status))
                    } else {
                        match body {
                            SequentialBody::Unparsed { detail } => {
                                &&& final(self).collected() == old(self).collected()
                                &&& is_embedding_failure(
                                    final(self).failure(),
                                    ollama_invalid_message(detail@),
                                )
                            },
                            SequentialBody::MissingEmbedding => {
                                &&& final(self).collected() == old(self).collected()
                                &&& is_embedding_failure(final(self).failure(), ollama_missing_message())
                            },
                            SequentialBody::Embedding(e) => {
                                &&& final(self).failure().is_none()
                                &&& final(self).collected() == old(self).collected().push(e)
                            },
                        }
                    }
                },
            },
    {
        match ev {
            SequentialEvent::ConnectFailed { detail } => {
                let mut m = String::from_str("Cannot connect to Ollama at ");
                m.append(self.base_url.as_str());
                m.append(". Make sure Ollama is running. Error: ");
                m.append(detail.as_str());
                proof {
                    assert(m@ =~= ollama_connect_message(self.base_url@, detail@));
                }
                self.failure = Some(SkypydbError::embedding(m));
            },
            SequentialEvent::Response { status, body } => {
                if !status_is_success(status) {
                    let mut m = String::from_str("Ollama embedding request failed with status ");
                    push_u64_dec(&mut m, status as u64);
                    proof {
                        assert(m@ =~= ollama_status_message(status));
                    }
                    self.failure = Some(SkypydbError::embedding(m));
                } else {
                    match body {
                        SequentialBody::Unparsed { detail } => {
                            let mut m = String::from_str("Invalid response from Ollama: ");
                            m.append(detail.as_str());
                            proof {
                                assert(m@ =~= ollama_invalid_message(detail@));
                            }
                            self.failure = Some(SkypydbError::embedding(m));
                        },
                        SequentialBody::MissingEmbedding => {
                            self.failure = Some(SkypydbError::embedding(String::from_str(
                                "No embedding returned from Ollama. Make sure the selected model is an embedding model.",
                            )));
                        },
                        SequentialBody::Embedding(e) => {
                            self.collected.push(e);
                        },
                    }
                }
            },
        }
    }

    /// Ends a run that is over: a failed run yields its error, a complete
    /// run yields every collected output — never a partial vector.
    pub fn finish(self) -> (r: Result<Vec<E>, SkypydbError>)
        requires
            self.wf(),
            !self.in_progress(),
        ensures
            match r {
                Ok(v) => self.complete() && v@ == self.collected() && v@.len() == self.total(),
                Err(e) => self.failure() == Some(e),
            },
    {
        match self.failure {
            Some(e) => Err(e),
            None => Ok(self.collected),
        }
    }
}

/// The failure slot holds an embedding-kind error with exactly this message.
pub open spec fn is_embedding_failure(f: Option<SkypydbError>, message: Seq<char>) -> bool {
    match f {
        Some(e) => e.kind == ErrorKind::Embedding && e.message@ == message,
        None => false,
    }
}

/// An empty batch needs no request: a fresh run over zero texts is already
/// complete, with the empty output.
pub proof fn lemma_empty_batch_needs_no_request<E>(r: SequentialRun<E>)
    requires
        r.wf(),
        r.total() == 0,
        r.failure().is_none(),
    ensures
        !r.in_progress(),
        r.complete(),
        r.collected() =~= Seq::<E>::empty(),
{
}

/// A run completes only with exactly one output per input.
pub proof fn lemma_complete_means_full_length<E>(r: SequentialRun<E>)
    requires
        r.complete(),
    ensures
        r.collected().len() == r.total(),
{
}

/// A failure excludes any output: a failed run is neither complete nor in
/// progress, so no partial vector can leave it.
pub proof fn lemma_failure_excludes_output<E>(r: SequentialRun<E>)
    requires
        r.failure().is_some(),
    ensures
        !r.complete(),
        !r.in_progress(),
{
}

} // verus!
