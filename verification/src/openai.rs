//! The remote batched provider: one request for the whole batch against a
//! cloud-API style service, with bearer authorization and optional
//! organization/project headers. Credential resolution, request shaping and
//! response acceptance are decided here; the unverified rim performs the
//! transport.

use vstd::prelude::*;

verus! {

use vstd::string::StrSliceExecFns;
use vstd::string::StringExecFns;
use crate::strutil::{strip_trailing_slashes, strip_url, dec_rep, push_u64_dec};
use crate::errors::{SkypydbError, ErrorKind};
use crate::config::FloatValue;
use crate::ollama::{status_success, status_is_success};

/// The remote batched provider's validated configuration. The timeout is
/// kept as validated text; only the rim turns it into a machine duration.
#[derive(Debug)]
pub struct OpenAIEmbedding {
    pub api_key: String,
    pub model: String,
    pub base_url: String,
    pub organization: Option<String>,
    pub project: Option<String>,
    pub timeout: FloatValue,
}

/// The message rejecting construction without any credential.
pub open spec fn missing_api_key_message() -> Seq<char> {
    "OpenAI API key is required. Provide `api_key` or set OPENAI_API_KEY."@
}

/// The error text when the request never reached the service.
pub open spec fn openai_connect_message(detail: Seq<char>) -> Seq<char> {
    "OpenAI embedding request failed: "@ + detail
}

/// The error text for a non-success status, carrying the raw body.
pub open spec fn openai_status_message(status: u16, body: Seq<char>) -> Seq<char> {
    "OpenAI embedding request failed with status "@ + dec_rep(status as int) + ": "@ + body
}

/// The error text for a malformed body on an otherwise successful response.
pub open spec fn openai_invalid_message(detail: Seq<char>) -> Seq<char> {
    "Invalid response from OpenAI: "@ + detail
}

/// The error text when the response holds the wrong number of embeddings.
pub open spec fn openai_count_message(got: int, expected: int) -> Seq<char> {
    "OpenAI embedding response held "@ + dec_rep(got) + " embeddings for "@ + dec_rep(expected)
        + " inputs"@
}

impl OpenAIEmbedding {
    /// Validates the configuration. The credential is the explicit key when
    /// given, else the environment's; without either, construction fails
    /// with a validation error. The base URL gets its default and loses
    /// trailing slashes; the timeout defaults to sixty seconds.
    pub fn new(
        api_key: Option<String>,
        model: String,
        base_url: Option<String>,
        organization: Option<String>,
        project: Option<String>,
        timeout_seconds: Option<FloatValue>,
        env_api_key: Option<String>,
    ) -> (r: Result<Self, SkypydbError>)
        ensures
            match r {
                Ok(p) => {
                    &&& match (api_key, env_api_key) {
                        (Some(k), _) => p.api_key@ == k@,
                        (None, Some(k)) => p.api_key@ == k@,
                        (None, None) => false,
                    }
                    &&& p.model@ == model@
                    &&& p.base_url@ == strip_trailing_slashes(
                        match base_url {
                            Some(u) => u@,
                            None => "https://api.openai.com/v1"@,
                        },
                    )
                    &&& p.organization == organization
                    &&& p.project == project
                    &&& p.timeout.text@ == match timeout_seconds {
                        Some(f) => f.text@,
                        None => "60"@,
                    }
                },
                Err(e) => {
                    &&& api_key.is_none() && env_api_key.is_none()
                    &&& e.kind == ErrorKind::Validation
                    &&& e.message@ == missing_api_key_message()
                },
            },
    {
        let key = match api_key {
            Some(k) => k,
            None => match env_api_key {
                Some(k) => k,
                None => {
                    return Err(SkypydbError::validation(String::from_str(
                        "OpenAI API key is required. Provide `api_key` or set OPENAI_API_KEY.",
                    )));
                },
            },
        };
        let url = match base_url {
            Some(u) => u,
            None => String::from_str("https://api.openai.com/v1"),
        };
        let stripped = strip_url(url.as_str());
        let timeout = match timeout_seconds {
            Some(f) => f,
            None => FloatValue { text: String::from_str("60") },
        };
        Ok(
            OpenAIEmbedding {
                api_key: key,
                model,
                base_url: stripped,
                organization,
                project,
                timeout,
            },
        )
    }

    /// The endpoint the batch request goes to.
    pub fn request_url(&self) -> (r: String)
        ensures
            r@ == self.base_url@ + "/embeddings"@,
    {
        let mut r = self.base_url.clone();
        r.append("/embeddings");
        r
    }

    /// The bearer authorization header value.
    pub fn auth_header(&self) -> (r: String)
        ensures
            r@ == "Bearer "@ + self.api_key@,
    {
        let mut r = String::from_str("Bearer ");
        r.append(self.api_key.as_str());
        r
    }

    /// The whole-batch short-circuit: an empty batch yields the empty
    /// output, and no request is issued for it; a non-empty batch needs its
    /// one request.
    pub fn empty_batch_result<E>(&self, batch_len: usize) -> (r: Option<Vec<E>>)
        ensures
            match r {
                Some(v) => batch_len == 0 && v@ == Seq::<E>::empty(),
                None => batch_len != 0,
            },
    {
        if batch_len == 0 {
            let v: Vec<E> = Vec::new();
            Some(v)
        } else {
            None
        }
    }

    /// Accepts or rejects what came back for the whole batch: a connection
    /// failure, a non-success status, a malformed body and a count mismatch
    /// each fail the batch with the matching error; otherwise the items pass
    /// through unchanged, in the service's order, one per input.
    pub fn accept_batch_response<E>(&self, expected: usize, ev: BatchEvent<E>) -> (r: Result<
        Vec<E>,
        SkypydbError,
    >)
        ensures
            match ev {
                BatchEvent::ConnectFailed { detail } => is_embedding_error(
                    r,
                    openai_connect_message(detail@),
                ),
                BatchEvent::Response { status, body_text, body } => {
                    if !status_success(status) {
                        is_embedding_error(r, openai_status_message(status, body_text@))
                    } else {
                        match body {
                            BatchBody::Unparsed { detail } => is_embedding_error(
                                r,
                                openai_invalid_message(detail@),
                            ),
                            BatchBody::Items(items) => {
                                if items@.len() == expected {
                                    match r {
                                        Ok(out) => out@ == items@,
                                        Err(_) => false,
                                    }
                                } else {
                                    is_embedding_error(
                                        r,
                                        openai_count_message(items@.len() as int, expected as int),
                                    )
                                }
                            },
                        }
                    }
                },
            },
    {
        match ev {
            BatchEvent::ConnectFailed { detail } => {
                let mut m = String::from_str("OpenAI embedding request failed: ");
                m.append(detail.as_str());
                Err(SkypydbError::embedding(m))
            },
            BatchEvent::Response { status, body_text, body } => {
                if !status_is_success(status) {
                    let mut m = String::from_str("OpenAI embedding request failed with status ");
                    push_u64_dec(&mut m, status as u64);
                    m.append(": ");
                    m.append(body_text.as_str());
                    proof {
                        assert(m@ =~= openai_status_message(status, body_text@));
                    }
                    Err(SkypydbError::embedding(m))
                } else {
                    match body {
                        BatchBody::Unparsed { detail } => {
                            let mut m = String::from_str("Invalid response from OpenAI: ");
                            m.append(detail.as_str());
                            Err(SkypydbError::embedding(m))
                        },
                        BatchBody::Items(items) => {
                            if items.len() == expected {
                                Ok(items)
                            } else {
                                let mut m = String::from_str("OpenAI embedding response held ");
                                push_u64_dec(&mut m, items.len() as u64);
                                m.append(" embeddings for ");
                                push_u64_dec(&mut m, expected as u64);
                                m.append(" inputs");
                                proof {
                                    assert(m@ =~= openai_count_message(
                                        items@.len() as int,
                                        expected as int,
                                    ));
                                }
                                Err(SkypydbError::embedding(m))
                            }
                        },
                    }
                }
            },
        }
    }
}

/// What the rim reports for the one batch request.
pub enum BatchEvent<E> {
    /// The request never reached the service.
    ConnectFailed { detail: String },
    /// The service answered: its status, the raw body text (best effort,
    /// empty when unreadable), and the parsed body.
    Response { status: u16, body_text: String, body: BatchBody<E> },
}

/// The parsed body of the batch response.
pub enum BatchBody<E> {
    /// The body was not a well-formed response.
    Unparsed { detail: String },
    /// The embeddings, in the order the service listed them.
    Items(Vec<E>),
}

/// The result is an embedding-kind error with exactly this message.
pub open spec fn is_embedding_error<E>(r: Result<Vec<E>, SkypydbError>, message: Seq<char>) -> bool {
    match r {
        Err(e) => e.kind == ErrorKind::Embedding && e.message@ == message,
        Ok(_) => false,
    }
}

} // verus!
