//! Embedding provider abstraction: a configuration-driven factory over three
//! text-embedding backends (a per-item remote service, a batched remote
//! service, and an in-process model runtime), with strict, closed validation
//! of loosely-typed configuration and fuzzy model-name resolution.

use vstd::prelude::*;

pub mod config;
pub mod errors;
pub mod factory;
pub mod local;
pub mod names;
pub mod ollama;
pub mod openai;
pub mod strutil;

verus! {

} // verus!
