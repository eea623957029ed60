//! Typed access to externally stored workflow definition documents.
//!
//! Given a URI, the library fetches raw bytes through a pluggable byte
//! source, decodes them according to the file extension's wire format,
//! validates the decoded document against structural rules, and caches the
//! validated result so repeated references to the same URI do not re-fetch
//! or re-validate.

use vstd::prelude::*;

pub mod cache;
pub mod decode;
pub mod definition;
pub mod error;
pub mod json;
pub mod loader;
pub mod numbers;
pub mod strings;
pub mod uri;
pub mod validation;

verus! {

/// Yields `true`, the default for boolean document fields that default on.
pub fn true_value() -> (r: bool)
    ensures
        r == true,
{
    true
}

/// Yields `false`, the default for boolean document fields that default off.
pub fn false_value() -> (r: bool)
    ensures
        r == false,
{
    false
}

/// Yields `jq`, the default workflow expression language.
pub fn jq() -> (r: String)
    ensures
        r@ == "jq"@,
{
    "jq".to_owned()
}

/// Yields the default execution mode for actions: sequential.
pub fn sequential() -> (r: definition::common::ExecutionMode)
    ensures
        r == definition::common::ExecutionMode::Sequential,
{
    definition::common::ExecutionMode::Sequential
}

/// Yields the default execution mode for iterations: parallel.
pub fn parallel() -> (r: definition::common::ExecutionMode)
    ensures
        r == definition::common::ExecutionMode::Parallel,
{
    definition::common::ExecutionMode::Parallel
}

/// Yields the default invocation mode: synchronous.
pub fn sync() -> (r: definition::common::InvocationMode)
    ensures
        r == definition::common::InvocationMode::Sync,
{
    definition::common::InvocationMode::Sync
}

/// Yields the default on-parent-complete behavior: terminate.
pub fn terminate() -> (r: definition::OnComplete)
    ensures
        r == definition::OnComplete::Terminate,
{
    definition::OnComplete::Terminate
}

/// Yields the default completion type for parallel branches: all of
/// them.
pub fn all_of() -> (r: definition::CompletionType)
    ensures
        r == definition::CompletionType::AllOf,
{
    definition::CompletionType::AllOf
}

/// Yields the default auth scheme: basic.
pub fn basic() -> (r: definition::auth::Scheme)
    ensures
        r == definition::auth::Scheme::Basic,
{
    definition::auth::Scheme::Basic
}

/// Yields the default event kind: consumed.
pub fn consumed() -> (r: definition::events::EventKind)
    ensures
        r == definition::events::EventKind::Consumed,
{
    definition::events::EventKind::Consumed
}

/// Yields the default function type: a REST endpoint.
pub fn rest() -> (r: definition::functions::FunctionType)
    ensures
        r == definition::functions::FunctionType::Rest,
{
    definition::functions::FunctionType::Rest
}

} // verus!
