//! Errors of the access-control engine.

use vstd::prelude::*;

verus! {

/// Failures an access-control caller can report.
#[derive(Debug, Clone)]
pub enum IstarError {
    AccessDenied(String),
    RuleMissing(String),
    ContextInvalid(String),
    EscalationRequired(String),
}

} // verus!
