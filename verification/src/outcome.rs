//! Outcomes of downstream call resolution, and their classification.
//!
//! Resolving a call yields either no reply (a notification produces none) or
//! a reply: a success value or a structured failure. The interception layer
//! classifies an outcome as "method not found" if and only if it is a present
//! failure whose code equals the reserved sentinel.

use vstd::prelude::*;

use crate::json::{JsonValue, JsonView};

verus! {

/// The reserved failure code that signals no handler matched the requested
/// method name.
pub const METHOD_NOT_FOUND_CODE: i64 = -32601;

/// A present result of resolving a call.
#[derive(Debug, PartialEq, Eq)]
pub enum Outcome {
    /// The handler produced a value.
    Success(JsonValue),
    /// The resolution failed with a structured error.
    Failure { code: i64, message: String, data: Option<JsonValue> },
}

/// The mathematical model of an [`Outcome`].
pub enum OutcomeView {
    Success(JsonView),
    Failure { code: int, message: Seq<char>, data: Option<JsonView> },
}

impl View for Outcome {
    type V = OutcomeView;

    open spec fn view(&self) -> OutcomeView {
        match *self {
            Outcome::Success(v) => OutcomeView::Success(v@),
            Outcome::Failure { code, message, data } => OutcomeView::Failure {
                code: code as int,
                message: message@,
                data: match data {
                    Some(d) => Some(d@),
                    None => None,
                },
            },
        }
    }
}

/// The model of a possibly absent outcome: `None` when the call produced no
/// reply.
pub open spec fn option_outcome_view(o: Option<Outcome>) -> Option<OutcomeView> {
    match o {
        Some(out) => Some(out@),
        None => None,
    }
}

/// An outcome matches the "method not found" classification if and only if
/// it is present, is a failure, and carries the reserved code. Absent
/// outcomes, successes, and failures with any other code do not match.
pub open spec fn spec_is_method_not_found(o: Option<OutcomeView>) -> bool {
    match o {
        Some(OutcomeView::Failure { code, .. }) => code == METHOD_NOT_FOUND_CODE as int,
        _ => false,
    }
}

/// Decide the "method not found" classification of an outcome.
pub fn is_method_not_found(o: &Option<Outcome>) -> (r: bool)
    ensures
        r == spec_is_method_not_found(option_outcome_view(*o)),
{
    match o {
        Some(Outcome::Failure { code, .. }) => *code == METHOD_NOT_FOUND_CODE,
        _ => false,
    }
}

} // verus!
