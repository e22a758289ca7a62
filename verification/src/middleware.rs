//! The interception layer around downstream call resolution.
//!
//! [`TracingMiddleware`] wraps a resolution step without altering it: before
//! dispatch it takes the call's description, and once the outcome is known it
//! classifies the outcome and produces the diagnostic line to record when the
//! callee reported that no method matched. The outcome itself is always
//! handed back unchanged; the caller that owns the diagnostic sink records
//! the returned line, if any.

use vstd::prelude::*;

use crate::call::{Call, CallView, describe, spec_describe};
use crate::outcome::{
    Outcome, OutcomeView, is_method_not_found, option_outcome_view, spec_is_method_not_found,
};

verus! {

/// `"Received unrecognized RPC request: "`, the prefix of every diagnostic
/// line.
pub open spec fn diagnostic_prefix() -> Seq<char> {
    seq![
        'R', 'e', 'c', 'e', 'i', 'v', 'e', 'd', ' ',
        'u', 'n', 'r', 'e', 'c', 'o', 'g', 'n', 'i', 'z', 'e', 'd', ' ',
        'R', 'P', 'C', ' ',
        'r', 'e', 'q', 'u', 'e', 's', 't', ':', ' ',
    ]
}

/// The diagnostic line recorded for an unrecognized request: the fixed
/// prefix followed by the call's description.
pub open spec fn spec_diagnostic(description: Seq<char>) -> Seq<char> {
    diagnostic_prefix() + description
}

/// The diagnostic that intercepting a call produces, if any: present exactly
/// when the outcome is a present failure with the reserved code, and then it
/// is the diagnostic line for that call's description.
pub open spec fn spec_intercept_diag(c: CallView, o: Option<OutcomeView>) -> Option<Seq<char>> {
    if spec_is_method_not_found(o) {
        Some(spec_diagnostic(spec_describe(c)))
    } else {
        None
    }
}

/// The model of a possibly absent diagnostic line.
pub open spec fn option_string_view(o: Option<String>) -> Option<Seq<char>> {
    match o {
        Some(s) => Some(s@),
        None => None,
    }
}

/// Build the diagnostic line for a description, exactly as
/// [`spec_diagnostic`] states.
pub fn diagnostic_message(description: &str) -> (r: String)
    ensures
        r@ == spec_diagnostic(description@),
{
    proof {
        reveal_strlit("Received unrecognized RPC request: ");
    }
    let r = String::from_str("Received unrecognized RPC request: ").concat(description);
    assert(r@ =~= spec_diagnostic(description@));
    r
}

/// The middleware that observes calls and outcomes around an existing
/// resolution step.
pub struct TracingMiddleware;

impl TracingMiddleware {
    /// Obtain a description string for a received request.
    ///
    /// Prints out only the method name and the received parameters; total,
    /// deterministic, and free of side effects.
    pub fn call_description(&self, call: &Call) -> (r: String)
        ensures
            r@ == spec_describe(call@),
    {
        describe(call)
    }

    /// Check an RPC outcome against the previously taken description.
    ///
    /// Returns the outcome unchanged, together with the error line to record
    /// when the outcome indicates the method was not found, and no line
    /// otherwise. Recording the line is the caller's business: this layer
    /// only decides it.
    pub fn log_error_if_method_not_found(
        output: Option<Outcome>,
        call_description: String,
    ) -> (r: (Option<Outcome>, Option<String>))
        ensures
            r.0 == output,
            r.1 is Some <==> spec_is_method_not_found(option_outcome_view(output)),
            r.1 matches Some(m) ==> m@ == spec_diagnostic(call_description@),
    {
        if is_method_not_found(&output) {
            let msg = diagnostic_message(call_description.as_str());
            (output, Some(msg))
        } else {
            (output, None)
        }
    }

    /// Observe one call and its resolved outcome.
    ///
    /// The outcome comes back exactly as the downstream resolution produced
    /// it — this layer never alters, retries or suppresses it — and beside it
    /// stands the diagnostic line to record, present if and only if the
    /// outcome is a present failure carrying the reserved "method not found"
    /// code.
    pub fn intercept(&self, call: &Call, output: Option<Outcome>) -> (r: (
        Option<Outcome>,
        Option<String>,
    ))
        ensures
            r.0 == output,
            option_string_view(r.1) == spec_intercept_diag(call@, option_outcome_view(output)),
            r.1 is Some <==> spec_is_method_not_found(option_outcome_view(output)),
    {
        let description = self.call_description(call);
        Self::log_error_if_method_not_found(output, description)
    }
}

/// The set of diagnostic lines that a batch of calls produces, each call
/// classified against its own outcome.
pub open spec fn emitted_diagnostics(batch: Seq<(CallView, Option<OutcomeView>)>) -> Set<
    Seq<char>,
> {
    Set::new(
        |d: Seq<char>|
            exists|i: int|
                0 <= i < batch.len() && spec_intercept_diag(batch[i].0, batch[i].1) == Some(d),
    )
}

/// A completion order visits a call: some position of the order holds its
/// index.
pub open spec fn order_covers(order: Seq<int>, i: int) -> bool {
    exists|j: int| 0 <= j < order.len() && order[j] == i
}

/// Concurrent calls are classified independently: however the resolutions
/// interleave — modelled as any completion order that visits every call —
/// the diagnostics produced are exactly the set predicted by applying the
/// classification rule to each call's own outcome.
pub proof fn lemma_diagnostics_order_independent(
    batch: Seq<(CallView, Option<OutcomeView>)>,
    order: Seq<int>,
)
    requires
        order.len() == batch.len(),
        forall|j: int| 0 <= j < order.len() ==> 0 <= #[trigger] order[j] < batch.len(),
        forall|i: int| 0 <= i < batch.len() ==> #[trigger] order_covers(order, i),
    ensures
        emitted_diagnostics(order.map_values(|i: int| batch[i])) == emitted_diagnostics(batch),
{
    let permuted = order.map_values(|i: int| batch[i]);
    assert forall|d: Seq<char>|
        emitted_diagnostics(permuted).contains(d) implies emitted_diagnostics(batch).contains(
        d,
    ) by {
        let j = choose|j: int|
            0 <= j < permuted.len() && spec_intercept_diag(permuted[j].0, permuted[j].1) == Some(
                d,
            );
        assert(permuted[j] == batch[order[j]]);
        assert(spec_intercept_diag(batch[order[j]].0, batch[order[j]].1) == Some(d));
    }
    assert forall|d: Seq<char>|
        emitted_diagnostics(batch).contains(d) implies emitted_diagnostics(permuted).contains(
        d,
    ) by {
        let i = choose|i: int|
            0 <= i < batch.len() && spec_intercept_diag(batch[i].0, batch[i].1) == Some(d);
        assert(order_covers(order, i));
        let j = choose|j: int| 0 <= j < order.len() && order[j] == i;
        assert(permuted[j] == batch[i]);
        assert(spec_intercept_diag(permuted[j].0, permuted[j].1) == Some(d));
    }
    assert(emitted_diagnostics(permuted) =~= emitted_diagnostics(batch));
}

} // verus!
