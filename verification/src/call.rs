//! Inbound RPC calls and their descriptions.
//!
//! A call is either a named method invocation, a notification (fire and
//! forget), or an invalid request carrying no usable fields. Before dispatch
//! proceeds, the interception layer takes a textual snapshot of the call's
//! identifying fields; [`spec_describe`] states that snapshot exactly.

use vstd::prelude::*;

use crate::json::{JsonValue, JsonView, spec_render, render_value, spec_quoted, quoted};

verus! {

/// One inbound RPC request.
#[derive(Debug, PartialEq, Eq)]
pub enum Call {
    /// A named method invocation expecting a reply.
    MethodCall { method: String, params: JsonValue },
    /// A fire-and-forget notification.
    Notification { method: String, params: JsonValue },
    /// A malformed request with no usable fields.
    Invalid,
}

/// The mathematical model of a [`Call`].
pub enum CallView {
    MethodCall { method: Seq<char>, params: JsonView },
    Notification { method: Seq<char>, params: JsonView },
    Invalid,
}

impl View for Call {
    type V = CallView;

    open spec fn view(&self) -> CallView {
        match *self {
            Call::MethodCall { method, params } => CallView::MethodCall {
                method: method@,
                params: params@,
            },
            Call::Notification { method, params } => CallView::Notification {
                method: method@,
                params: params@,
            },
            Call::Invalid => CallView::Invalid,
        }
    }
}

/// `"method = "`, the prefix of a method call's description.
pub open spec fn method_prefix() -> Seq<char> {
    seq!['m', 'e', 't', 'h', 'o', 'd', ' ', '=', ' ']
}

/// `"notification = "`, the prefix of a notification's description.
pub open spec fn notification_prefix() -> Seq<char> {
    seq!['n', 'o', 't', 'i', 'f', 'i', 'c', 'a', 't', 'i', 'o', 'n', ' ', '=', ' ']
}

/// `", params = "`, the separator before the rendered parameters.
pub open spec fn params_infix() -> Seq<char> {
    seq![',', ' ', 'p', 'a', 'r', 'a', 'm', 's', ' ', '=', ' ']
}

/// `"invalid request"`, the description of a malformed call.
pub open spec fn invalid_description() -> Seq<char> {
    seq!['i', 'n', 'v', 'a', 'l', 'i', 'd', ' ', 'r', 'e', 'q', 'u', 'e', 's', 't']
}

/// The description of a call: the method name, quoted, and the rendered
/// parameters, or a fixed marker for a malformed call. Total and
/// deterministic over the call's model.
pub open spec fn spec_describe(c: CallView) -> Seq<char> {
    match c {
        CallView::MethodCall { method, params } => method_prefix() + spec_quoted(method)
            + params_infix() + spec_render(params),
        CallView::Notification { method, params } => notification_prefix() + spec_quoted(method)
            + params_infix() + spec_render(params),
        CallView::Invalid => invalid_description(),
    }
}

/// Build the description of a call, exactly as [`spec_describe`] states.
///
/// This never fails and reads the call only for the duration of the
/// rendering.
pub fn describe(call: &Call) -> (r: String)
    ensures
        r@ == spec_describe(call@),
{
    match call {
        Call::MethodCall { method, params } => {
            proof {
                reveal_strlit("method = ");
                reveal_strlit(", params = ");
            }
            let mut out = String::from_str("method = ");
            assert(out@ =~= method_prefix());
            out.append(quoted(method.as_str()).as_str());
            out.append(", params = ");
            out.append(render_value(params).as_str());
            assert(out@ =~= spec_describe(call@));
            out
        },
        Call::Notification { method, params } => {
            proof {
                reveal_strlit("notification = ");
                reveal_strlit(", params = ");
            }
            let mut out = String::from_str("notification = ");
            assert(out@ =~= notification_prefix());
            out.append(quoted(method.as_str()).as_str());
            out.append(", params = ");
            out.append(render_value(params).as_str());
            assert(out@ =~= spec_describe(call@));
            out
        },
        Call::Invalid => {
            proof {
                reveal_strlit("invalid request");
            }
            let out = String::from_str("invalid request");
            assert(out@ =~= spec_describe(call@));
            out
        },
    }
}

/// `describe` is deterministic: any two description strings taken of the
/// same call are identical.
pub proof fn lemma_describe_deterministic(c: CallView, r1: Seq<char>, r2: Seq<char>)
    requires
        r1 == spec_describe(c),
        r2 == spec_describe(c),
    ensures
        r1 == r2,
{
}

} // verus!
