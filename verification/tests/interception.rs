//! End-to-end tests of the interception layer: descriptions, classification,
//! and the diagnostics that intercepting a call produces.

use rpc_trace::call::Call;
use rpc_trace::json::JsonValue;
use rpc_trace::middleware::{diagnostic_message, TracingMiddleware};
use rpc_trace::outcome::{is_method_not_found, Outcome, METHOD_NOT_FOUND_CODE};

fn method_not_found_failure() -> Outcome {
    Outcome::Failure {
        code: METHOD_NOT_FOUND_CODE,
        message: String::from("Method not found"),
        data: None,
    }
}

#[test]
fn describe_is_deterministic() {
    let call = Call::MethodCall {
        method: String::from("get_info"),
        params: JsonValue::Array(vec![JsonValue::Int(3), JsonValue::Bool(true)]),
    };
    let mw = TracingMiddleware;
    let first = mw.call_description(&call);
    let second = mw.call_description(&call);
    assert_eq!(first, second);
}

#[test]
fn describe_method_call() {
    let call = Call::MethodCall {
        method: String::from("foo"),
        params: JsonValue::Object(vec![(String::from("x"), JsonValue::Int(1))]),
    };
    let mw = TracingMiddleware;
    assert_eq!(
        mw.call_description(&call),
        "method = \"foo\", params = {\"x\": 1}"
    );
}

#[test]
fn describe_notification() {
    let call = Call::Notification {
        method: String::from("ping"),
        params: JsonValue::Null,
    };
    let mw = TracingMiddleware;
    assert_eq!(
        mw.call_description(&call),
        "notification = \"ping\", params = null"
    );
}

#[test]
fn describe_invalid() {
    let mw = TracingMiddleware;
    assert_eq!(mw.call_description(&Call::Invalid), "invalid request");
}

#[test]
fn named_call_method_not_found_emits_one_diagnostic() {
    let call = Call::MethodCall {
        method: String::from("foo"),
        params: JsonValue::Object(vec![(String::from("x"), JsonValue::Int(1))]),
    };
    let mw = TracingMiddleware;
    let (out, diag) = mw.intercept(&call, Some(method_not_found_failure()));
    assert_eq!(out, Some(method_not_found_failure()));
    let line = diag.expect("a diagnostic is owed");
    assert!(line.contains("method = \"foo\", params = {\"x\": 1}"));
    assert_eq!(
        line,
        "Received unrecognized RPC request: method = \"foo\", params = {\"x\": 1}"
    );
}

#[test]
fn notification_with_absent_outcome_is_silent() {
    let call = Call::Notification {
        method: String::from("ping"),
        params: JsonValue::Null,
    };
    let mw = TracingMiddleware;
    let (out, diag) = mw.intercept(&call, None);
    assert_eq!(out, None);
    assert_eq!(diag, None);
}

#[test]
fn success_outcome_is_silent_and_unchanged() {
    let call = Call::MethodCall {
        method: String::from("foo"),
        params: JsonValue::Null,
    };
    let mw = TracingMiddleware;
    let (out, diag) = mw.intercept(&call, Some(Outcome::Success(JsonValue::Int(42))));
    assert_eq!(out, Some(Outcome::Success(JsonValue::Int(42))));
    assert_eq!(diag, None);
}

#[test]
fn invalid_call_method_not_found_mentions_invalid_request() {
    let mw = TracingMiddleware;
    let (out, diag) = mw.intercept(&Call::Invalid, Some(method_not_found_failure()));
    assert_eq!(out, Some(method_not_found_failure()));
    let line = diag.expect("a diagnostic is owed");
    assert!(line.contains("invalid request"));
    assert_eq!(line, "Received unrecognized RPC request: invalid request");
}

#[test]
fn other_failure_codes_are_silent() {
    let call = Call::MethodCall {
        method: String::from("foo"),
        params: JsonValue::Null,
    };
    let mw = TracingMiddleware;
    let failure = Outcome::Failure {
        code: -32600,
        message: String::from("Invalid request"),
        data: Some(JsonValue::Str(String::from("detail"))),
    };
    let (out, diag) = mw.intercept(&call, Some(failure));
    assert_eq!(
        out,
        Some(Outcome::Failure {
            code: -32600,
            message: String::from("Invalid request"),
            data: Some(JsonValue::Str(String::from("detail"))),
        })
    );
    assert_eq!(diag, None);
}

#[test]
fn failure_outcome_passes_through_unchanged() {
    let call = Call::Notification {
        method: String::from("note"),
        params: JsonValue::Array(vec![]),
    };
    let mw = TracingMiddleware;
    let (out, diag) = mw.intercept(&call, Some(method_not_found_failure()));
    assert_eq!(out, Some(method_not_found_failure()));
    assert!(diag.is_some());
}

#[test]
fn classification_matches_only_the_reserved_code() {
    assert!(is_method_not_found(&Some(method_not_found_failure())));
    assert!(!is_method_not_found(&None));
    assert!(!is_method_not_found(&Some(Outcome::Success(
        JsonValue::Int(0)
    ))));
    assert!(!is_method_not_found(&Some(Outcome::Failure {
        code: -32700,
        message: String::from("Parse error"),
        data: None,
    })));
    assert!(!is_method_not_found(&Some(Outcome::Failure {
        code: 0,
        message: String::from("zero is not the sentinel"),
        data: None,
    })));
}

#[test]
fn reserved_code_is_the_protocol_sentinel() {
    assert_eq!(METHOD_NOT_FOUND_CODE, -32601);
}

#[test]
fn diagnostic_message_prepends_the_fixed_prefix() {
    assert_eq!(
        diagnostic_message("notification = \"ping\", params = null"),
        "Received unrecognized RPC request: notification = \"ping\", params = null"
    );
}

#[test]
fn two_step_interception_matches_the_one_step_form() {
    let call = Call::MethodCall {
        method: String::from("bar"),
        params: JsonValue::Bool(false),
    };
    let mw = TracingMiddleware;
    let description = mw.call_description(&call);
    let (out, diag) =
        TracingMiddleware::log_error_if_method_not_found(Some(method_not_found_failure()), description);
    assert_eq!(out, Some(method_not_found_failure()));
    assert_eq!(
        diag,
        Some(String::from(
            "Received unrecognized RPC request: method = \"bar\", params = false"
        ))
    );
}

#[test]
fn interleaved_batches_emit_the_same_diagnostics() {
    // The same three calls, observed in two completion orders; each order
    // must yield exactly the diagnostics predicted call by call.
    let make_calls = || {
        vec![
            (
                Call::MethodCall {
                    method: String::from("a"),
                    params: JsonValue::Int(1),
                },
                Some(method_not_found_failure()),
            ),
            (
                Call::Notification {
                    method: String::from("b"),
                    params: JsonValue::Null,
                },
                None,
            ),
            (
                Call::MethodCall {
                    method: String::from("c"),
                    params: JsonValue::Int(3),
                },
                Some(Outcome::Success(JsonValue::Int(9))),
            ),
        ]
    };
    let mw = TracingMiddleware;

    let mut forward: Vec<String> = Vec::new();
    for (call, out) in make_calls() {
        let (_, diag) = mw.intercept(&call, out);
        if let Some(line) = diag {
            forward.push(line);
        }
    }

    let mut backward: Vec<String> = Vec::new();
    for (call, out) in make_calls().into_iter().rev() {
        let (_, diag) = mw.intercept(&call, out);
        if let Some(line) = diag {
            backward.push(line);
        }
    }

    forward.sort();
    backward.sort();
    assert_eq!(forward, backward);
    assert_eq!(
        forward,
        vec![String::from(
            "Received unrecognized RPC request: method = \"a\", params = 1"
        )]
    );
}
