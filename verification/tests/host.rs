use operator_host::bridge::{emit_outputs, make_output_event, BridgeFault, OutputCall};
use operator_host::dispatch::{
    interpret_handler_outcome, run_host, run_loop, HandlerOutcome, InputBehavior, LoopVerdict,
    RunOutcome, ScriptEvent,
};
use operator_host::errors::{startup_error_event, StartupFault};
use operator_host::events::{Metadata, OperatorEvent, StopReason};
use operator_host::locate::{locate_source, source_is_url, target_cache_path, SourceLocation};
use operator_host::messages::{
    attach_traceback, decimal_i32, decimal_u32, invalid_status_message, module_error_message,
    wrap_error,
};
use operator_host::status::{parse_status, StatusCode};

fn meta() -> Metadata {
    Metadata {
        open_telemetry_context: String::new(),
        parameters: Vec::new(),
    }
}

fn call(output_id: &str, data: &[u8]) -> OutputCall {
    OutputCall {
        output_id: output_id.to_owned(),
        data: data.to_owned(),
        metadata: meta(),
    }
}

fn input(outputs: Vec<OutputCall>, outcome: HandlerOutcome) -> ScriptEvent {
    ScriptEvent::Input(InputBehavior { outputs, outcome })
}

#[test]
fn exhausted_inputs_finish_inputs_closed() {
    let script = vec![
        input(vec![], HandlerOutcome::Returned(0)),
        ScriptEvent::Stop,
        input(vec![], HandlerOutcome::Returned(0)),
    ];
    let mut sink = Vec::new();
    let consumed = run_host(script, &mut sink);
    assert_eq!(consumed, 3);
    assert_eq!(
        sink,
        vec![OperatorEvent::Finished {
            reason: StopReason::InputsClosed
        }]
    );
}

#[test]
fn stop_status_ends_run_immediately() {
    let script = vec![
        input(vec![], HandlerOutcome::Returned(0)),
        input(vec![], HandlerOutcome::Returned(1)),
        input(vec![call("late", b"x")], HandlerOutcome::Returned(0)),
    ];
    let mut sink = Vec::new();
    let consumed = run_host(script, &mut sink);
    assert_eq!(consumed, 2);
    assert_eq!(
        sink,
        vec![OperatorEvent::Finished {
            reason: StopReason::ExplicitStop
        }]
    );
}

#[test]
fn stop_all_status_ends_run_immediately() {
    let script = vec![
        input(vec![], HandlerOutcome::Returned(2)),
        input(vec![], HandlerOutcome::Returned(0)),
    ];
    let mut sink = Vec::new();
    let consumed = run_host(script, &mut sink);
    assert_eq!(consumed, 1);
    assert_eq!(
        sink,
        vec![OperatorEvent::Finished {
            reason: StopReason::ExplicitStopAll
        }]
    );
}

#[test]
fn invalid_status_reports_single_error() {
    let script = vec![
        input(vec![], HandlerOutcome::Returned(5)),
        input(vec![call("late", b"x")], HandlerOutcome::Returned(0)),
    ];
    let mut sink = Vec::new();
    let consumed = run_host(script, &mut sink);
    assert_eq!(consumed, 1);
    assert_eq!(
        sink,
        vec![OperatorEvent::Error(
            "on_input returned invalid status 5".to_owned()
        )]
    );
}

#[test]
fn handler_exception_reports_error_with_traceback() {
    let report = attach_traceback("Traceback (most recent call last): ...", "ValueError: bad");
    let script = vec![input(vec![], HandlerOutcome::Raised(report.clone()))];
    let mut sink = Vec::new();
    run_host(script, &mut sink);
    assert_eq!(sink, vec![OperatorEvent::Error(report)]);
}

#[test]
fn bridge_emits_outputs_in_call_order() {
    let calls = vec![call("a", b"1"), call("b", b"2"), call("c", b"3")];
    let mut sink = Vec::new();
    emit_outputs(calls, &mut sink);
    assert_eq!(sink.len(), 3);
    assert_eq!(sink[0], make_output_event(call("a", b"1")));
    assert_eq!(sink[1], make_output_event(call("b", b"2")));
    assert_eq!(sink[2], make_output_event(call("c", b"3")));
}

#[test]
fn outputs_precede_status_interpretation() {
    let script = vec![input(
        vec![call("x", b"1"), call("y", b"2")],
        HandlerOutcome::Returned(1),
    )];
    let mut sink = Vec::new();
    run_host(script, &mut sink);
    assert_eq!(
        sink,
        vec![
            make_output_event(call("x", b"1")),
            make_output_event(call("y", b"2")),
            OperatorEvent::Finished {
                reason: StopReason::ExplicitStop
            },
        ]
    );
}

#[test]
fn native_unwind_reports_single_panic() {
    let script = vec![
        input(vec![call("kept", b"1")], HandlerOutcome::Unwound("boom".to_owned())),
        input(vec![call("late", b"2")], HandlerOutcome::Returned(0)),
    ];
    let mut sink = Vec::new();
    let consumed = run_host(script, &mut sink);
    assert_eq!(consumed, 1);
    assert_eq!(
        sink,
        vec![
            make_output_event(call("kept", b"1")),
            OperatorEvent::Panic("boom".to_owned()),
        ]
    );
}

#[test]
fn continue_scenario_emits_output_then_finished() {
    let location = locate_source("ops/op.py", "node", "op");
    assert_eq!(
        location,
        SourceLocation::Local {
            path: "ops/op.py".to_owned()
        }
    );
    let script = vec![input(vec![call("out", b"2")], HandlerOutcome::Returned(0))];
    let mut sink = Vec::new();
    let consumed = run_host(script, &mut sink);
    assert_eq!(consumed, 1);
    assert_eq!(
        sink,
        vec![
            make_output_event(call("out", b"2")),
            OperatorEvent::Finished {
                reason: StopReason::InputsClosed
            },
        ]
    );
}

#[test]
fn missing_source_reports_single_error() {
    let fault = StartupFault::MissingFile {
        path: "/does/not/exist/op.py".to_owned(),
    };
    let report = vec![startup_error_event(&fault)];
    assert_eq!(
        report,
        vec![OperatorEvent::Error(
            "No python file exists at /does/not/exist/op.py".to_owned()
        )]
    );
}

#[test]
fn run_loop_returns_outcome_and_consumed() {
    let script = vec![
        ScriptEvent::Stop,
        input(vec![], HandlerOutcome::Returned(7)),
    ];
    let mut sink = Vec::new();
    let (outcome, consumed) = run_loop(script, &mut sink);
    assert_eq!(consumed, 2);
    assert_eq!(
        outcome,
        RunOutcome::Errored("on_input returned invalid status 7".to_owned())
    );
    assert!(sink.is_empty());
}

#[test]
fn status_protocol_has_exactly_three_values() {
    assert_eq!(parse_status(0), Some(StatusCode::Continue));
    assert_eq!(parse_status(1), Some(StatusCode::Stop));
    assert_eq!(parse_status(2), Some(StatusCode::StopAll));
    assert_eq!(parse_status(3), None);
    assert_eq!(parse_status(-1), None);
    assert_eq!(parse_status(i32::MAX), None);
}

#[test]
fn verdicts_follow_status_protocol() {
    assert_eq!(
        interpret_handler_outcome(HandlerOutcome::Returned(0)),
        LoopVerdict::KeepRunning
    );
    assert_eq!(
        interpret_handler_outcome(HandlerOutcome::Returned(1)),
        LoopVerdict::Finish(StopReason::ExplicitStop)
    );
    assert_eq!(
        interpret_handler_outcome(HandlerOutcome::Returned(2)),
        LoopVerdict::Finish(StopReason::ExplicitStopAll)
    );
    assert_eq!(
        interpret_handler_outcome(HandlerOutcome::Returned(-3)),
        LoopVerdict::Fail("on_input returned invalid status -3".to_owned())
    );
}

#[test]
fn decimal_rendering_is_exact() {
    assert_eq!(decimal_u32(0).as_str(), "0");
    assert_eq!(decimal_u32(10).as_str(), "10");
    assert_eq!(decimal_u32(1234567890).as_str(), "1234567890");
    assert_eq!(decimal_u32(u32::MAX).as_str(), "4294967295");
    assert_eq!(decimal_i32(5).as_str(), "5");
    assert_eq!(decimal_i32(-7).as_str(), "-7");
    assert_eq!(decimal_i32(i32::MIN).as_str(), "-2147483648");
    assert_eq!(decimal_i32(i32::MAX).as_str(), "2147483647");
}

#[test]
fn fault_messages_are_exact() {
    assert_eq!(
        invalid_status_message(5).as_str(),
        "on_input returned invalid status 5"
    );
    assert_eq!(
        attach_traceback("tb", "err").as_str(),
        "tb\nerr"
    );
    assert_eq!(
        wrap_error("failed to init python operator", "no `Operator` class found in module")
            .as_str(),
        "failed to init python operator: no `Operator` class found in module"
    );
    assert_eq!(
        module_error_message("/ops/op.py", "boom").as_str(),
        "error in Python module at /ops/op.py: boom"
    );
    assert_eq!(
        StartupFault::NoOperatorEntryPoint.message().as_str(),
        "no `Operator` class found in module"
    );
    assert_eq!(
        StartupFault::PathEncoding.message().as_str(),
        "module path is not valid utf8"
    );
    assert_eq!(
        StartupFault::UnresolvablePath {
            path: "x.py".to_owned()
        }
        .message()
        .as_str(),
        "no file found at `x.py`"
    );
    assert_eq!(
        StartupFault::DownloadFailed {
            detail: "timeout".to_owned()
        }
        .message()
        .as_str(),
        "failed to download Python operator: timeout"
    );
}

#[test]
fn url_detection_and_cache_path() {
    assert!(source_is_url("https://example.com/op.py"));
    assert!(source_is_url("http://host/op.py"));
    assert!(!source_is_url("ops/op.py"));
    assert!(source_is_url("://"));
    assert!(!source_is_url(":/"));
    assert!(source_is_url("x://"));
    assert_eq!(target_cache_path("node", "op").as_str(), "build/node/op.py");
    let location = locate_source("https://example.com/op.py", "node", "op");
    assert_eq!(
        location,
        SourceLocation::Remote {
            cache_path: "build/node/op.py".to_owned()
        }
    );
}

#[test]
fn trace_context_is_rewritten() {
    let mut m = Metadata {
        open_telemetry_context: "parent-context".to_owned(),
        parameters: vec![("key".to_owned(), "value".to_owned())],
    };
    operator_host::events::rewrite_trace_context(&mut m, String::new());
    assert_eq!(m.open_telemetry_context.as_str(), "");
    assert_eq!(m.parameters, vec![("key".to_owned(), "value".to_owned())]);
}

#[test]
fn bridge_fault_messages_are_exact() {
    assert_eq!(
        BridgeFault::MetadataParse.message().as_str(),
        "Could not parse metadata."
    );
    assert_eq!(
        BridgeFault::ChannelClosed.message().as_str(),
        "failed to send output to runtime"
    );
}

#[test]
fn empty_script_reports_inputs_closed_only() {
    let mut sink = Vec::new();
    let consumed = run_host(Vec::new(), &mut sink);
    assert_eq!(consumed, 0);
    assert_eq!(
        sink,
        vec![OperatorEvent::Finished {
            reason: StopReason::InputsClosed
        }]
    );
}

#[test]
fn outputs_before_exception_are_kept() {
    let script = vec![input(
        vec![call("partial", b"1")],
        HandlerOutcome::Raised("tb\nValueError".to_owned()),
    )];
    let mut sink = Vec::new();
    run_host(script, &mut sink);
    assert_eq!(
        sink,
        vec![
            make_output_event(call("partial", b"1")),
            OperatorEvent::Error("tb\nValueError".to_owned()),
        ]
    );
}

#[test]
fn empty_bridge_batch_emits_nothing() {
    let mut sink = vec![make_output_event(call("kept", b"0"))];
    emit_outputs(Vec::new(), &mut sink);
    assert_eq!(sink, vec![make_output_event(call("kept", b"0"))]);
}
