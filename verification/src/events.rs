use vstd::prelude::*;

verus! {

/// Metadata attached to every input: an open, ordered mapping of parameter
/// keys to values, plus the distributed-trace correlation field.  The inbound
/// correlation value is discarded and replaced per event before the operator
/// sees it (see [`rewrite_trace_context`]).
#[derive(Clone, Debug, PartialEq, Eq)]
pub struct Metadata {
    pub open_telemetry_context: String,
    pub parameters: Vec<(String, String)>,
}

/// One event consumed by the dispatch loop.  `Stop` is a no-op sentinel,
/// acknowledged but requiring no state change; exhaustion of inputs is
/// signalled by closing the incoming channel, not by a variant here.
#[derive(Debug, PartialEq, Eq)]
pub enum IncomingEvent {
    Input { input_id: String, metadata: Metadata, data: Option<Vec<u8>> },
    Stop,
}

/// Why the dispatch loop terminated.
#[derive(Clone, Copy, Debug, PartialEq, Eq, Structural)]
pub enum StopReason {
    InputsClosed,
    ExplicitStop,
    ExplicitStopAll,
}

/// One event produced toward the owning runtime: either an operator output,
/// or exactly one terminal classification of the whole run.
#[derive(Clone, Debug, PartialEq, Eq)]
pub enum OperatorEvent {
    Output { output_id: String, metadata: Metadata, data: Vec<u8> },
    Finished { reason: StopReason },
    Error(String),
    Panic(String),
}

/// An `Output` event, emitted through the output bridge while a handler runs.
pub open spec fn is_output(e: OperatorEvent) -> bool {
    e matches OperatorEvent::Output { .. }
}

/// A terminal lifecycle event: `Finished`, `Error` or `Panic`.
pub open spec fn is_terminal(e: OperatorEvent) -> bool {
    !is_output(e)
}

/// Replaces the inbound trace-correlation field with a freshly derived
/// context string (the empty string when tracing is disabled), so the
/// operator never sees the parent's raw context.  All other parameters are
/// kept untouched.
pub fn rewrite_trace_context(metadata: &mut Metadata, context: String)
    ensures
        final(metadata).open_telemetry_context == context,
        final(metadata).parameters == old(metadata).parameters,
{
    metadata.open_telemetry_context = context;
}

} // verus!
