use vstd::prelude::*;
use vstd::string::StringExecFns;

use crate::events::{is_output, Metadata, OperatorEvent};

verus! {

/// A fault of one output-bridge invocation, reported back to the calling
/// operator code: neither fault terminates the dispatch loop by itself.
#[derive(Clone, Copy, Debug, PartialEq, Eq, Structural)]
pub enum BridgeFault {
    /// The metadata mapping handed to the bridge has an invalid shape.
    MetadataParse,
    /// The outgoing channel's receiving end is already gone.
    ChannelClosed,
}

impl BridgeFault {
    /// The report text of each bridge fault.
    pub open spec fn text(&self) -> Seq<char> {
        match self {
            BridgeFault::MetadataParse => "Could not parse metadata."@,
            BridgeFault::ChannelClosed => "failed to send output to runtime"@,
        }
    }

    /// Renders the fault as the text reported to the operator code.
    pub fn message(&self) -> (r: String)
        ensures
            r@ == self.text(),
    {
        match self {
            BridgeFault::MetadataParse => String::from_str("Could not parse metadata."),
            BridgeFault::ChannelClosed => String::from_str("failed to send output to runtime"),
        }
    }
}

/// One invocation of the output bridge by operator code: an output
/// identifier, the payload bytes, and the (already parsed) metadata.
#[derive(Clone, Debug, PartialEq, Eq)]
pub struct OutputCall {
    pub output_id: String,
    pub data: Vec<u8>,
    pub metadata: Metadata,
}

/// The event a bridge invocation enqueues: an owned copy of the output
/// identifier, metadata and payload bytes.
pub open spec fn output_event_of(call: OutputCall) -> OperatorEvent {
    OperatorEvent::Output {
        output_id: call.output_id,
        metadata: call.metadata,
        data: call.data,
    }
}

/// The events that a sequence of bridge invocations enqueues, in call order.
pub open spec fn output_events_of(calls: Seq<OutputCall>) -> Seq<OperatorEvent> {
    calls.map_values(|c: OutputCall| output_event_of(c))
}

/// Builds the `Output` event for one bridge invocation.
pub fn make_output_event(call: OutputCall) -> (e: OperatorEvent)
    ensures
        e == output_event_of(call),
{
    let OutputCall { output_id, data, metadata } = call;
    OperatorEvent::Output { output_id, metadata, data }
}

/// Enqueues the events for a batch of bridge invocations made during one
/// handler call: `N` invocations append exactly `N` `Output` events, in call
/// order, with everything already in the sink left in place.
pub fn emit_outputs(calls: Vec<OutputCall>, sink: &mut Vec<OperatorEvent>)
    ensures
        final(sink)@ == old(sink)@ + output_events_of(calls@),
{
    let ghost all = calls@;
    let mut remaining = calls;
    let n = remaining.len();
    let mut done: usize = 0;
    while remaining.len() > 0
        invariant
            n == all.len(),
            done + remaining@.len() == all.len(),
            remaining@ == all.skip(done as int),
            sink@ == old(sink)@ + output_events_of(all.take(done as int)),
        decreases remaining@.len(),
    {
        let call = remaining.remove(0);
        proof {
            assert(call == all[done as int]);
            assert(all.skip(done as int).remove(0) =~= all.skip(done as int + 1));
            assert(all.take(done as int).push(all[done as int]) =~= all.take(
                done as int + 1,
            ));
            assert(output_events_of(all.take(done as int)).push(output_event_of(call))
                =~= output_events_of(all.take(done as int + 1)));
            assert((old(sink)@ + output_events_of(all.take(done as int))).push(
                output_event_of(call),
            ) =~= old(sink)@ + output_events_of(all.take(done as int + 1)));
        }
        sink.push(make_output_event(call));
        done = done + 1;
    }
    proof {
        assert(all.take(all.len() as int) =~= all);
    }
}

/// Law: `N` bridge invocations during one handler call enqueue exactly `N`
/// events, the `i`-th being the `Output` event of the `i`-th invocation — in
/// call order, nothing dropped, reordered or added.
pub proof fn lemma_bridge_emits_outputs(calls: Seq<OutputCall>)
    ensures
        output_events_of(calls).len() == calls.len(),
        forall|i: int|
            0 <= i < calls.len() ==> #[trigger] output_events_of(calls)[i] == output_event_of(
                calls[i],
            ),
        forall|i: int|
            0 <= i < calls.len() ==> is_output(#[trigger] output_events_of(calls)[i]),
{
}

} // verus!
