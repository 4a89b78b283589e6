use vstd::prelude::*;

use crate::bridge::{emit_outputs, output_event_of, output_events_of, OutputCall};
use crate::events::{is_output, is_terminal, OperatorEvent, StopReason};
use crate::messages::{invalid_status_message, invalid_status_text};
use crate::status::{parse_status, status_of, StatusCode};

verus! {

/// What the operator's handler did for one dispatched input: it returned a
/// raw status integer, raised an embedded-language exception (carried as the
/// formatted traceback text), or unwound natively.
#[derive(Debug, PartialEq, Eq)]
pub enum HandlerOutcome {
    Returned(i32),
    Raised(String),
    Unwound(String),
}

/// The loop's decision after one handler invocation.
#[derive(Debug, PartialEq, Eq)]
pub enum LoopVerdict {
    KeepRunning,
    Finish(StopReason),
    Fail(String),
    Abort(String),
}

/// Spec-level mirror of [`LoopVerdict`], with message content as character
/// sequences.
pub enum VerdictModel {
    KeepRunning,
    Finish(StopReason),
    Fail(Seq<char>),
    Abort(Seq<char>),
}

impl View for LoopVerdict {
    type V = VerdictModel;

    open spec fn view(&self) -> VerdictModel {
        match self {
            LoopVerdict::KeepRunning => VerdictModel::KeepRunning,
            LoopVerdict::Finish(reason) => VerdictModel::Finish(*reason),
            LoopVerdict::Fail(m) => VerdictModel::Fail(m@),
            LoopVerdict::Abort(p) => VerdictModel::Abort(p@),
        }
    }
}

/// The verdict the status protocol assigns to one handler outcome.
pub open spec fn verdict_of(outcome: HandlerOutcome) -> VerdictModel {
    match outcome {
        HandlerOutcome::Returned(v) => match status_of(v as int) {
            Some(StatusCode::Continue) => VerdictModel::KeepRunning,
            Some(StatusCode::Stop) => VerdictModel::Finish(StopReason::ExplicitStop),
            Some(StatusCode::StopAll) => VerdictModel::Finish(StopReason::ExplicitStopAll),
            None => VerdictModel::Fail(invalid_status_text(v as int)),
        },
        HandlerOutcome::Raised(tb) => VerdictModel::Fail(tb@),
        HandlerOutcome::Unwound(payload) => VerdictModel::Abort(payload@),
    }
}

/// The per-iteration decision of the dispatch loop: interprets what one
/// handler invocation did.  `Continue` keeps the loop running; `Stop` and
/// `StopAll` end it with the matching reason; any other return value is the
/// invalid-status fault; an exception fails the run and a native unwind
/// aborts it.
pub fn interpret_handler_outcome(outcome: HandlerOutcome) -> (v: LoopVerdict)
    ensures
        v@ == verdict_of(outcome),
{
    match outcome {
        HandlerOutcome::Returned(value) => match parse_status(value) {
            Some(StatusCode::Continue) => LoopVerdict::KeepRunning,
            Some(StatusCode::Stop) => LoopVerdict::Finish(StopReason::ExplicitStop),
            Some(StatusCode::StopAll) => LoopVerdict::Finish(StopReason::ExplicitStopAll),
            None => LoopVerdict::Fail(invalid_status_message(value)),
        },
        HandlerOutcome::Raised(tb) => LoopVerdict::Fail(tb),
        HandlerOutcome::Unwound(payload) => LoopVerdict::Abort(payload),
    }
}

/// The terminal classification of a whole run.
#[derive(Debug, PartialEq, Eq)]
pub enum RunOutcome {
    Finished(StopReason),
    Errored(String),
    Panicked(String),
}

/// Spec-level mirror of [`RunOutcome`].
pub enum RunOutcomeModel {
    Finished(StopReason),
    Errored(Seq<char>),
    Panicked(Seq<char>),
}

impl View for RunOutcome {
    type V = RunOutcomeModel;

    open spec fn view(&self) -> RunOutcomeModel {
        match self {
            RunOutcome::Finished(reason) => RunOutcomeModel::Finished(*reason),
            RunOutcome::Errored(m) => RunOutcomeModel::Errored(m@),
            RunOutcome::Panicked(p) => RunOutcomeModel::Panicked(p@),
        }
    }
}

/// What one dispatched input made the operator do: the bridge invocations it
/// performed while the handler ran, then the handler's outcome.
#[derive(Debug, PartialEq, Eq)]
pub struct InputBehavior {
    pub outputs: Vec<OutputCall>,
    pub outcome: HandlerOutcome,
}

/// One event of a scripted run: a `Stop` sentinel, or an input together with
/// the behaviour the operator showed for it.  Channel closure is the end of
/// the script.
#[derive(Debug, PartialEq, Eq)]
pub enum ScriptEvent {
    Stop,
    Input(InputBehavior),
}

/// The events a script event makes the loop enqueue while it is handled.
pub open spec fn event_outputs(e: ScriptEvent) -> Seq<OperatorEvent> {
    match e {
        ScriptEvent::Stop => Seq::empty(),
        ScriptEvent::Input(b) => output_events_of(b.outputs@),
    }
}

/// The verdict one script event leads to (`Stop` sentinels keep the loop
/// running without a handler call).
pub open spec fn event_verdict(e: ScriptEvent) -> VerdictModel {
    match e {
        ScriptEvent::Stop => VerdictModel::KeepRunning,
        ScriptEvent::Input(b) => verdict_of(b.outcome),
    }
}

/// Whether the loop stays in its running state after this event.
pub open spec fn keeps_running(e: ScriptEvent) -> bool {
    event_verdict(e) is KeepRunning
}

/// The run outcome of a verdict that ends the loop.
pub open spec fn outcome_of_verdict(v: VerdictModel) -> RunOutcomeModel {
    match v {
        VerdictModel::KeepRunning => RunOutcomeModel::Finished(StopReason::InputsClosed),
        VerdictModel::Finish(reason) => RunOutcomeModel::Finished(reason),
        VerdictModel::Fail(m) => RunOutcomeModel::Errored(m),
        VerdictModel::Abort(p) => RunOutcomeModel::Panicked(p),
    }
}

/// What a run of the dispatch loop does: the outputs it forwards, its
/// terminal classification, and how many incoming events it consumes.
pub struct LoopModel {
    pub outputs: Seq<OperatorEvent>,
    pub outcome: RunOutcomeModel,
    pub consumed: int,
}

/// The loop's behaviour from position `i` of the script: events are taken
/// strictly in order; a terminal verdict stops consumption at once; running
/// off the end of the script is the inputs-closed exit.
pub open spec fn loop_model_from(script: Seq<ScriptEvent>, i: int) -> LoopModel
    decreases script.len() - i,
{
    if i < 0 || i >= script.len() {
        LoopModel {
            outputs: Seq::empty(),
            outcome: RunOutcomeModel::Finished(StopReason::InputsClosed),
            consumed: 0,
        }
    } else if keeps_running(script[i]) {
        let rest = loop_model_from(script, i + 1);
        LoopModel {
            outputs: event_outputs(script[i]) + rest.outputs,
            outcome: rest.outcome,
            consumed: 1 + rest.consumed,
        }
    } else {
        LoopModel {
            outputs: event_outputs(script[i]),
            outcome: outcome_of_verdict(event_verdict(script[i])),
            consumed: 1,
        }
    }
}

/// The loop's behaviour over a whole script.
pub open spec fn loop_model(script: Seq<ScriptEvent>) -> LoopModel {
    loop_model_from(script, 0)
}

/// Whether one outgoing event reports the given run outcome.
pub open spec fn reports(e: OperatorEvent, outcome: RunOutcomeModel) -> bool {
    match outcome {
        RunOutcomeModel::Finished(reason) => e == (OperatorEvent::Finished { reason }),
        RunOutcomeModel::Errored(m) => e matches OperatorEvent::Error(s) && s@ == m,
        RunOutcomeModel::Panicked(p) => e matches OperatorEvent::Panic(s) && s@ == p,
    }
}

/// Failure containment: classifies the run's outcome into exactly one
/// terminal event and appends it to the sink.
pub fn report_outcome(outcome: RunOutcome, sink: &mut Vec<OperatorEvent>)
    ensures
        final(sink)@.len() == old(sink)@.len() + 1,
        final(sink)@ == old(sink)@.push(final(sink)@.last()),
        reports(final(sink)@.last(), outcome@),
        is_terminal(final(sink)@.last()),
{
    let e = match outcome {
        RunOutcome::Finished(reason) => OperatorEvent::Finished { reason },
        RunOutcome::Errored(m) => OperatorEvent::Error(m),
        RunOutcome::Panicked(p) => OperatorEvent::Panic(p),
    };
    sink.push(e);
}

/// The dispatch loop, driven over a script of incoming events and the
/// behaviours the operator showed for them.  Outputs are forwarded in order,
/// the first terminal verdict ends consumption at once, and the returned
/// pair carries the terminal classification and how many events were
/// consumed.
pub fn run_loop(script: Vec<ScriptEvent>, sink: &mut Vec<OperatorEvent>) -> (r: (
    RunOutcome,
    usize,
))
    ensures
        final(sink)@ == old(sink)@ + loop_model(script@).outputs,
        r.0@ == loop_model(script@).outcome,
        r.1 == loop_model(script@).consumed,
{
    let ghost all = script@;
    let mut remaining = script;
    let n = remaining.len();
    let mut consumed: usize = 0;
    let mut outcome = RunOutcome::Finished(StopReason::InputsClosed);
    let mut stopped = false;
    let ghost mut emitted: Seq<OperatorEvent> = Seq::empty();

    while !stopped && remaining.len() > 0
        invariant
            n == all.len(),
            consumed + remaining@.len() == n,
            remaining@ == all.skip(consumed as int),
            sink@ == old(sink)@ + emitted,
            !stopped ==> loop_model(all).outputs == emitted + loop_model_from(
                all,
                consumed as int,
            ).outputs,
            !stopped ==> loop_model(all).outcome == loop_model_from(all, consumed as int).outcome,
            !stopped ==> loop_model(all).consumed == consumed + loop_model_from(
                all,
                consumed as int,
            ).consumed,
            !stopped ==> outcome@ == RunOutcomeModel::Finished(StopReason::InputsClosed),
            stopped ==> emitted == loop_model(all).outputs,
            stopped ==> outcome@ == loop_model(all).outcome,
            stopped ==> consumed == loop_model(all).consumed,
        decreases remaining@.len(),
    {
        let ghost at = consumed as int;
        let ghost emitted_before = emitted;
        let e = remaining.remove(0);
        proof {
            assert(e == all[at]);
            assert(all.skip(at).remove(0) =~= all.skip(at + 1));
        }
        consumed = consumed + 1;
        match e {
            ScriptEvent::Stop => {
                proof {
                    assert(keeps_running(all[at]));
                    assert(emitted_before + (event_outputs(all[at]) + loop_model_from(
                        all,
                        at + 1,
                    ).outputs) =~= emitted + loop_model_from(all, at + 1).outputs);
                }
            },
            ScriptEvent::Input(behavior) => {
                let InputBehavior { outputs, outcome: handler_outcome } = behavior;
                let ghost calls = outputs@;
                let ghost houtcome = handler_outcome;
                proof {
                    assert(event_outputs(all[at]) == output_events_of(calls));
                    assert(event_verdict(all[at]) == verdict_of(houtcome));
                }
                emit_outputs(outputs, sink);
                proof {
                    emitted = emitted_before + output_events_of(calls);
                }
                let verdict = interpret_handler_outcome(handler_outcome);
                match verdict {
                    LoopVerdict::KeepRunning => {
                        proof {
                            assert(keeps_running(all[at]));
                            assert(emitted_before + (event_outputs(all[at]) + loop_model_from(
                                all,
                                at + 1,
                            ).outputs) =~= emitted + loop_model_from(all, at + 1).outputs);
                        }
                    },
                    LoopVerdict::Finish(reason) => {
                        outcome = RunOutcome::Finished(reason);
                        stopped = true;
                        proof {
                            assert(!keeps_running(all[at]));
                        }
                    },
                    LoopVerdict::Fail(m) => {
                        outcome = RunOutcome::Errored(m);
                        stopped = true;
                        proof {
                            assert(!keeps_running(all[at]));
                        }
                    },
                    LoopVerdict::Abort(p) => {
                        outcome = RunOutcome::Panicked(p);
                        stopped = true;
                        proof {
                            assert(!keeps_running(all[at]));
                        }
                    },
                }
            },
        }
    }
    proof {
        if !stopped {
            assert(consumed == n);
            assert(emitted + loop_model_from(all, n as int).outputs =~= emitted);
        }
    }
    (outcome, consumed)
}

/// The unwind boundary's overall guarantee, stated over a whole scripted
/// run: the sink receives the forwarded outputs, in order, followed by
/// exactly one terminal event that reports the run's classification — never
/// more than one and never zero, on any exit path.
pub fn run_host(script: Vec<ScriptEvent>, sink: &mut Vec<OperatorEvent>) -> (consumed: usize)
    ensures
        final(sink)@.len() == old(sink)@.len() + loop_model(script@).outputs.len() + 1,
        final(sink)@ == old(sink)@ + loop_model(script@).outputs.push(final(sink)@.last()),
        reports(final(sink)@.last(), loop_model(script@).outcome),
        is_terminal(final(sink)@.last()),
        consumed == loop_model(script@).consumed,
{
    let ghost all = script@;
    let (outcome, consumed) = run_loop(script, sink);
    report_outcome(outcome, sink);
    proof {
        assert(sink@ =~= old(sink)@ + loop_model(all).outputs.push(sink@.last()));
    }
    consumed
}

/// The outputs the loop forwards for script positions `i` (inclusive) up to
/// `j` (exclusive), in arrival order.
pub open spec fn outputs_between(script: Seq<ScriptEvent>, i: int, j: int) -> Seq<OperatorEvent>
    decreases j - i,
{
    if i < 0 || i >= j || j > script.len() {
        Seq::empty()
    } else {
        event_outputs(script[i]) + outputs_between(script, i + 1, j)
    }
}

proof fn lemma_model_all_running(script: Seq<ScriptEvent>, i: int)
    requires
        0 <= i <= script.len(),
        forall|k: int| i <= k < script.len() ==> keeps_running(#[trigger] script[k]),
    ensures
        loop_model_from(script, i).outputs == outputs_between(script, i, script.len() as int),
        loop_model_from(script, i).outcome == RunOutcomeModel::Finished(StopReason::InputsClosed),
        loop_model_from(script, i).consumed == script.len() - i,
    decreases script.len() - i,
{
    if i < script.len() {
        assert(keeps_running(script[i]));
        lemma_model_all_running(script, i + 1);
    } else {
        assert(outputs_between(script, i, script.len() as int)
            =~= Seq::<OperatorEvent>::empty());
    }
}

/// Law: everything the loop forwards ahead of its terminal classification is
/// an `Output` event.
pub proof fn lemma_model_outputs_only(script: Seq<ScriptEvent>, i: int)
    ensures
        forall|t: int|
            0 <= t < loop_model_from(script, i).outputs.len() ==> is_output(
                #[trigger] loop_model_from(script, i).outputs[t],
            ),
    decreases script.len() - i,
{
    if 0 <= i && i < script.len() {
        let head = event_outputs(script[i]);
        assert forall|t: int| 0 <= t < head.len() implies is_output(#[trigger] head[t]) by {
            match script[i] {
                ScriptEvent::Stop => {},
                ScriptEvent::Input(b) => {
                    assert(head[t] == output_event_of(b.outputs@[t]));
                },
            }
        }
        if keeps_running(script[i]) {
            lemma_model_outputs_only(script, i + 1);
            let rest = loop_model_from(script, i + 1).outputs;
            assert forall|t: int|
                0 <= t < loop_model_from(script, i).outputs.len() implies is_output(
                #[trigger] loop_model_from(script, i).outputs[t],
            ) by {
                if t < head.len() {
                    assert(loop_model_from(script, i).outputs[t] == head[t]);
                } else {
                    assert(loop_model_from(script, i).outputs[t] == rest[t - head.len()]);
                }
            }
        }
    }
}

proof fn lemma_model_stops_helper(script: Seq<ScriptEvent>, i: int, j: int)
    requires
        0 <= i <= j < script.len(),
        forall|k: int| i <= k < j ==> keeps_running(#[trigger] script[k]),
        !keeps_running(script[j]),
    ensures
        loop_model_from(script, i).outputs == outputs_between(script, i, j) + event_outputs(
            script[j],
        ),
        loop_model_from(script, i).outcome == outcome_of_verdict(event_verdict(script[j])),
        loop_model_from(script, i).consumed == j - i + 1,
    decreases j - i,
{
    if i == j {
        assert(outputs_between(script, i, j) + event_outputs(script[j]) =~= event_outputs(
            script[j],
        ));
    } else {
        assert(keeps_running(script[i]));
        lemma_model_stops_helper(script, i + 1, j);
        assert(event_outputs(script[i]) + (outputs_between(script, i + 1, j) + event_outputs(
            script[j],
        )) =~= (event_outputs(script[i]) + outputs_between(script, i + 1, j)) + event_outputs(
            script[j],
        ));
    }
}

/// Law: a run whose events all keep the loop in its running state — every
/// dispatched handler returned `Continue`, the rest were `Stop` sentinels —
/// consumes the whole script and, once the channel is exhausted, is
/// classified `Finished` with the inputs-closed reason; everything forwarded
/// before that single terminal event is an `Output`, so no `Error` or
/// `Panic` is ever reported.
pub proof fn lemma_exhaustion_finishes_inputs_closed(script: Seq<ScriptEvent>)
    requires
        forall|k: int| 0 <= k < script.len() ==> keeps_running(#[trigger] script[k]),
    ensures
        loop_model(script).outcome == RunOutcomeModel::Finished(StopReason::InputsClosed),
        loop_model(script).consumed == script.len(),
        forall|t: int|
            0 <= t < loop_model(script).outputs.len() ==> is_output(
                #[trigger] loop_model(script).outputs[t],
            ),
{
    lemma_model_all_running(script, 0);
    lemma_model_outputs_only(script, 0);
}

/// Law: the first input whose handler returns `Stop` or `StopAll` ends the
/// run immediately — events queued behind it are never dispatched — and the
/// run is classified `Finished` with the matching explicit reason.
pub proof fn lemma_explicit_stop_is_immediate(script: Seq<ScriptEvent>, j: int, reason: StopReason)
    requires
        0 <= j < script.len(),
        forall|k: int| 0 <= k < j ==> keeps_running(#[trigger] script[k]),
        event_verdict(script[j]) == VerdictModel::Finish(reason),
    ensures
        loop_model(script).outcome == RunOutcomeModel::Finished(reason),
        loop_model(script).consumed == j + 1,
        loop_model(script).outputs == outputs_between(script, 0, j) + event_outputs(script[j]),
{
    lemma_model_stops_helper(script, 0, j);
}

/// Law: a handler return value outside the status protocol ends the run at
/// that input, classified as an error carrying the invalid-status text; no
/// further inputs are dispatched.
pub proof fn lemma_invalid_status_errors(script: Seq<ScriptEvent>, j: int, value: i32)
    requires
        0 <= j < script.len(),
        forall|k: int| 0 <= k < j ==> keeps_running(#[trigger] script[k]),
        script[j] matches ScriptEvent::Input(b) && b.outcome == HandlerOutcome::Returned(value),
        status_of(value as int) is None,
    ensures
        loop_model(script).outcome == RunOutcomeModel::Errored(invalid_status_text(value as int)),
        loop_model(script).consumed == j + 1,
{
    lemma_model_stops_helper(script, 0, j);
}

/// Law: a native unwind during a handler is contained: the run ends at that
/// input, the outputs forwarded up to it stay exactly as they were, and the
/// run is classified `Panicked` with the captured payload.
pub proof fn lemma_unwind_is_contained(script: Seq<ScriptEvent>, j: int, payload: Seq<char>)
    requires
        0 <= j < script.len(),
        forall|k: int| 0 <= k < j ==> keeps_running(#[trigger] script[k]),
        event_verdict(script[j]) == VerdictModel::Abort(payload),
    ensures
        loop_model(script).outcome == RunOutcomeModel::Panicked(payload),
        loop_model(script).consumed == j + 1,
        loop_model(script).outputs == outputs_between(script, 0, j) + event_outputs(script[j]),
{
    lemma_model_stops_helper(script, 0, j);
}

} // verus!
