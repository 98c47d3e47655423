//! The runtime loop's state machine. The loop itself alternates network
//! calls with decisions; the decisions live here as verified transition
//! functions from state and observed outcome to next state and directive,
//! while an unverified driver performs the HTTP operations and hands their
//! outcomes back.
//!
//! The state is two-valued: idle (`in_flight` false, before start or after
//! stop) and running. While running, each poll outcome either ends in a
//! delivery directive or halts the loop; a transport failure and a
//! duplicate of the immediately preceding request id both halt it.

use vstd::prelude::*;

use crate::api::context_of;
use crate::api::get_header;
use crate::api::lookup_header;
use crate::api::trace_header_value;
use crate::api::trace_id_header;
use crate::context::Context;
use crate::context::ContextView;

verus! {

/// Mathematical image of a [`Kaon`]: the halt flag and the one-slot
/// invocation history.
pub struct KaonView {
    pub in_flight: bool,
    pub last_processed: Option<ContextView>,
}

/// The runtime loop's state: whether the loop keeps serving invocations,
/// and the single most-recently processed context, kept for the one-step
/// duplicate comparison. Nothing older is retained; the one slot is
/// simply overwritten.
pub struct Kaon {
    pub in_flight: bool,
    pub last_processed: Option<Context>,
}

impl View for Kaon {
    type V = KaonView;

    open spec fn view(&self) -> KaonView {
        KaonView {
            in_flight: self.in_flight,
            last_processed: match self.last_processed {
                Some(context) => Some(context@),
                None => None,
            },
        }
    }
}

/// What a poll of the control endpoint came back with: an invocation
/// event, or a transport failure reaching the endpoint.
pub enum PollOutcome {
    Event { headers: Vec<(String, String)>, body: Vec<u8> },
    TransportFailure,
}

/// What the loop's driver must do after a poll has been taken in:
/// deliver the event to the handler, or stop driving the loop. Either
/// way, a trace value present on the response is handed out for
/// propagation to the tracing collaborator.
pub enum PollDirective {
    Deliver { context: Context, body: Vec<u8>, trace: Option<String> },
    Halt { trace: Option<String> },
}

/// An event repeats the immediately preceding invocation: the new
/// context's request id equals the one in the single history slot. This
/// is a one-step lookback, not a general duplicate cache.
pub open spec fn duplicate_event(pre: KaonView, context: ContextView) -> bool {
    match pre.last_processed {
        Some(last) => last.aws_request_id == context.aws_request_id,
        None => false,
    }
}

/// How taking in a new context changes the state: an exact repeat of the
/// preceding request id halts the loop and is not recorded; any other
/// context overwrites the history slot and leaves the halt flag alone.
pub open spec fn collect_transition(pre: KaonView, context: ContextView) -> KaonView {
    if duplicate_event(pre, context) {
        KaonView { in_flight: false, last_processed: pre.last_processed }
    } else {
        KaonView { in_flight: pre.in_flight, last_processed: Some(context) }
    }
}

/// Whether the trace value handed out matches the trace header of the
/// response: its value when present, nothing when absent.
pub open spec fn trace_matches(trace: Option<String>, headers: Seq<(String, String)>) -> bool {
    match trace {
        Some(value) => lookup_header(headers, trace_id_header()) == Some(value@),
        None => lookup_header(headers, trace_id_header()) is None,
    }
}

impl Kaon {
    /// One-time construction at process start: the loop is idle and no
    /// invocation has been processed.
    pub fn charge() -> (kaon: Kaon)
        ensures
            !kaon.in_flight,
            kaon.last_processed is None,
    {
        Kaon { in_flight: false, last_processed: None }
    }

    /// Halts the loop unconditionally; safe to call from any state,
    /// including repeatedly.
    pub fn stop(&mut self)
        ensures
            !final (self).in_flight,
            final (self).last_processed == old(self).last_processed,
    {
        self.in_flight = false;
    }

    /// Transitions to running: the first step of driving the loop.
    pub fn decay_begin(&mut self)
        ensures
            final (self).in_flight,
            final (self).last_processed == old(self).last_processed,
    {
        self.in_flight = true;
    }

    /// Takes a freshly built context into the invocation history: a
    /// repeat of the immediately preceding request id halts the loop
    /// ("already handled"); anything else is recorded as the new single
    /// most-recent invocation.
    pub fn collect_event(&mut self, new_event: Context)
        ensures
            final (self)@ == collect_transition(old(self)@, new_event@),
    {
        let is_duplicate = match &self.last_processed {
            Some(last_event) => last_event.aws_request_id == new_event.aws_request_id,
            None => false,
        };
        if is_duplicate {
            self.stop();
        } else {
            self.last_processed = Some(new_event);
        }
    }

    /// The decision taken on one poll of the control endpoint, while the
    /// loop is running. A transport failure halts the loop: no retry. An
    /// event has its four identifying headers extracted into a context
    /// (absent headers fall back to their own names); a duplicate of the
    /// immediately preceding request id halts the loop without delivery,
    /// and any other event is delivered together with its body and the
    /// trace value to propagate.
    pub fn decay_poll(&mut self, outcome: PollOutcome) -> (directive: PollDirective)
        requires
            old(self).in_flight,
        ensures
            match outcome {
                PollOutcome::TransportFailure => {
                    &&& final (self)@ == (KaonView {
                        in_flight: false,
                        last_processed: old(self)@.last_processed,
                    })
                    &&& directive matches PollDirective::Halt { trace } && trace is None
                },
                PollOutcome::Event { headers, body } => {
                    &&& final (self)@ == collect_transition(old(self)@, context_of(headers@))
                    &&& if duplicate_event(old(self)@, context_of(headers@)) {
                        directive matches PollDirective::Halt { trace } && trace_matches(
                            trace,
                            headers@,
                        )
                    } else {
                        directive matches PollDirective::Deliver {
                            context,
                            body: delivered,
                            trace,
                        } && context@ == context_of(headers@) && delivered@ == body@
                            && trace_matches(trace, headers@)
                    }
                },
            },
    {
        match outcome {
            PollOutcome::TransportFailure => {
                self.stop();
                PollDirective::Halt { trace: None }
            },
            PollOutcome::Event { headers, body } => {
                let trace = trace_header_value(&headers);
                let id = get_header(&headers, "Lambda-Runtime-Aws-Request-Id");
                let arn = get_header(&headers, "Lambda-Runtime-Invoked-Function-Arn");
                let identity = get_header(&headers, "Lambda-Runtime-Cognito-Identity");
                let client = get_header(&headers, "Lambda-Runtime-Client-Context");
                let context = Context::create(id, arn, identity, client);
                self.collect_event(context.clone());
                if self.in_flight {
                    PollDirective::Deliver { context, body, trace }
                } else {
                    PollDirective::Halt { trace }
                }
            },
        }
    }

    /// The decision taken on the outcome of reporting a handler's
    /// successful result: a failed report halts the loop, since no other
    /// channel exists to communicate success to the platform; a
    /// successful report leaves the loop as it was. Error reports are
    /// best-effort and pass no outcome back.
    pub fn decay_report(&mut self, report_ok: bool)
        ensures
            final (self).in_flight == (old(self).in_flight && report_ok),
            final (self).last_processed == old(self).last_processed,
    {
        if !report_ok {
            self.stop();
        }
    }
}

/// Duplicate rule, halting half: from a running state, an accepted event
/// followed by an event with the same request id leaves the loop halted,
/// and the second event is treated as already handled, so nothing is
/// delivered (and hence nothing reported) for it a second time.
pub proof fn lemma_duplicate_second_poll_halts(
    s0: KaonView,
    h1: Seq<(String, String)>,
    h2: Seq<(String, String)>,
)
    requires
        s0.in_flight,
        !duplicate_event(s0, context_of(h1)),
        context_of(h2).aws_request_id == context_of(h1).aws_request_id,
    ensures
        collect_transition(s0, context_of(h1)).in_flight,
        duplicate_event(collect_transition(s0, context_of(h1)), context_of(h2)),
        !collect_transition(collect_transition(s0, context_of(h1)), context_of(h2)).in_flight,
{
}

/// Duplicate rule, delivering half: from a running state, two events
/// whose request ids differ are both taken in, the loop keeps running
/// through both, and each is delivered in turn.
pub proof fn lemma_distinct_polls_both_deliver(
    s0: KaonView,
    h1: Seq<(String, String)>,
    h2: Seq<(String, String)>,
)
    requires
        s0.in_flight,
        !duplicate_event(s0, context_of(h1)),
        context_of(h2).aws_request_id != context_of(h1).aws_request_id,
    ensures
        collect_transition(s0, context_of(h1)).in_flight,
        !duplicate_event(collect_transition(s0, context_of(h1)), context_of(h2)),
        collect_transition(collect_transition(s0, context_of(h1)), context_of(h2)).in_flight,
        collect_transition(
            collect_transition(s0, context_of(h1)),
            context_of(h2),
        ).last_processed == Some(context_of(h2)),
{
}

} // verus!
