//! One routing pass: from an inbound event to the event that leaves and the
//! deliveries that go with it.
//!
//! The pass resolves the step that is due for the event, advances the event
//! by writing the step's `source`, and applies the step's dispatch policy:
//!
//! * fan-out, after the entry step: the copies numbered from 1 are
//!   scattered, and the primary copy is the event that leaves;
//! * direct forward, after the second step: the event that leaves is posted
//!   to the destination in its `type`;
//! * terminal, after the third step: nothing is dispatched, the event just
//!   leaves.
//!
//! At the end of the chain no step runs, no policy applies, and the event
//! leaves as it came.
//!
//! How the event leaves depends on the invocation context. In a service it
//! is the reply, and every post is detached. In a job there is no reply:
//! the event that a step produced is posted to the destination in its
//! `type`, whatever the policy, and that one post is awaited, because
//! nothing outlives the job.

use vstd::prelude::*;
use crate::context::InvocationContext;
use crate::dispatch::{
    carries_out, dispatch_views, forwarded, lemma_carries_out, Delivery, Dispatch, DispatchView,
    Dispatcher, DispatcherView, Policy,
};
use crate::envelope::{Envelope, EnvelopeView};
use crate::gather::{completes, GatherCounter};
use crate::step::{lemma_transition_table, resolve, RoutingError, Step};

verus! {

/// The result of a routing pass as mathematical values.
pub struct OutcomeView {
    pub step: Step,
    pub event: EnvelopeView,
    pub dispatches: Seq<DispatchView>,
    pub batch_complete: bool,
}

/// The result of a routing pass.
#[derive(Debug, PartialEq, Eq)]
pub struct Outcome {
    /// The step that was due for the inbound event. Unless it is
    /// [`Step::Terminal`], its unit of work belongs to this pass.
    pub step: Step,
    /// The event that leaves: the reply in a service, and in a job the event
    /// of the awaited post.
    pub event: Envelope,
    /// The deliveries to make, in the order in which they are started.
    pub dispatches: Vec<Dispatch>,
    /// Whether this pass completed a fan-out batch.
    pub batch_complete: bool,
}

impl View for Outcome {
    type V = OutcomeView;

    open spec fn view(&self) -> OutcomeView {
        OutcomeView {
            step: self.step,
            event: self.event@,
            dispatches: dispatch_views(self.dispatches@),
            batch_complete: self.batch_complete,
        }
    }
}

/// A router's configuration and state as mathematical values.
pub struct RouterView {
    pub dispatcher: DispatcherView,
    /// How many runs of the convergent step the router has counted.
    pub gathered: nat,
}

/// `event` after `step` has run: with the `source` that the step writes, or
/// unchanged at the end of the chain.
pub open spec fn advanced(event: EnvelopeView, step: Step) -> EnvelopeView {
    match step.writes() {
        Some(source) => event.with_source(source),
        None => event,
    }
}

/// The delivery that takes the leaving event `event` onward, if there is
/// one: in a job the awaited post of the event, under every policy; in a
/// service the detached post of a direct forward.
pub open spec fn onward(context: InvocationContext, policy: Option<Policy>, event: EnvelopeView)
    -> Seq<DispatchView> {
    match (policy, context) {
        (None, _) => seq![],
        (Some(_), InvocationContext::Job) => seq![forwarded(event, Delivery::Awaited)],
        (Some(Policy::DirectForward), InvocationContext::Service) => seq![
            forwarded(event, Delivery::Detached),
        ],
        (Some(_), InvocationContext::Service) => seq![],
    }
}

impl RouterView {
    /// The event that leaves a pass in which `step` was due for `event`.
    pub open spec fn leaving(self, step: Step, event: EnvelopeView) -> EnvelopeView {
        match Policy::after(step) {
            Some(Policy::FanOut) => self.dispatcher.primary(advanced(event, step)),
            _ => advanced(event, step),
        }
    }

    /// The deliveries of a pass in which `step` was due for `event`: the
    /// scattered copies of a fan-out first, then the onward delivery of the
    /// leaving event.
    pub open spec fn deliveries(self, context: InvocationContext, step: Step, event: EnvelopeView)
        -> Seq<DispatchView> {
        let scattered = match Policy::after(step) {
            Some(Policy::FanOut) => self.dispatcher.scattered(advanced(event, step)),
            _ => seq![],
        };
        scattered + onward(context, Policy::after(step), self.leaving(step, event))
    }

    /// The router after a pass in which `step` was due: a run of the
    /// convergent step is counted, and nothing else changes.
    pub open spec fn counted(self, step: Step) -> RouterView {
        if step.converges() {
            RouterView { gathered: self.gathered + 1, ..self }
        } else {
            self
        }
    }

    /// The outcome of a pass in which `step` was due for `event`.
    pub open spec fn outcome(self, context: InvocationContext, step: Step, event: EnvelopeView)
        -> OutcomeView {
        OutcomeView {
            step,
            event: self.leaving(step, event),
            dispatches: self.deliveries(context, step, event),
            batch_complete: step.converges() && completes(
                self.counted(step).gathered,
                self.dispatcher.scale,
            ),
        }
    }

    /// A routing pass over `event`: the router afterwards and the outcome,
    /// or the offending `source` where the workflow has no such position.
    pub open spec fn pass(self, context: InvocationContext, event: EnvelopeView) -> Result<
        (RouterView, OutcomeView),
        Seq<char>,
    > {
        match Step::at(event.source) {
            Some(step) => Ok((self.counted(step), self.outcome(context, step, event))),
            None => Err(event.source),
        }
    }
}

/// Whether `result` and the router `after` are what comes of the pass in
/// which `step` is due for `event`, made by the router `before`.
pub open spec fn passed(
    before: RouterView,
    context: InvocationContext,
    step: Step,
    event: EnvelopeView,
    result: Result<Outcome, RoutingError>,
    after: RouterView,
) -> bool {
    &&& result is Ok
    &&& result->Ok_0@ == before.outcome(context, step, event)
    &&& carries_out(result->Ok_0.dispatches@, before.deliveries(context, step, event))
    &&& after == before.counted(step)
}

/// The router: a dispatcher and the scatter-gather counter of the process.
#[derive(Debug)]
pub struct Router {
    dispatcher: Dispatcher,
    gathered: GatherCounter,
}

impl View for Router {
    type V = RouterView;

    closed spec fn view(&self) -> RouterView {
        RouterView { dispatcher: self.dispatcher@, gathered: self.gathered@ }
    }
}

impl Router {
    /// A router that has counted nothing yet, with a dispatcher that fans out
    /// into `scale` copies for the destination `channel`.
    pub fn new(scale: u32, channel: String) -> (router: Router)
        ensures
            router@ == (RouterView {
                dispatcher: DispatcherView { scale: scale as nat, channel: channel@ },
                gathered: 0,
            }),
    {
        Router { dispatcher: Dispatcher::new(scale, channel), gathered: GatherCounter::new() }
    }

    /// The router's dispatcher.
    pub fn dispatcher(&self) -> (dispatcher: &Dispatcher)
        ensures
            dispatcher@ == self@.dispatcher,
    {
        &self.dispatcher
    }

    /// How many runs of the convergent step the router has counted.
    pub fn gathered(&self) -> (count: u32)
        ensures
            count == self@.gathered,
    {
        self.gathered.count()
    }

    /// Whether the router can count one more run of the convergent step.
    pub fn has_room(&self) -> (yes: bool)
        ensures
            yes == (self@.gathered < u32::MAX),
    {
        self.gathered.has_room()
    }

    /// Makes the pass in which `step` is due for `event`: counts the run
    /// where the step is the convergent one, advances the event, and plans
    /// the deliveries that the step and the invocation context call for.
    ///
    /// The step is taken as given. It is [`process_event`] that resolves it
    /// from the event's own `source`.
    pub fn route(&mut self, context: InvocationContext, step: Step, event: Envelope) -> (outcome:
        Outcome)
        requires
            step.converges() ==> old(self)@.gathered < u32::MAX,
        ensures
            outcome@ == old(self)@.outcome(context, step, event@),
            carries_out(outcome.dispatches@, old(self)@.deliveries(context, step, event@)),
            final(self)@ == old(self)@.counted(step),
    {
        let batch_complete = if step.is_convergent() {
            self.gathered.record(self.dispatcher.scale())
        } else {
            false
        };
        let moved = advance(event, step);
        let policy = Policy::of(step);
        let (leaving, mut dispatches) = match policy {
            Some(Policy::FanOut) => self.dispatcher.fan_out(&moved),
            _ => (moved, Vec::new()),
        };
        match (policy, context) {
            (None, _) => {},
            (Some(_), InvocationContext::Job) => {
                dispatches.push(Dispatcher::forward(&leaving, Delivery::Awaited));
            },
            (Some(Policy::DirectForward), InvocationContext::Service) => {
                dispatches.push(Dispatcher::forward(&leaving, Delivery::Detached));
            },
            (Some(_), InvocationContext::Service) => {},
        }
        proof {
            lemma_carries_out(dispatches@, old(self)@.deliveries(context, step, event@));
        }
        Outcome { step, event: leaving, dispatches, batch_complete }
    }
}

/// Applies the transition of `step` to `event`.
pub fn advance(event: Envelope, step: Step) -> (moved: Envelope)
    ensures
        moved@ == advanced(event@, step),
{
    let mut moved = event;
    match step.next() {
        Some(next) => {
            moved.set_source(String::from_str(next.due_for_name()));
        },
        None => {},
    }
    moved
}

/// Routes one event: resolves the step that is due for it, advances it, and
/// plans the deliveries that the step and the invocation context call for.
///
/// The pass changes nothing but the router's count, and that only where the
/// convergent step was due. On a `source` that is no position of the
/// workflow it fails, changes nothing and plans nothing.
///
/// The contract says this twice: row by row, as the transition table reads,
/// and as the one function [`RouterView::pass`] of what went in. The count
/// must have room for the run where the convergent step is due; see
/// [`Router::has_room`].
pub fn process_event(router: &mut Router, context: InvocationContext, event: Envelope) -> (result:
    Result<Outcome, RoutingError>)
    requires
        event@.source == "step-two"@ ==> old(router)@.gathered < u32::MAX,
    ensures
        event@.source == "cli"@ ==> passed(
            old(router)@,
            context,
            Step::Entry,
            event@,
            result,
            final(router)@,
        ),
        event@.source == "step-one"@ ==> passed(
            old(router)@,
            context,
            Step::Second,
            event@,
            result,
            final(router)@,
        ),
        event@.source == "step-two"@ ==> passed(
            old(router)@,
            context,
            Step::Third,
            event@,
            result,
            final(router)@,
        ),
        event@.source == "step-three"@ ==> passed(
            old(router)@,
            context,
            Step::Terminal,
            event@,
            result,
            final(router)@,
        ),
        !Step::known(event@.source) ==> {
            &&& result is Err
            &&& result->Err_0.source@ == event@.source
            &&& final(router)@ == old(router)@
        },
        result is Ok <==> Step::known(event@.source),
        match old(router)@.pass(context, event@) {
            Ok((after, outcome)) => {
                &&& result is Ok
                &&& result->Ok_0@ == outcome
                &&& final(router)@ == after
            },
            Err(offending) => {
                &&& result is Err
                &&& result->Err_0.source@ == offending
                &&& final(router)@ == old(router)@
            },
        },
{
    proof {
        lemma_transition_table(event@.source);
    }
    match resolve(event.source.as_str()) {
        Ok(resolution) => Ok(router.route(context, resolution.step, event)),
        Err(error) => Err(error),
    }
}

} // verus!
