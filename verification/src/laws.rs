//! What holds of the router over whole passes and over runs of passes.

use vstd::prelude::*;
use crate::context::InvocationContext;
use crate::dispatch::{forwarded, lemma_fan_out_batch, Delivery, DispatchView};
use crate::envelope::EnvelopeView;
use crate::gather::{completions, lemma_completes_exactly_once};
use crate::router::{advanced, OutcomeView, RouterView};
use crate::step::{lemma_transition_table, Step};

verus! {

/// The outcome of the pass that `router` makes over `event`; meaningful
/// where the pass succeeds.
pub open spec fn outcome_of(router: RouterView, context: InvocationContext, event: EnvelopeView)
    -> OutcomeView {
    router.pass(context, event)->Ok_0.1
}

/// A pass over an event of the chain writes the `source` that the transition
/// table gives, and touches nothing else but what a fan-out rewrites: the
/// `id` and the `type`, after the entry step only. At the end of the chain
/// the event leaves as it came, and nothing is dispatched. The payload
/// always passes through. A pass over any other event fails and names the
/// `source`.
pub proof fn lemma_pass_follows_table(
    router: RouterView,
    context: InvocationContext,
    event: EnvelopeView,
)
    ensures
        ({
            let pass = router.pass(context, event);
            let outcome = outcome_of(router, context, event);
            let channel = router.dispatcher.channel;
            &&& event.source == "cli"@ ==> pass is Ok && outcome.event == event.with_source(
                "step-one"@,
            ).with_ty(channel).with_id("0"@)
            &&& event.source == "step-one"@ ==> pass is Ok && outcome.event == event.with_source(
                "step-two"@,
            )
            &&& event.source == "step-two"@ ==> pass is Ok && outcome.event == event.with_source(
                "step-three"@,
            )
            &&& event.source == "step-three"@ ==> pass is Ok && outcome.event == event
                && outcome.dispatches.len() == 0
            &&& !Step::known(event.source) ==> pass is Err && pass->Err_0 == event.source
            &&& pass is Ok ==> outcome.event.same_payload(event)
        }),
{
    lemma_transition_table(event.source);
}

/// A pass over an event from outside the chain, with a scale `N >= 1`, is a
/// fan-out: the event that leaves and the `N - 1` deliveries planned first
/// are together the `N` copies of the batch, the leaving event being the
/// primary copy. In a service nothing else is planned; in a job the awaited
/// post of the primary copy follows.
pub proof fn lemma_entry_pass_fans_out(
    router: RouterView,
    context: InvocationContext,
    event: EnvelopeView,
)
    requires
        event.source == "cli"@,
        router.dispatcher.scale >= 1,
    ensures
        router.pass(context, event) is Ok,
        ({
            let outcome = outcome_of(router, context, event);
            let moved = event.with_source("step-one"@);
            let batch = router.dispatcher.batch(moved);
            let scattered = router.dispatcher.scale - 1;
            &&& batch.len() == router.dispatcher.scale
            &&& outcome.step == Step::Entry
            &&& outcome.event == batch[0]
            &&& outcome.event.id == "0"@
            &&& outcome.dispatches.len() == scattered + if context == InvocationContext::Job {
                1int
            } else {
                0int
            }
            &&& forall|i: int|
                0 <= i < scattered ==> #[trigger] outcome.dispatches[i] == (DispatchView {
                    dest: event.ty,
                    event: batch[i + 1],
                    delivery: Delivery::Detached,
                })
            &&& context == InvocationContext::Job ==> outcome.dispatches[scattered] == forwarded(
                outcome.event,
                Delivery::Awaited,
            )
        }),
{
    lemma_transition_table(event.source);
    let moved = advanced(event, Step::Entry);
    lemma_fan_out_batch(router.dispatcher, moved);
}

/// In a service no delivery is ever awaited: the event that leaves is the
/// reply, and every post is detached.
pub proof fn lemma_service_awaits_nothing(router: RouterView, event: EnvelopeView)
    requires
        router.pass(InvocationContext::Service, event) is Ok,
    ensures
        ({
            let outcome = outcome_of(router, InvocationContext::Service, event);
            forall|i: int|
                0 <= i < outcome.dispatches.len() ==> (#[trigger] outcome.dispatches[i]).delivery
                    == Delivery::Detached
        }),
{
}

/// In a job, a pass in which a step ran plans exactly one awaited delivery,
/// and plans it last: the post of the leaving event to the destination in
/// its `type`. A pass at the end of the chain plans nothing at all.
pub proof fn lemma_job_awaits_its_post(router: RouterView, event: EnvelopeView)
    requires
        router.pass(InvocationContext::Job, event) is Ok,
    ensures
        ({
            let outcome = outcome_of(router, InvocationContext::Job, event);
            let last = outcome.dispatches.len() - 1;
            if outcome.step == Step::Terminal {
                outcome.dispatches.len() == 0
            } else {
                &&& outcome.dispatches.len() >= 1
                &&& outcome.dispatches[last] == forwarded(outcome.event, Delivery::Awaited)
                &&& forall|i: int|
                    0 <= i < last ==> (#[trigger] outcome.dispatches[i]).delivery
                        == Delivery::Detached
            }
        }),
{
}

/// The router after it has routed `events` in turn. A pass that fails leaves
/// the router as it was.
pub open spec fn after_all(router: RouterView, context: InvocationContext, events: Seq<EnvelopeView>)
    -> RouterView
    decreases events.len(),
{
    if events.len() == 0 {
        router
    } else {
        let before = after_all(router, context, events.drop_last());
        match before.pass(context, events.last()) {
            Ok((after, _)) => after,
            Err(_) => before,
        }
    }
}

/// How many of `events` the convergent step is due for.
pub open spec fn convergent_count(events: Seq<EnvelopeView>) -> nat
    decreases events.len(),
{
    if events.len() == 0 {
        0
    } else {
        convergent_count(events.drop_last()) + if events.last().source == "step-two"@ {
            1nat
        } else {
            0nat
        }
    }
}

/// How many of the passes that `router` makes over `events` in turn
/// complete a fan-out batch.
pub open spec fn batch_signals(
    router: RouterView,
    context: InvocationContext,
    events: Seq<EnvelopeView>,
) -> nat
    decreases events.len(),
{
    if events.len() == 0 {
        0
    } else {
        let before = after_all(router, context, events.drop_last());
        batch_signals(router, context, events.drop_last()) + match before.pass(
            context,
            events.last(),
        ) {
            Ok((_, outcome)) => if outcome.batch_complete {
                1nat
            } else {
                0nat
            },
            Err(_) => 0nat,
        }
    }
}

/// The count goes up by one for each run of the convergent step, and by
/// nothing else: whatever else is routed in between, and in whichever
/// context, the router has counted as many runs more as there were events
/// that the convergent step was due for. Its configuration never changes.
pub proof fn lemma_counts_convergent_runs(
    router: RouterView,
    context: InvocationContext,
    events: Seq<EnvelopeView>,
)
    ensures
        after_all(router, context, events).gathered == router.gathered + convergent_count(events),
        after_all(router, context, events).dispatcher == router.dispatcher,
    decreases events.len(),
{
    if events.len() > 0 {
        lemma_counts_convergent_runs(router, context, events.drop_last());
        lemma_transition_table(events.last().source);
    }
}

/// A router that starts from zero with a scale `N >= 1` signals a complete
/// batch exactly once: in the pass that is the `N`-th run of the convergent
/// step. Before that run no pass has signalled, and after it none does again.
pub proof fn lemma_batch_signalled_once(
    router: RouterView,
    context: InvocationContext,
    events: Seq<EnvelopeView>,
)
    requires
        router.gathered == 0,
        router.dispatcher.scale >= 1,
    ensures
        batch_signals(router, context, events) == completions(
            convergent_count(events),
            router.dispatcher.scale,
        ),
        batch_signals(router, context, events) == if convergent_count(events)
            < router.dispatcher.scale {
            0nat
        } else {
            1nat
        },
        events.len() > 0 ==> {
            let before = after_all(router, context, events.drop_last());
            let last = before.pass(context, events.last());
            (last is Ok && last->Ok_0.1.batch_complete) <==> (events.last().source == "step-two"@
                && convergent_count(events) == router.dispatcher.scale)
        },
    decreases events.len(),
{
    let scale = router.dispatcher.scale;
    lemma_completes_exactly_once(convergent_count(events), scale);
    if events.len() > 0 {
        let earlier = events.drop_last();
        lemma_batch_signalled_once(router, context, earlier);
        lemma_counts_convergent_runs(router, context, earlier);
        lemma_completes_exactly_once(convergent_count(earlier), scale);
        lemma_transition_table(events.last().source);
    }
}

} // verus!
