//! The dispatcher: which successor events go where, and how firmly.
//!
//! The dispatcher decides what is delivered and to which destination. It
//! never sends anything itself: a [`Dispatch`] is an instruction for whoever
//! owns the network. The destination of an event is always the value of its
//! own `type` attribute, as the producing step left it.

use vstd::prelude::*;
use crate::decimal::{decimal, decimal_string, lemma_decimal_injective};
use crate::envelope::{Envelope, EnvelopeView};
use crate::step::Step;

verus! {

/// What is done with the event that a step has produced.
#[derive(Clone, Copy, Debug, PartialEq, Eq, Structural)]
pub enum Policy {
    /// The event is multiplied: all copies but one are scattered, and the
    /// one that is left, the primary copy, goes back to the caller.
    FanOut,
    /// The event is forwarded as it is.
    DirectForward,
    /// The event is not dispatched any further. It only goes back to the
    /// caller.
    Terminal,
}

impl Policy {
    /// The policy that applies once `step` has run. There is none for the
    /// end of the chain, where no step runs.
    pub open spec fn after(step: Step) -> Option<Policy> {
        match step {
            Step::Entry => Some(Policy::FanOut),
            Step::Second => Some(Policy::DirectForward),
            Step::Third => Some(Policy::Terminal),
            Step::Terminal => None,
        }
    }

    /// The policy that applies once `step` has run.
    pub fn of(step: Step) -> (policy: Option<Policy>)
        ensures
            policy == Policy::after(step),
    {
        match step {
            Step::Entry => Some(Policy::FanOut),
            Step::Second => Some(Policy::DirectForward),
            Step::Third => Some(Policy::Terminal),
            Step::Terminal => None,
        }
    }
}

/// How firmly a delivery is made.
#[derive(Clone, Copy, Debug, PartialEq, Eq, Structural)]
pub enum Delivery {
    /// Started and left alone: nobody waits for it, and it runs to its end or
    /// to its failure whatever becomes of the request that caused it.
    Detached,
    /// Started and waited for: the caller goes no further until it is done.
    Awaited,
}

/// What a failed delivery means for the process.
#[derive(Clone, Copy, Debug, PartialEq, Eq, Structural)]
pub enum Failure {
    /// The one copy is lost. The failure is logged, not retried, and not
    /// shown to the caller.
    Dropped,
    /// The process aborts with a failure status.
    Fatal,
}

impl Delivery {
    /// What it means when a delivery of this kind fails: a detached delivery
    /// is given up, an awaited one takes the process down with it.
    pub open spec fn failure(self) -> Failure {
        match self {
            Delivery::Detached => Failure::Dropped,
            Delivery::Awaited => Failure::Fatal,
        }
    }

    /// What it means when a delivery of this kind fails.
    pub fn on_failure(self) -> (failure: Failure)
        ensures
            failure == self.failure(),
    {
        match self {
            Delivery::Detached => Failure::Dropped,
            Delivery::Awaited => Failure::Fatal,
        }
    }
}

/// A delivery instruction as mathematical values.
pub struct DispatchView {
    pub dest: Seq<char>,
    pub event: EnvelopeView,
    pub delivery: Delivery,
}

/// An instruction to deliver one event to one destination.
#[derive(Debug, PartialEq, Eq)]
pub struct Dispatch {
    /// The address to post to.
    pub dest: String,
    /// The event to post.
    pub event: Envelope,
    /// Whether the post is waited for.
    pub delivery: Delivery,
}

impl View for Dispatch {
    type V = DispatchView;

    open spec fn view(&self) -> DispatchView {
        DispatchView { dest: self.dest@, event: self.event@, delivery: self.delivery }
    }
}

/// The instructions of a list, each as mathematical values.
pub open spec fn dispatch_views(dispatches: Seq<Dispatch>) -> Seq<DispatchView> {
    dispatches.map_values(|dispatch: Dispatch| dispatch@)
}

/// Whether the instructions of `dispatches` are, one by one and in order,
/// those of `planned`.
pub open spec fn carries_out(dispatches: Seq<Dispatch>, planned: Seq<DispatchView>) -> bool {
    &&& dispatches.len() == planned.len()
    &&& forall|i: int| 0 <= i < dispatches.len() ==> (#[trigger] dispatches[i])@ == planned[i]
}

/// A list carries out a plan exactly when the plan is the list's view.
pub proof fn lemma_carries_out(dispatches: Seq<Dispatch>, planned: Seq<DispatchView>)
    ensures
        carries_out(dispatches, planned) <==> dispatch_views(dispatches) == planned,
{
    if carries_out(dispatches, planned) {
        assert(dispatch_views(dispatches) =~= planned);
    }
}

/// The instruction to post `event` to the destination that its own `type`
/// names.
pub open spec fn forwarded(event: EnvelopeView, delivery: Delivery) -> DispatchView {
    DispatchView { dest: event.ty, event, delivery }
}

/// The identifier of the primary copy of a fan-out batch.
pub open spec fn primary_id() -> Seq<char> {
    "0"@
}

/// A dispatcher's configuration as mathematical values.
pub struct DispatcherView {
    /// The fan-out scale: how many copies a fan-out batch has.
    pub scale: nat,
    /// The destination written into the `type` of every fan-out copy.
    pub channel: Seq<char>,
}

impl DispatcherView {
    /// Copy number `number` of a fan-out of `event`: the event with its
    /// `type` rewritten to the fan-out destination and with the number as
    /// its `id`.
    pub open spec fn copy(self, event: EnvelopeView, number: nat) -> EnvelopeView {
        event.with_ty(self.channel).with_id(decimal(number))
    }

    /// The primary copy of a fan-out of `event`, which is handed back to the
    /// caller and not posted by the fan-out.
    pub open spec fn primary(self, event: EnvelopeView) -> EnvelopeView {
        event.with_ty(self.channel).with_id(primary_id())
    }

    /// How many copies a fan-out scatters: all of the batch but the primary
    /// copy.
    pub open spec fn scattered_count(self) -> nat {
        if self.scale == 0 {
            0
        } else {
            (self.scale - 1) as nat
        }
    }

    /// The scattered copies of a fan-out of `event`, numbered from 1. Each
    /// is posted, detached, to the destination that `event` had in its
    /// `type` before the fan-out rewrote it.
    pub open spec fn scattered(self, event: EnvelopeView) -> Seq<DispatchView> {
        Seq::new(
            self.scattered_count(),
            |i: int|
                DispatchView {
                    dest: event.ty,
                    event: self.copy(event, (i + 1) as nat),
                    delivery: Delivery::Detached,
                },
        )
    }

    /// All events of a fan-out batch of `event`, each at the index that is
    /// its copy number: the primary copy first, then the scattered copies.
    pub open spec fn batch(self, event: EnvelopeView) -> Seq<EnvelopeView> {
        seq![self.primary(event)] + self.scattered(event).map_values(
            |dispatch: DispatchView| dispatch.event,
        )
    }
}

/// The primary copy's identifier is the numeral of zero.
pub proof fn lemma_primary_id_is_zero()
    ensures
        primary_id() == decimal(0),
{
    reveal_strlit("0");
}

/// A fan-out with scale `N >= 1` makes exactly `N` events. The copy at index
/// `0` is the primary one, with the reserved identifier `"0"`; the copy at
/// index `i >= 1` is scattered and has the numeral of `i` as its identifier.
/// No two copies share an identifier. All copies carry the fan-out
/// destination in their `type`, and agree with the fanned-out event in
/// `source` and payload. Every scattered copy is posted, detached, to the
/// destination that the event had in its `type`.
pub proof fn lemma_fan_out_batch(dispatcher: DispatcherView, event: EnvelopeView)
    requires
        dispatcher.scale >= 1,
    ensures
        dispatcher.batch(event).len() == dispatcher.scale,
        dispatcher.scattered(event).len() == dispatcher.scale - 1,
        dispatcher.batch(event)[0] == dispatcher.primary(event),
        dispatcher.primary(event).id == "0"@,
        forall|i: int|
            1 <= i < dispatcher.scale ==> #[trigger] dispatcher.batch(event)[i]
                == dispatcher.scattered(event)[i - 1].event,
        forall|i: int|
            1 <= i < dispatcher.scale ==> (#[trigger] dispatcher.batch(event)[i]).id == decimal(
                i as nat,
            ),
        forall|i: int, j: int|
            0 <= i < j < dispatcher.scale ==> (#[trigger] dispatcher.batch(event)[i]).id != (
            #[trigger] dispatcher.batch(event)[j]).id,
        forall|i: int|
            0 <= i < dispatcher.scale ==> {
                let copy = #[trigger] dispatcher.batch(event)[i];
                &&& copy.ty == dispatcher.channel
                &&& copy.source == event.source
                &&& copy.same_payload(event)
            },
        forall|i: int|
            0 <= i < dispatcher.scale - 1 ==> {
                let dispatch = #[trigger] dispatcher.scattered(event)[i];
                &&& dispatch.dest == event.ty
                &&& dispatch.delivery == Delivery::Detached
            },
{
    lemma_primary_id_is_zero();
    let batch = dispatcher.batch(event);
    assert forall|i: int, j: int| 0 <= i < j < dispatcher.scale implies (#[trigger] batch[i]).id
        != (#[trigger] batch[j]).id by {
        if batch[i].id == batch[j].id {
            lemma_decimal_injective(i as nat, j as nat);
        }
    }
}

/// The dispatcher's configuration, fixed when it is made.
#[derive(Debug, PartialEq, Eq)]
pub struct Dispatcher {
    scale: u32,
    channel: String,
}

impl View for Dispatcher {
    type V = DispatcherView;

    closed spec fn view(&self) -> DispatcherView {
        DispatcherView { scale: self.scale as nat, channel: self.channel@ }
    }
}

impl Dispatcher {
    /// A dispatcher that fans out into `scale` copies and writes `channel`
    /// into the `type` of each of them.
    pub fn new(scale: u32, channel: String) -> (dispatcher: Dispatcher)
        ensures
            dispatcher@ == (DispatcherView { scale: scale as nat, channel: channel@ }),
    {
        Dispatcher { scale, channel }
    }

    /// The fan-out scale.
    pub fn scale(&self) -> (scale: u32)
        ensures
            scale == self@.scale,
    {
        self.scale
    }

    /// The destination written into the `type` of every fan-out copy.
    pub fn channel(&self) -> (channel: &str)
        ensures
            channel@ == self@.channel,
    {
        self.channel.as_str()
    }

    /// The instruction to post a copy of `event` to the destination that its
    /// own `type` names.
    pub fn forward(event: &Envelope, delivery: Delivery) -> (dispatch: Dispatch)
        ensures
            dispatch@ == forwarded(event@, delivery),
    {
        Dispatch { dest: event.ty.clone(), event: event.clone(), delivery }
    }

    /// Fans `event` out. Gives the primary copy, which is for the caller to
    /// hand on, and the instructions for the scattered copies, in the order
    /// of their numbers.
    pub fn fan_out(&self, event: &Envelope) -> (batch: (Envelope, Vec<Dispatch>))
        ensures
            batch.0@ == self@.primary(event@),
            dispatch_views(batch.1@) == self@.scattered(event@),
            carries_out(batch.1@, self@.scattered(event@)),
    {
        let mut template = event.clone();
        template.set_type(self.channel.clone());
        let mut scattered: Vec<Dispatch> = Vec::new();
        let mut number: u32 = 1;
        while number < self.scale
            invariant
                number == 1 || number <= self.scale,
                scattered.len() == number - 1,
                template@ == event@.with_ty(self@.channel),
                forall|k: int|
                    0 <= k < scattered.len() ==> (#[trigger] scattered@[k])@ == self@.scattered(
                        event@,
                    )[k],
            decreases self.scale - number,
        {
            let mut copy = template.clone();
            copy.set_id(decimal_string(number));
            scattered.push(
                Dispatch { dest: event.ty.clone(), event: copy, delivery: Delivery::Detached },
            );
            number += 1;
        }
        let mut primary = template;
        primary.set_id(String::from_str("0"));
        (primary, scattered)
    }
}

} // verus!
