//! The steps of the workflow and the resolver that sequences them.
//!
//! The workflow is a fixed chain. An event's `source` names the step that
//! produced it, and so fixes the step that is due next:
//!
//! | `source`       | step due   | `source` written |
//! |----------------|------------|------------------|
//! | `"cli"`        | `Entry`    | `"step-one"`     |
//! | `"step-one"`   | `Second`   | `"step-two"`     |
//! | `"step-two"`   | `Third`    | `"step-three"`   |
//! | `"step-three"` | `Terminal` | none             |
//!
//! Any other `source` is a routing error.

use vstd::prelude::*;
use crate::text::same_text;

verus! {

/// A position in the workflow: the step that is due for an event.
#[derive(Clone, Copy, Debug, PartialEq, Eq, Structural)]
pub enum Step {
    /// The first step, due for an event that was triggered from outside.
    Entry,
    /// The intermediate step.
    Second,
    /// The last unit of work, where the copies of a fan-out batch converge.
    Third,
    /// The end of the chain: nothing is left to run.
    Terminal,
}

impl Step {
    /// The `source` of the events that this step is due for.
    pub open spec fn due_for(self) -> Seq<char> {
        match self {
            Step::Entry => "cli"@,
            Step::Second => "step-one"@,
            Step::Third => "step-two"@,
            Step::Terminal => "step-three"@,
        }
    }

    /// The step that comes after this one; none at the end of the chain.
    pub open spec fn successor(self) -> Option<Step> {
        match self {
            Step::Entry => Some(Step::Second),
            Step::Second => Some(Step::Third),
            Step::Third => Some(Step::Terminal),
            Step::Terminal => None,
        }
    }

    /// The `source` that this step writes once it has run, which is the
    /// `source` that its successor is due for.
    pub open spec fn writes(self) -> Option<Seq<char>> {
        match self.successor() {
            Some(next) => Some(next.due_for()),
            None => None,
        }
    }

    /// The step that is due for an event with the given `source`, if the
    /// source is a position of the workflow.
    pub open spec fn at(source: Seq<char>) -> Option<Step> {
        if source == Step::Entry.due_for() {
            Some(Step::Entry)
        } else if source == Step::Second.due_for() {
            Some(Step::Second)
        } else if source == Step::Third.due_for() {
            Some(Step::Third)
        } else if source == Step::Terminal.due_for() {
            Some(Step::Terminal)
        } else {
            None
        }
    }

    /// Whether `source` is a position of the workflow: one of the four names
    /// of the transition table. The length of each name stands beside it,
    /// since the length alone tells most other strings from a name.
    pub open spec fn known(source: Seq<char>) -> bool {
        ||| source.len() == 3 && source == "cli"@
        ||| source.len() == 8 && source == "step-one"@
        ||| source.len() == 8 && source == "step-two"@
        ||| source.len() == 10 && source == "step-three"@
    }

    /// How long the step's unit of work takes, in milliseconds. The work is a
    /// placeholder: it occupies the caller for this long and computes nothing.
    pub open spec fn work_millis(self) -> nat {
        match self {
            Step::Entry => 3000,
            Step::Second => 10000,
            Step::Third => 500,
            Step::Terminal => 0,
        }
    }

    /// Whether a run of this step counts towards the completion of a fan-out
    /// batch.
    pub open spec fn converges(self) -> bool {
        self == Step::Third
    }
}

/// No two steps are due for the same `source`.
pub proof fn lemma_sources_distinct(a: Step, b: Step)
    requires
        a.due_for() == b.due_for(),
    ensures
        a == b,
{
    reveal_strlit("cli");
    reveal_strlit("step-one");
    reveal_strlit("step-two");
    reveal_strlit("step-three");
    // The names differ in length, but for two that differ in their sixth
    // character.
    assert("cli"@.len() == 3 && "step-three"@.len() == 10);
    assert("step-one"@.len() == 8 && "step-one"@[5] == 'o');
    assert("step-two"@.len() == 8 && "step-two"@[5] == 't');
}

/// The transition table: each `source` of the chain has its step and the
/// `source` that the step writes, and every other `source` has none.
pub proof fn lemma_transition_table(source: Seq<char>)
    ensures
        source == "cli"@ ==> Step::at(source) == Some(Step::Entry) && Step::Entry.writes() == Some(
            "step-one"@,
        ),
        source == "step-one"@ ==> Step::at(source) == Some(Step::Second) && Step::Second.writes()
            == Some("step-two"@),
        source == "step-two"@ ==> Step::at(source) == Some(Step::Third) && Step::Third.writes()
            == Some("step-three"@),
        source == "step-three"@ ==> Step::at(source) == Some(Step::Terminal)
            && Step::Terminal.writes() == None::<Seq<char>>,
        !Step::known(source) ==> Step::at(source) == None::<Step>,
        Step::known(source) <==> Step::at(source) is Some,
        forall|step: Step| Step::at(source) == Some(step) <==> source == step.due_for(),
{
    reveal_strlit("cli");
    reveal_strlit("step-one");
    reveal_strlit("step-two");
    reveal_strlit("step-three");
    assert forall|step: Step| source == step.due_for() implies Step::at(source) == Some(step) by {
        match Step::at(source) {
            Some(found) => lemma_sources_distinct(found, step),
            None => {},
        }
    }
}

impl Step {
    /// The `source` of the events that this step is due for.
    pub fn due_for_name(self) -> (name: &'static str)
        ensures
            name@ == self.due_for(),
    {
        match self {
            Step::Entry => "cli",
            Step::Second => "step-one",
            Step::Third => "step-two",
            Step::Terminal => "step-three",
        }
    }

    /// The step that comes after this one.
    pub fn next(self) -> (next: Option<Step>)
        ensures
            next == self.successor(),
    {
        match self {
            Step::Entry => Some(Step::Second),
            Step::Second => Some(Step::Third),
            Step::Third => Some(Step::Terminal),
            Step::Terminal => None,
        }
    }

    /// The step that is due for an event with the given `source`.
    pub fn from_source(source: &str) -> (step: Option<Step>)
        ensures
            step == Step::at(source@),
    {
        if same_text(source, Step::Entry.due_for_name()) {
            Some(Step::Entry)
        } else if same_text(source, Step::Second.due_for_name()) {
            Some(Step::Second)
        } else if same_text(source, Step::Third.due_for_name()) {
            Some(Step::Third)
        } else if same_text(source, Step::Terminal.due_for_name()) {
            Some(Step::Terminal)
        } else {
            None
        }
    }

    /// How long the step's unit of work takes, in milliseconds.
    pub fn work_duration_millis(self) -> (millis: u64)
        ensures
            millis == self.work_millis(),
    {
        match self {
            Step::Entry => 3000,
            Step::Second => 10000,
            Step::Third => 500,
            Step::Terminal => 0,
        }
    }

    /// Whether a run of this step counts towards the completion of a fan-out
    /// batch.
    pub fn is_convergent(self) -> (yes: bool)
        ensures
            yes == self.converges(),
    {
        match self {
            Step::Third => true,
            _ => false,
        }
    }
}

/// What the resolver found for a `source`, as mathematical values.
pub struct ResolutionView {
    pub step: Step,
    pub next_source: Option<Seq<char>>,
}

/// What the resolver found for a `source`: the step that is due, and the
/// `source` to write once the step has run.
#[derive(Debug, PartialEq, Eq)]
pub struct Resolution {
    pub step: Step,
    pub next_source: Option<String>,
}

impl View for Resolution {
    type V = ResolutionView;

    open spec fn view(&self) -> ResolutionView {
        ResolutionView {
            step: self.step,
            next_source: match self.next_source {
                Some(name) => Some(name@),
                None => None,
            },
        }
    }
}

/// A `source` that is no position of the workflow. It stands for a defect in
/// the chain's configuration, so nothing is retried.
#[derive(Debug, PartialEq, Eq)]
pub struct RoutingError {
    /// The offending `source`.
    pub source: String,
}

impl RoutingError {
    /// The text that starts every routing diagnostic.
    pub open spec fn message_prefix() -> Seq<char> {
        "cloudevent: error: unrecognised source: "@
    }

    /// The diagnostic for this error, which names the offending `source`.
    pub fn message(&self) -> (text: String)
        ensures
            text@ == RoutingError::message_prefix() + self.source@,
    {
        let mut text = String::from_str("cloudevent: error: unrecognised source: ");
        text.append(self.source.as_str());
        text
    }
}

/// What the resolver answers for `source`: the step and the next `source`
/// where the workflow has such a position, the offending value where not.
pub open spec fn resolution(source: Seq<char>) -> Result<ResolutionView, Seq<char>> {
    match Step::at(source) {
        Some(step) => Ok(ResolutionView { step, next_source: step.writes() }),
        None => Err(source),
    }
}

/// Whether `answer` is what the resolver answers for `source`.
pub open spec fn resolves(source: Seq<char>, answer: Result<Resolution, RoutingError>) -> bool {
    match resolution(source) {
        Ok(found) => answer is Ok && answer->Ok_0@ == found,
        Err(offending) => answer is Err && answer->Err_0.source@ == offending,
    }
}

/// Resolves a `source` to the step that is due and to the `source` that the
/// step writes. Fails on a `source` that is no position of the workflow.
pub fn resolve(source: &str) -> (answer: Result<Resolution, RoutingError>)
    ensures
        resolves(source@, answer),
        answer is Ok <==> Step::known(source@),
        source@ == "cli"@ ==> answer is Ok && answer->Ok_0@ == (ResolutionView {
            step: Step::Entry,
            next_source: Some("step-one"@),
        }),
        source@ == "step-one"@ ==> answer is Ok && answer->Ok_0@ == (ResolutionView {
            step: Step::Second,
            next_source: Some("step-two"@),
        }),
        source@ == "step-two"@ ==> answer is Ok && answer->Ok_0@ == (ResolutionView {
            step: Step::Third,
            next_source: Some("step-three"@),
        }),
        source@ == "step-three"@ ==> answer is Ok && answer->Ok_0@ == (ResolutionView {
            step: Step::Terminal,
            next_source: None,
        }),
        !Step::known(source@) ==> answer is Err && answer->Err_0.source@ == source@,
{
    proof {
        lemma_transition_table(source@);
    }
    match Step::from_source(source) {
        Some(step) => {
            let next_source = match step.next() {
                Some(next) => Some(String::from_str(next.due_for_name())),
                None => None,
            };
            Ok(Resolution { step, next_source })
        },
        None => Err(RoutingError { source: String::from_str(source) }),
    }
}

/// The resolver is a function of its input: two answers for one `source`
/// name the same step and the same next `source`, or the same offending value.
pub proof fn lemma_resolve_deterministic(
    source: Seq<char>,
    first: Result<Resolution, RoutingError>,
    second: Result<Resolution, RoutingError>,
)
    requires
        resolves(source, first),
        resolves(source, second),
    ensures
        first is Ok <==> second is Ok,
        first is Ok ==> first->Ok_0@ == second->Ok_0@,
        first is Err ==> first->Err_0.source@ == second->Err_0.source@,
{
}

} // verus!
