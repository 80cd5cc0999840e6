//! Performing steps one after the other.
use crate::action::{Arg, JniAction, JniStep, OnError, StepView};
use crate::host::Host;
use std::sync::Arc;
use vstd::prelude::*;

verus! {

/// What came of an action.
pub enum Outcome<H: Host> {
    /// It is done; what it gave lies in its place.
    Done,
    /// The text that was read.
    Text(String),
    /// The number that a method gave.
    Number(i32),
    /// The reference that keeps an object alive.
    Object(Arc<H::Object>),
    /// It failed.
    Failed(jni::errors::Error),
}

/// How a run stands.
pub enum Ending {
    /// No failure has ended it.
    Fine,
    /// A failure left the remaining steps out.
    Concluded(jni::errors::Error),
    /// A failure ended it.
    Failed(jni::errors::Error),
}

/// Whether an outcome is of the kind that an action gives.
pub open spec fn fits<H: Host>(action: JniAction<Seq<char>, Seq<Arg>>, outcome: Outcome<H>) -> bool {
    match outcome {
        Outcome::Done => gives_nothing(action),
        Outcome::Text(_) => action is ReadText,
        Outcome::Number(_) => action is CallInt,
        Outcome::Object(_) => action is NewGlobalRef,
        Outcome::Failed(_) => true,
    }
}

/// Whether an action gives nothing to this side.
pub open spec fn gives_nothing(action: JniAction<Seq<char>, Seq<Arg>>) -> bool {
    !(action is ReadText) && !(action is CallInt) && !(action is NewGlobalRef)
}

/// Whether all the actions give nothing to this side.
pub open spec fn silent(plan: Seq<StepView>) -> bool {
    forall|i: int| 0 <= i < plan.len() ==> gives_nothing((#[trigger] plan[i]).action)
}

/// How many of the actions give a reference.
pub open spec fn objects_in(plan: Seq<StepView>) -> nat
    decreases plan.len(),
{
    if plan.len() == 0 {
        0
    } else {
        objects_in(plan.drop_last()) + (if plan.last().action is NewGlobalRef {
            1nat
        } else {
            0
        })
    }
}

/// Whether one of the actions gives a text.
pub open spec fn text_in(plan: Seq<StepView>) -> bool {
    exists|i: int| 0 <= i < plan.len() && (#[trigger] plan[i]).action is ReadText
}

/// Whether one of the actions gives a number.
pub open spec fn number_in(plan: Seq<StepView>) -> bool {
    exists|i: int| 0 <= i < plan.len() && (#[trigger] plan[i]).action is CallInt
}

/// Whether every step whose failure leaves steps out leaves out steps that exist, and none that
/// gives anything to this side.
pub open spec fn skips_soundly(plan: Seq<StepView>) -> bool {
    forall|i: int|
        0 <= i < plan.len() ==> match (#[trigger] plan[i]).on_error {
            OnError::Skip(n) => i + 1 + n <= plan.len() && silent(plan.subrange(i, i + 1 + n)),
            _ => true,
        }
}

/// The contents of a [`Run`].
pub struct RunView<H: Host> {
    pub plan: Seq<StepView>,
    pub at: int,
    pub ending: Ending,
    pub text: Option<Seq<char>>,
    pub number: Option<i32>,
    pub objects: Seq<Arc<H::Object>>,
}

impl<H: Host> RunView<H> {
    /// A run that has not begun.
    pub open spec fn start(plan: Seq<StepView>) -> RunView<H> {
        RunView::<H> {
            plan,
            at: 0,
            ending: Ending::Fine,
            text: None,
            number: None,
            objects: Seq::empty(),
        }
    }

    /// Whether no step is left.
    pub open spec fn done(self) -> bool {
        self.at == self.plan.len()
    }

    /// What has been gathered is what the steps so far give, and there are no more steps than a
    /// list can hold.
    pub open spec fn wf(self) -> bool {
        &&& 0 <= self.at <= self.plan.len() <= usize::MAX
        &&& skips_soundly(self.plan)
        &&& !(self.ending is Fine) ==> self.done()
        &&& self.ending is Fine ==> {
            &&& self.objects.len() == objects_in(self.plan.take(self.at))
            &&& self.text is Some <==> text_in(self.plan.take(self.at))
            &&& self.number is Some <==> number_in(self.plan.take(self.at))
        }
    }

    /// The run after the current step came to `outcome`.
    pub open spec fn after(self, outcome: Outcome<H>) -> RunView<H> {
        match outcome {
            Outcome::Done => RunView::<H> { at: self.at + 1, ..self },
            Outcome::Text(text) => RunView::<H> { at: self.at + 1, text: Some(text@), ..self },
            Outcome::Number(n) => RunView::<H> { at: self.at + 1, number: Some(n), ..self },
            Outcome::Object(object) => RunView::<H> {
                at: self.at + 1,
                objects: self.objects.push(object),
                ..self
            },
            Outcome::Failed(e) => match self.plan[self.at].on_error {
                OnError::Return => RunView::<H> {
                    at: self.plan.len() as int,
                    ending: Ending::Failed(e),
                    ..self
                },
                OnError::Conclude => RunView::<H> {
                    at: self.plan.len() as int,
                    ending: Ending::Concluded(e),
                    ..self
                },
                OnError::Skip(n) => RunView::<H> { at: self.at + 1 + n, ..self },
            },
        }
    }
}

/// Steps that give nothing to this side do not count among those that give a reference.
pub proof fn objects_in_silent(plan: Seq<StepView>, more: Seq<StepView>)
    requires
        silent(more),
    ensures
        objects_in(plan + more) == objects_in(plan),
    decreases more.len(),
{
    if more.len() == 0 {
        assert(plan + more =~= plan);
    } else {
        objects_in_silent(plan, more.drop_last());
        assert((plan + more).drop_last() =~= plan + more.drop_last());
        assert((plan + more).last() == more.last());
    }
}

/// Each outcome of the right kind brings the run closer to its end, and keeps it well formed.
pub proof fn step_makes_progress<H: Host>(run: RunView<H>, outcome: Outcome<H>)
    requires
        run.wf(),
        !run.done(),
        fits(run.plan[run.at].action, outcome),
    ensures
        run.after(outcome).wf(),
        run.at < run.after(outcome).at <= run.plan.len(),
        run.after(outcome).plan == run.plan,
{
    let plan = run.plan;
    let at = run.at;
    let next = run.after(outcome);
    let here = plan.take(at);
    let onward = plan.take(at + 1);
    assert(onward.drop_last() =~= here);
    assert(onward.last() == plan[at]);
    assert(text_in(here) ==> text_in(onward)) by {
        if text_in(here) {
            let i = choose|i: int| 0 <= i < here.len() && (#[trigger] here[i]).action is ReadText;
            assert(onward[i].action is ReadText);
        }
    }
    assert(number_in(here) ==> number_in(onward)) by {
        if number_in(here) {
            let i = choose|i: int| 0 <= i < here.len() && (#[trigger] here[i]).action is CallInt;
            assert(onward[i].action is CallInt);
        }
    }
    if text_in(onward) && !(plan[at].action is ReadText) {
        let i = choose|i: int| 0 <= i < onward.len() && (#[trigger] onward[i]).action is ReadText;
        assert(here[i].action is ReadText);
    }
    if number_in(onward) && !(plan[at].action is CallInt) {
        let i = choose|i: int| 0 <= i < onward.len() && (#[trigger] onward[i]).action is CallInt;
        assert(here[i].action is CallInt);
    }
    if plan[at].action is ReadText {
        assert(onward[at].action is ReadText);
    }
    if plan[at].action is CallInt {
        assert(onward[at].action is CallInt);
    }
    match outcome {
        Outcome::Failed(e) => match plan[at].on_error {
            OnError::Skip(n) => {
                let past = plan.take(at + 1 + n);
                let left_out = plan.subrange(at, at + 1 + n);
                assert(past =~= here + left_out);
                objects_in_silent(here, left_out);
                if text_in(past) {
                    let i = choose|i: int|
                        0 <= i < past.len() && (#[trigger] past[i]).action is ReadText;
                    if i >= at {
                        assert(left_out[i - at].action is ReadText);
                    } else {
                        assert(here[i].action is ReadText);
                    }
                }
                if text_in(here) {
                    let i = choose|i: int|
                        0 <= i < here.len() && (#[trigger] here[i]).action is ReadText;
                    assert(past[i].action is ReadText);
                }
                if number_in(past) {
                    let i = choose|i: int|
                        0 <= i < past.len() && (#[trigger] past[i]).action is CallInt;
                    if i >= at {
                        assert(left_out[i - at].action is CallInt);
                    } else {
                        assert(here[i].action is CallInt);
                    }
                }
                if number_in(here) {
                    let i = choose|i: int|
                        0 <= i < here.len() && (#[trigger] here[i]).action is CallInt;
                    assert(past[i].action is CallInt);
                }
            },
            _ => {},
        },
        _ => {},
    }
}

/// The steps of a message, and how far they have been performed.
pub struct Run<H: Host> {
    steps: Vec<JniStep>,
    at: usize,
    ending: Ending,
    text: Option<String>,
    number: Option<i32>,
    objects: Vec<Arc<H::Object>>,
}

impl<H: Host> View for Run<H> {
    type V = RunView<H>;

    closed spec fn view(&self) -> RunView<H> {
        RunView::<H> {
            plan: crate::plan::plan(self.steps@),
            at: self.at as int,
            ending: self.ending,
            text: crate::plan::optional(self.text),
            number: self.number,
            objects: self.objects@,
        }
    }
}

/// What a run gathered.
pub struct Gathered<H: Host> {
    pub ending: Ending,
    pub text: Option<String>,
    pub number: Option<i32>,
    pub objects: Vec<Arc<H::Object>>,
}

impl<H: Host> Run<H> {
    /// A run that has not begun.
    pub fn new(steps: Vec<JniStep>) -> (r: Run<H>)
        requires
            skips_soundly(crate::plan::plan(steps@)),
        ensures
            r@ == RunView::<H>::start(crate::plan::plan(steps@)),
            r@.wf(),
    {
        let r = Run {
            steps,
            at: 0,
            ending: Ending::Fine,
            text: None,
            number: None,
            objects: Vec::new(),
        };
        assert(r@.objects =~= Seq::<Arc<H::Object>>::empty());
        assert(r@.plan.take(0) =~= Seq::<StepView>::empty());
        assert(r@.plan.len() == r.steps.len());
        r
    }

    /// The step to be performed next; `None` at the end.
    pub fn current(&self) -> (r: Option<&JniStep>)
        requires
            self@.wf(),
        ensures
            match r {
                Some(step) => !self@.done() && step@ == self@.plan[self@.at],
                None => self@.done(),
            },
    {
        if self.at < self.steps.len() {
            Some(&self.steps[self.at])
        } else {
            None
        }
    }

    /// Takes the outcome of the current step and goes on to the next.
    pub fn advance(&mut self, outcome: Outcome<H>)
        requires
            old(self)@.wf(),
            !old(self)@.done(),
            fits(old(self)@.plan[old(self)@.at].action, outcome),
        ensures
            final(self)@ == old(self)@.after(outcome),
            final(self)@.wf(),
            old(self)@.at < final(self)@.at <= final(self)@.plan.len(),
    {
        proof {
            step_makes_progress(self@, outcome);
            assert(self@.plan[self@.at] == self.steps@[self.at as int]@);
        }
        assert(self.at < self.steps.len());
        match outcome {
            Outcome::Done => {
                self.at = self.at + 1;
            },
            Outcome::Text(text) => {
                self.text = Some(text);
                self.at = self.at + 1;
            },
            Outcome::Number(n) => {
                self.number = Some(n);
                self.at = self.at + 1;
            },
            Outcome::Object(object) => {
                self.objects.push(object);
                self.at = self.at + 1;
            },
            Outcome::Failed(e) => match self.steps[self.at].on_error {
                OnError::Return => {
                    self.ending = Ending::Failed(e);
                    self.at = self.steps.len();
                },
                OnError::Conclude => {
                    self.ending = Ending::Concluded(e);
                    self.at = self.steps.len();
                },
                OnError::Skip(n) => {
                    assert(self.at + 1 + n <= self.steps.len());
                    self.at = self.at + 1 + n;
                },
            },
        }
    }

    /// What the run gathered.
    pub fn gathered(self) -> (r: Gathered<H>)
        ensures
            r.ending == self@.ending,
            crate::plan::optional(r.text) == self@.text,
            r.number == self@.number,
            r.objects@ == self@.objects,
    {
        Gathered {
            ending: self.ending,
            text: self.text,
            number: self.number,
            objects: self.objects,
        }
    }
}

} // verus!
