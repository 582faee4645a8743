//! Replayable descriptions of a location inside the document tree.
//!
//! A [`Path`] is a sequence of steps, each a field name or a sequence index.
//! The validation pass extends the path on the way down and restores it on
//! the way back up, so an error can be tagged with the exact location at
//! which it was found without building a string for locations that never
//! produce one.

use vstd::prelude::*;

verus! {

/// One step of a location: entering a named field or indexing a sequence.
#[derive(Debug, PartialEq, Eq)]
pub enum Step {
    Field(String),
    Index(usize),
}

/// The mathematical form of a [`Step`].
pub enum StepView {
    Field(Seq<char>),
    Index(int),
}

impl View for Step {
    type V = StepView;

    open spec fn view(&self) -> StepView {
        match self {
            Step::Field(name) => StepView::Field(name@),
            Step::Index(i) => StepView::Index(*i as int),
        }
    }
}

/// The views of a sequence of steps, in order.
pub open spec fn step_views(steps: Seq<Step>) -> Seq<StepView> {
    steps.map_values(|s: Step| s@)
}

impl Clone for Step {
    fn clone(&self) -> (r: Self)
        ensures
            r@ == self@,
    {
        match self {
            Step::Field(name) => Step::Field(name.clone()),
            Step::Index(i) => Step::Index(*i),
        }
    }
}

/// A location inside the document tree, from the root down.
#[derive(Debug, PartialEq, Eq)]
pub struct Path {
    steps: Vec<Step>,
}

impl View for Path {
    type V = Seq<StepView>;

    closed spec fn view(&self) -> Seq<StepView> {
        step_views(self.steps@)
    }
}

impl Clone for Path {
    fn clone(&self) -> (r: Self)
        ensures
            r@ == self@,
    {
        let mut steps: Vec<Step> = Vec::new();
        let mut i: usize = 0;
        while i < self.steps.len()
            invariant
                i <= self.steps.len(),
                steps@.len() == i,
                forall|j: int| 0 <= j < i ==> steps@[j]@ == self.steps@[j]@,
            decreases self.steps.len() - i,
        {
            steps.push(self.steps[i].clone());
            i += 1;
        }
        proof {
            assert(step_views(steps@) =~= step_views(self.steps@));
        }
        Path { steps }
    }
}

impl Path {
    /// The path of the document root: no steps at all.
    pub fn root() -> (r: Path)
        ensures
            r@ == Seq::<StepView>::empty(),
    {
        let r = Path { steps: Vec::new() };
        proof {
            assert(r@ =~= Seq::<StepView>::empty());
        }
        r
    }

    /// The number of steps taken from the root.
    pub fn len(&self) -> (n: usize)
        ensures
            n == self@.len(),
    {
        self.steps.len()
    }

    /// Descends into the field called `name`.
    pub fn push_field(&mut self, name: &str)
        ensures
            final(self)@ == old(self)@.push(StepView::Field(name@)),
    {
        self.steps.push(Step::Field(name.to_owned()));
        proof {
            assert(self@ =~= old(self)@.push(StepView::Field(name@)));
        }
    }

    /// Descends into position `i` of a sequence field.
    pub fn push_index(&mut self, i: usize)
        ensures
            final(self)@ == old(self)@.push(StepView::Index(i as int)),
    {
        self.steps.push(Step::Index(i));
        proof {
            assert(self@ =~= old(self)@.push(StepView::Index(i as int)));
        }
    }

    /// Steps back up to the parent location.
    pub fn pop_step(&mut self)
        requires
            old(self)@.len() > 0,
        ensures
            final(self)@ == old(self)@.drop_last(),
    {
        let _ = self.steps.pop();
        proof {
            assert(self@ =~= old(self)@.drop_last());
        }
    }

    /// The steps taken so far, for callers that render or compare locations.
    pub fn steps(&self) -> (r: &Vec<Step>)
        ensures
            step_views(r@) == self@,
    {
        &self.steps
    }
}

} // verus!
