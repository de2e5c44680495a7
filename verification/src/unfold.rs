//! A sequence unfolded from a seed by a function that makes one pending
//! step at a time.
use vstd::prelude::*;

verus! {

/// The sequence unfolded from a seed `T` by `f`, which turns the seed into
/// the pending step `Fut`. A step that completes gives the next item and the
/// next seed, or ends the sequence.
#[must_use]
#[derive(Debug)]
pub struct Unfold<T, F, Fut> {
    f: F,
    state: Option<T>,
    fut: Option<Fut>,
}

/// The state of an [`Unfold`].
pub ghost struct UnfoldView<T, F, Fut> {
    pub f: F,
    pub state: Option<T>,
    pub fut: Option<Fut>,
}

impl<T, F, Fut> UnfoldView<T, F, Fut> {
    /// Whether the sequence has ended: no seed is left and no step pending.
    pub open spec fn is_terminated(self) -> bool {
        self.state.is_none() && self.fut.is_none()
    }

    /// The state after a step has completed with `step`: the next seed is
    /// kept, or none at the end.
    pub open spec fn step_done<Item>(self, step: Option<(Item, T)>) -> Self {
        match step {
            Some((_, next)) => UnfoldView { state: Some(next), fut: None, ..self },
            None => UnfoldView { fut: None, ..self },
        }
    }
}

/// What a completed step yields.
pub open spec fn step_item<Item, T>(step: Option<(Item, T)>) -> Option<Item> {
    match step {
        Some((item, _)) => Some(item),
        None => None,
    }
}

impl<T, F, Fut> View for Unfold<T, F, Fut> {
    type V = UnfoldView<T, F, Fut>;

    closed spec fn view(&self) -> UnfoldView<T, F, Fut> {
        UnfoldView { f: self.f, state: self.state, fut: self.fut }
    }
}

/// The sequence unfolded from the seed `init` by `f`.
pub fn unfold<T, F, Fut>(init: T, f: F) -> (sequence: Unfold<T, F, Fut>)
    ensures
        sequence@ == (UnfoldView { f, state: Some(init), fut: None::<Fut> }),
{
    Unfold { f, state: Some(init), fut: None }
}

impl<T, F, Fut> Unfold<T, F, Fut> {
    /// Whether the sequence has ended.
    pub fn is_terminated(&self) -> (terminated: bool)
        ensures
            terminated == self@.is_terminated(),
    {
        self.state.is_none() && self.fut.is_none()
    }

    /// Takes the seed from which the next step is made, where one is kept.
    pub fn take_seed(&mut self) -> (seed: Option<T>)
        ensures
            seed == old(self)@.state,
            final(self)@ == (UnfoldView { state: None, ..old(self)@ }),
    {
        self.state.take()
    }

    /// The function that makes a step from a seed.
    pub fn step_fn(&mut self) -> (f: &mut F)
        ensures
            *f == old(self)@.f,
            final(self)@ == (UnfoldView { f: *final(f), ..old(self)@ }),
    {
        &mut self.f
    }

    /// Stores the step that was just made from the seed. No step is made
    /// while another is pending.
    pub fn step_made(&mut self, fut: Fut)
        requires
            old(self)@.fut.is_none(),
        ensures
            final(self)@ == (UnfoldView { fut: Some(fut), ..old(self)@ }),
    {
        self.fut = Some(fut);
    }

    /// The pending step, to be polled.
    pub fn pending(&mut self) -> (fut: Option<&mut Fut>)
        ensures
            match old(self)@.fut {
                None => fut.is_none() && final(self)@ == old(self)@,
                Some(pending) => fut.is_some() && *fut.unwrap() == pending && final(self)@ == (
                UnfoldView { fut: Some(*final(fut.unwrap())), ..old(self)@ }),
            },
    {
        self.fut.as_mut()
    }

    /// Takes what the pending step completed with and yields the next item,
    /// or the end of the sequence.
    pub fn step_done<Item>(&mut self, step: Option<(Item, T)>) -> (item: Option<Item>)
        ensures
            final(self)@ == old(self)@.step_done(step),
            item == step_item(step),
    {
        self.fut = None;
        match step {
            Some((item, next)) => {
                self.state = Some(next);
                Some(item)
            },
            None => None,
        }
    }
}

} // verus!
