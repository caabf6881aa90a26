use vstd::prelude::*;

verus! {

/// An instruction that runs the process on every input of a batch at
/// once and gives back the first result to be ready, or nothing where the
/// batch is empty.
pub struct RaceInstruction<Input: Send + 'static>(Vec<Input>);

impl<I: Send + 'static> RaceInstruction<I> {
    /// The inputs, in the order they were given.
    pub closed spec fn batch(&self) -> Seq<I> {
        self.0@
    }

    /// An instruction with no input yet.
    pub fn new() -> (r: Self)
        ensures
            r.batch() == Seq::<I>::empty(),
    {
        Self(Vec::new())
    }

    /// Adds an input at the end of the batch.
    pub fn push(&mut self, value: I)
        ensures
            final(self).batch() == old(self).batch().push(value),
    {
        self.0.push(value);
    }

    /// Adds inputs at the end of the batch, in their order.
    pub fn push_many(&mut self, values: Vec<I>)
        ensures
            final(self).batch() == old(self).batch() + values@,
    {
        let mut values = values;
        self.0.append(&mut values);
    }

    /// The inputs that race, taken out of the instruction: `None` where
    /// there is none, in which case the race has no result.
    pub fn into_contenders(self) -> (r: Option<Vec<I>>)
        ensures
            match r {
                Some(inputs) => inputs@ == self.batch() && inputs@.len() > 0,
                None => self.batch().len() == 0,
            },
    {
        if self.0.len() == 0 {
            None
        } else {
            Some(self.0)
        }
    }
}

} // verus!
