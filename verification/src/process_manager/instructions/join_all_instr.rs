use vstd::prelude::*;
use std::marker::PhantomData;

verus! {

/// An instruction that runs the process on every input of a batch at
/// once, and gives back all the results, in the order of the inputs.
pub struct JoinAllInstruction<Input, ClosureOutput> {
    batch: Vec<Input>,
    _phantom: PhantomData<ClosureOutput>,
}

impl<Input, ClosureOutput> JoinAllInstruction<Input, ClosureOutput> {
    /// The inputs, in the order they were given.
    pub closed spec fn batch(&self) -> Seq<Input> {
        self.batch@
    }

    /// An instruction with no input yet.
    pub fn new() -> (r: Self)
        ensures
            r.batch() == Seq::<Input>::empty(),
    {
        Self { batch: Vec::new(), _phantom: PhantomData }
    }

    /// Adds an input at the end of the batch.
    pub fn push(&mut self, item: Input)
        ensures
            final(self).batch() == old(self).batch().push(item),
    {
        self.batch.push(item);
    }

    /// Adds inputs at the end of the batch, in their order.
    pub fn push_many(&mut self, items: Vec<Input>)
        ensures
            final(self).batch() == old(self).batch() + items@,
    {
        let mut items = items;
        self.batch.append(&mut items);
    }

    /// The inputs, taken out of the instruction.
    pub fn into_batch(self) -> (r: Vec<Input>)
        ensures
            r@ == self.batch(),
    {
        self.batch
    }
}

} // verus!
