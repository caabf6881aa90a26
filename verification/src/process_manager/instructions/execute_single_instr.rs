use vstd::prelude::*;

verus! {

/// An instruction that runs the manager's process once, on one input.
pub struct ExecuteSingleInstruction<Input: Send + 'static> {
    value: Input,
}

impl<Input: Send + 'static> ExecuteSingleInstruction<Input> {
    /// The input the process will run on.
    pub closed spec fn input(&self) -> Input {
        self.value
    }

    /// An instruction to run the process on `value`.
    pub fn new(value: Input) -> (r: Self)
        ensures
            r.input() == value,
    {
        ExecuteSingleInstruction { value }
    }

    /// The input the process will run on, taken out of the instruction.
    pub fn into_input(self) -> (r: Input)
        ensures
            r == self.input(),
    {
        self.value
    }
}

/// An instruction that runs a function of its own, once, on one input,
/// in place of the manager's process.
pub struct HijackOnceInstruction<Input, Function> where Input: Send + 'static {
    value: Input,
    function: Function,
}

impl<Input, Function> HijackOnceInstruction<Input, Function> where Input: Send + 'static {
    /// The input the function will run on.
    pub closed spec fn input(&self) -> Input {
        self.value
    }

    /// The function that runs in place of the manager's process.
    pub closed spec fn function(&self) -> Function {
        self.function
    }

    /// An instruction to run `function` on `value`.
    pub fn new(value: Input, function: Function) -> (r: Self)
        ensures
            r.input() == value,
            r.function() == function,
    {
        Self { value, function }
    }

    /// The input and the function, taken out of the instruction.
    pub fn into_parts(self) -> (r: (Input, Function))
        ensures
            r.0 == self.input(),
            r.1 == self.function(),
    {
        (self.value, self.function)
    }
}

} // verus!
