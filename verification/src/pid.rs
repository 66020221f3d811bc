use vstd::prelude::*;

verus! {

/// Source of the derivative term of the speed controller.
#[derive(Clone, Copy, Debug, PartialEq, Eq, Structural)]
pub enum DerivativeMode {
    /// Derivative of the error (de/dt): a set-speed step kicks the output.
    OnError,
    /// Derivative of the feedback (-df/dt): no kick on set-speed steps.
    OnFeedback,
}

} // verus!
