//! The order in which the execution providers of the inference runtime are
//! tried before the model is loaded.

use vstd::prelude::*;

verus! {

/// An execution provider.
#[derive(Clone, Copy, Debug, PartialEq, Eq, Structural)]
pub enum Provider {
    TensorRt,
    Cuda,
    DirectMl,
}

/// What follows an attempt to register a provider.
#[derive(Clone, Copy, Debug, PartialEq, Eq, Structural)]
pub enum Step {
    /// Try to register this provider next.
    Register(Provider),
    /// Every provider has been tried: load the model.
    LoadModel,
    /// No execution platform is left: give up.
    Stop,
}

impl Provider {
    /// The provider that is tried first.
    pub fn first() -> (p: Provider)
        ensures
            p == Provider::TensorRt,
    {
        Provider::TensorRt
    }

    /// Each provider is tried in turn, whether or not the one before it was
    /// registered. Only the last one must succeed.
    pub open spec fn spec_after(self, registered: bool) -> Step {
        match self {
            Provider::TensorRt => Step::Register(Provider::Cuda),
            Provider::Cuda => Step::Register(Provider::DirectMl),
            Provider::DirectMl => if registered {
                Step::LoadModel
            } else {
                Step::Stop
            },
        }
    }

    /// What to do after the attempt to register `self`, which succeeded or
    /// not as `registered` says.
    #[verifier::when_used_as_spec(spec_after)]
    pub fn after(self, registered: bool) -> (step: Step)
        ensures
            step == self.spec_after(registered),
    {
        match self {
            Provider::TensorRt => Step::Register(Provider::Cuda),
            Provider::Cuda => Step::Register(Provider::DirectMl),
            Provider::DirectMl => if registered {
                Step::LoadModel
            } else {
                Step::Stop
            },
        }
    }
}

} // verus!
