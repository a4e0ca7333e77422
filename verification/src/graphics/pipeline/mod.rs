use vstd::prelude::*;

pub mod controller;

use vstd::string::StringExecFns;

verus! {

/// A pipeline was asked for as a type that it is not of.
#[derive(Copy, Clone, Debug, PartialEq, Eq, Structural)]
pub struct IncorrectPipelineType;

impl IncorrectPipelineType {
    /// The error as a line of text.
    pub fn message(&self) -> (text: String)
        ensures
            text@ == "Pipeline is not of the expected type"@,
    {
        String::from_str("Pipeline is not of the expected type")
    }
}

/// Frame count that counts the number of frames rendered since an undefined
/// starting point.
#[derive(Copy, Clone, Debug, PartialEq, Eq, Structural)]
pub struct FrameCount(pub u64);

} // verus!
