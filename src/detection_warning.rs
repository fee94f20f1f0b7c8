//! Warnings attached to a response whose input or output was found
//! unsuitable.

use vstd::prelude::*;
use vstd::string::*;

verus! {

/// Message of the warning that accompanies input detections.
pub const UNSUITABLE_INPUT_MESSAGE: &'static str = "Unsuitable input detected. Please check the detected entities on your input and try again with the unsuitable input removed.";

/// Message of the warning that accompanies output detections.
pub const UNSUITABLE_OUTPUT_MESSAGE: &'static str = "Unsuitable output detected.";

/// Detection warning reason.
#[derive(Debug, Clone, Copy, PartialEq, Eq, Structural, PartialOrd, Ord)]
pub enum DetectionWarningReason {
    /// Unsuitable text detected on input
    UnsuitableInput,
    /// Unsuitable text detected on output
    UnsuitableOutput,
}

/// Detection warning reason and message.
#[derive(Debug)]
pub struct DetectionWarning {
    /// Warning reason
    pub id: Option<DetectionWarningReason>,
    /// Warning message
    pub message: Option<String>,
}

impl Clone for DetectionWarning {
    fn clone(&self) -> (r: Self)
        ensures
            r == *self,
    {
        let message = match &self.message {
            Some(m) => Some(m.clone()),
            None => None,
        };
        DetectionWarning { id: self.id, message }
    }
}

impl DetectionWarning {
    /// The warning for unsuitable input.
    pub open spec fn is_unsuitable_input(&self) -> bool {
        &&& self.id == Some(DetectionWarningReason::UnsuitableInput)
        &&& self.message is Some
        &&& self.message->0@ == UNSUITABLE_INPUT_MESSAGE@
    }

    /// The warning for unsuitable output.
    pub open spec fn is_unsuitable_output(&self) -> bool {
        &&& self.id == Some(DetectionWarningReason::UnsuitableOutput)
        &&& self.message is Some
        &&& self.message->0@ == UNSUITABLE_OUTPUT_MESSAGE@
    }

    pub fn unsuitable_input() -> (r: Self)
        ensures
            r.is_unsuitable_input(),
    {
        DetectionWarning {
            id: Some(DetectionWarningReason::UnsuitableInput),
            message: Some(String::from_str(UNSUITABLE_INPUT_MESSAGE)),
        }
    }

    pub fn unsuitable_output() -> (r: Self)
        ensures
            r.is_unsuitable_output(),
    {
        DetectionWarning {
            id: Some(DetectionWarningReason::UnsuitableOutput),
            message: Some(String::from_str(UNSUITABLE_OUTPUT_MESSAGE)),
        }
    }
}

} // verus!
