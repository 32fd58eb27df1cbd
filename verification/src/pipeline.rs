use vstd::prelude::*;

use crate::error::AvifError;
use crate::ffi::{is_ok, AVIF_RESULT_OK};

verus! {

/// A step of libavif's encode pipeline, in the order they run.
#[derive(Clone, Copy, Debug, PartialEq, Eq, Structural)]
pub enum EncodeStep {
    /// `avifImageCreate`: allocate the YUV image.
    CreateImage,
    /// `avifImageRGBToYUV`: convert the RGB pixels into the image.
    ConvertToYuv,
    /// `avifEncoderCreate`: allocate the encoder.
    CreateEncoder,
    /// `avifEncoderWrite`: encode the image into an AVIF stream.
    WriteOutput,
}

/// What a step gave back: a handle (whether it is non-null) for the
/// allocating steps, a result code for the others.
#[derive(Clone, Copy, Debug, PartialEq, Eq, Structural)]
pub enum StepOutcome {
    Handle { non_null: bool },
    Code(u32),
}

/// What to do after a step.
#[derive(Debug)]
pub enum EncodeAction {
    /// Run the given step next.
    Run(EncodeStep),
    /// Every step succeeded: the written stream is the result.
    Finish,
    /// Stop with this error.
    Fail(AvifError),
    /// Stop with `AvifError::Encode` carrying libavif's message for this result code.
    FailWithMessage(u32),
}

/// The steps that hand back a handle rather than a result code.
pub open spec fn allocates(step: EncodeStep) -> bool {
    step == EncodeStep::CreateImage || step == EncodeStep::CreateEncoder
}

/// Whether an outcome is of the kind its step gives back.
pub open spec fn outcome_fits(step: EncodeStep, outcome: StepOutcome) -> bool {
    if allocates(step) {
        outcome is Handle
    } else {
        outcome is Code
    }
}

/// Whether a step succeeded: a non-null handle, or `AVIF_RESULT_OK`.
pub open spec fn succeeded(outcome: StepOutcome) -> bool {
    match outcome {
        StepOutcome::Handle { non_null } => non_null,
        StepOutcome::Code(c) => c == AVIF_RESULT_OK,
    }
}

/// The step after `step`, `None` after the last one.
pub open spec fn successor(step: EncodeStep) -> Option<EncodeStep> {
    match step {
        EncodeStep::CreateImage => Some(EncodeStep::ConvertToYuv),
        EncodeStep::ConvertToYuv => Some(EncodeStep::CreateEncoder),
        EncodeStep::CreateEncoder => Some(EncodeStep::WriteOutput),
        EncodeStep::WriteOutput => None,
    }
}

/// The `EncoderInit` message for a failed allocation.
fn null_message(step: EncodeStep) -> (m: String)
    requires
        allocates(step),
    ensures
        step == EncodeStep::CreateImage ==> m@ == "avifImageCreate returned null"@,
        step == EncodeStep::CreateEncoder ==> m@ == "avifEncoderCreate returned null"@,
{
    if step == EncodeStep::CreateImage {
        "avifImageCreate returned null".to_owned()
    } else {
        "avifEncoderCreate returned null".to_owned()
    }
}

/// Decides what follows a step of the encode pipeline: the next step when it
/// succeeded (or the end after the last one); `EncoderInit` when an
/// allocation came back null; libavif's own message when a call failed.
pub fn next_step(step: EncodeStep, outcome: StepOutcome) -> (a: EncodeAction)
    requires
        outcome_fits(step, outcome),
    ensures
        succeeded(outcome) ==> a == (match successor(step) {
            Some(s) => EncodeAction::Run(s),
            None => EncodeAction::Finish,
        }),
        !succeeded(outcome) && step == EncodeStep::CreateImage ==> (a matches EncodeAction::Fail(
            AvifError::EncoderInit(m),
        ) && m@ == "avifImageCreate returned null"@),
        !succeeded(outcome) && step == EncodeStep::CreateEncoder ==> (a matches EncodeAction::Fail(
            AvifError::EncoderInit(m),
        ) && m@ == "avifEncoderCreate returned null"@),
        !succeeded(outcome) && !allocates(step) ==> (outcome matches StepOutcome::Code(c) && a
            == EncodeAction::FailWithMessage(c)),
        a is Run ==> succeeded(outcome),
        succeeded(outcome) && step == EncodeStep::CreateImage ==> a == EncodeAction::Run(
            EncodeStep::ConvertToYuv,
        ),
        succeeded(outcome) && step == EncodeStep::ConvertToYuv ==> a == EncodeAction::Run(
            EncodeStep::CreateEncoder,
        ),
        succeeded(outcome) && step == EncodeStep::CreateEncoder ==> a == EncodeAction::Run(
            EncodeStep::WriteOutput,
        ),
        a is Finish <==> (step == EncodeStep::WriteOutput && succeeded(outcome)),
{
    let ok = match outcome {
        StepOutcome::Handle { non_null } => non_null,
        StepOutcome::Code(c) => is_ok(c),
    };
    if !ok {
        return match outcome {
            StepOutcome::Handle { .. } => EncodeAction::Fail(AvifError::EncoderInit(null_message(step))),
            StepOutcome::Code(c) => EncodeAction::FailWithMessage(c),
        };
    }
    match step {
        EncodeStep::CreateImage => EncodeAction::Run(EncodeStep::ConvertToYuv),
        EncodeStep::ConvertToYuv => EncodeAction::Run(EncodeStep::CreateEncoder),
        EncodeStep::CreateEncoder => EncodeAction::Run(EncodeStep::WriteOutput),
        EncodeStep::WriteOutput => EncodeAction::Finish,
    }
}

} // verus!
