use avif::{next_step, AvifError, EncodeAction, EncodeStep, StepOutcome, AVIF_RESULT_OK};

fn run_to(step: EncodeStep, outcome: StepOutcome) -> EncodeAction {
    next_step(step, outcome)
}

#[test]
fn successful_steps_run_in_order_and_finish() {
    let mut step = EncodeStep::CreateImage;
    let mut seen = vec![step];
    loop {
        let outcome = match step {
            EncodeStep::CreateImage | EncodeStep::CreateEncoder => StepOutcome::Handle { non_null: true },
            EncodeStep::ConvertToYuv | EncodeStep::WriteOutput => StepOutcome::Code(AVIF_RESULT_OK),
        };
        match run_to(step, outcome) {
            EncodeAction::Run(next) => {
                step = next;
                seen.push(step);
            }
            EncodeAction::Finish => break,
            other => panic!("unexpected {:?}", other),
        }
    }
    assert_eq!(seen, vec![
        EncodeStep::CreateImage,
        EncodeStep::ConvertToYuv,
        EncodeStep::CreateEncoder,
        EncodeStep::WriteOutput,
    ]);
}

#[test]
fn null_image_is_encoder_init_error() {
    match run_to(EncodeStep::CreateImage, StepOutcome::Handle { non_null: false }) {
        EncodeAction::Fail(AvifError::EncoderInit(m)) => assert_eq!(m, "avifImageCreate returned null"),
        other => panic!("unexpected {:?}", other),
    }
}

#[test]
fn null_encoder_is_encoder_init_error() {
    match run_to(EncodeStep::CreateEncoder, StepOutcome::Handle { non_null: false }) {
        EncodeAction::Fail(AvifError::EncoderInit(m)) => assert_eq!(m, "avifEncoderCreate returned null"),
        other => panic!("unexpected {:?}", other),
    }
}

#[test]
fn failed_calls_report_their_code() {
    match run_to(EncodeStep::ConvertToYuv, StepOutcome::Code(7)) {
        EncodeAction::FailWithMessage(c) => assert_eq!(c, 7),
        other => panic!("unexpected {:?}", other),
    }
    match run_to(EncodeStep::WriteOutput, StepOutcome::Code(1)) {
        EncodeAction::FailWithMessage(c) => assert_eq!(c, 1),
        other => panic!("unexpected {:?}", other),
    }
}
