//! What a renderer does after an attempt at its job.

use vstd::prelude::*;

use crate::text;

verus! {

/// How an attempt at a job ended.
#[derive(Debug)]
pub enum Outcome {
    /// The video was rendered.
    Rendered,
    /// The encoder does not take the pixel format of the job; it takes those of `supported`.
    PixelFormatNotSupported { format: String, supported: Vec<String> },
    /// Anything else went wrong.
    Failed { message: String },
}

/// What comes after an attempt.
#[derive(Debug)]
pub enum NextStep {
    /// Nothing.
    Done,
    /// Another attempt, with the decoder of this number; -1 decodes without the GPU.
    Retry { decoder: i32 },
    /// The user has to choose another pixel format.
    ConvertFormat { format: String, supported: String },
    /// The job has failed; `arg` stands for `%1` in `message`.
    Fail { message: String, arg: String },
}

/// What an `Outcome` holds.
pub enum OutcomeView {
    Rendered,
    PixelFormatNotSupported { format: Seq<char>, supported: Seq<Seq<char>> },
    Failed { message: Seq<char> },
}

/// What a `NextStep` holds.
pub enum NextStepView {
    Done,
    Retry { decoder: i32 },
    ConvertFormat { format: Seq<char>, supported: Seq<char> },
    Fail { message: Seq<char>, arg: Seq<char> },
}

impl View for Outcome {
    type V = OutcomeView;

    open spec fn view(&self) -> OutcomeView {
        match *self {
            Outcome::Rendered => OutcomeView::Rendered,
            Outcome::PixelFormatNotSupported { format, supported } =>
            OutcomeView::PixelFormatNotSupported {
                format: format@,
                supported: text::texts(supported@),
            },
            Outcome::Failed { message } => OutcomeView::Failed { message: message@ },
        }
    }
}

impl View for NextStep {
    type V = NextStepView;

    open spec fn view(&self) -> NextStepView {
        match *self {
            NextStep::Done => NextStepView::Done,
            NextStep::Retry { decoder } => NextStepView::Retry { decoder },
            NextStep::ConvertFormat { format, supported } => NextStepView::ConvertFormat {
                format: format@,
                supported: supported@,
            },
            NextStep::Fail { message, arg } => NextStepView::Fail {
                message: message@,
                arg: arg@,
            },
        }
    }
}

/// The decoder of the first attempt.
pub const FIRST_DECODER: i32 = 0;

/// The last of the decoders on the GPU.
pub const LAST_GPU_DECODER: i32 = 4;

/// Decoding without the GPU.
pub const CPU_DECODER: i32 = -1;

/// The decoder to try after `decoder` failed before the first frame, if any is left: the
/// other decoders on the GPU in turn, then decoding without the GPU.
pub open spec fn following_decoder(decoder: i32) -> Option<i32> {
    if FIRST_DECODER <= decoder < LAST_GPU_DECODER {
        Some((decoder + 1) as i32)
    } else if decoder == LAST_GPU_DECODER {
        Some(CPU_DECODER)
    } else {
        None
    }
}

/// What comes after an attempt with `decoder`, when `rendered_frames` frames are done.
pub open spec fn next_step(
    decoder: i32,
    rendered_frames: usize,
    outcome: OutcomeView,
) -> NextStepView {
    match outcome {
        OutcomeView::Rendered => NextStepView::Done,
        OutcomeView::PixelFormatNotSupported { format, supported } => NextStepView::ConvertFormat {
            format,
            supported: text::joined(supported, ","@),
        },
        OutcomeView::Failed { message } => if rendered_frames == 0 && following_decoder(
            decoder,
        ) is Some {
            NextStepView::Retry { decoder: following_decoder(decoder)->0 }
        } else {
            NextStepView::Fail { message: "An error occured: %1"@, arg: message }
        },
    }
}

/// The decoder of each attempt, as long as all fail before the first frame.
pub open spec fn attempt_decoder(attempt: nat) -> i32 {
    if attempt <= LAST_GPU_DECODER {
        attempt as i32
    } else {
        CPU_DECODER
    }
}

/// How many attempts there are at most.
pub open spec fn attempt_limit() -> nat {
    (LAST_GPU_DECODER + 2) as nat
}

/// A renderer that never gets to its first frame tries every decoder on the GPU in turn, then
/// decodes without the GPU, and then gives up with the last error.
pub proof fn law_attempts(attempt: nat, message: Seq<char>)
    requires
        attempt < attempt_limit(),
    ensures
        attempt_decoder(0) == FIRST_DECODER,
        attempt_decoder((attempt_limit() - 1) as nat) == CPU_DECODER,
        next_step(attempt_decoder(attempt), 0, OutcomeView::Failed { message }) == if attempt + 1
            < attempt_limit() {
            NextStepView::Retry { decoder: attempt_decoder(attempt + 1) }
        } else {
            NextStepView::Fail { message: "An error occured: %1"@, arg: message }
        },
{
}

/// After a failure without a frame the decoders 0 to 4 follow one another, then comes -1, which
/// decodes without the GPU; after that, after any other decoder, and once a frame was
/// rendered, the job has failed with the message of the attempt.
pub proof fn law_failed_attempt(decoder: i32, rendered_frames: usize, message: Seq<char>)
    ensures
        ({
            let step = next_step(decoder, rendered_frames, OutcomeView::Failed { message });
            if rendered_frames == 0 && 0 <= decoder <= 3 {
                step == NextStepView::Retry { decoder: (decoder + 1) as i32 }
            } else if rendered_frames == 0 && decoder == 4 {
                step == NextStepView::Retry { decoder: (-1) as i32 }
            } else {
                step == NextStepView::Fail { message: "An error occured: %1"@, arg: message }
            }
        }),
{
}

/// A rendered video is done, and an encoder that does not take the format passes on the format
/// and all formats that it takes, in order, whatever the decoder and however many frames were
/// rendered.
pub proof fn law_other_outcomes(
    decoder: i32,
    rendered_frames: usize,
    format: Seq<char>,
    supported: Seq<Seq<char>>,
)
    ensures
        next_step(decoder, rendered_frames, OutcomeView::Rendered) == NextStepView::Done,
        next_step(
            decoder,
            rendered_frames,
            OutcomeView::PixelFormatNotSupported { format, supported },
        ) == (NextStepView::ConvertFormat {
            format,
            supported: text::joined(supported, seq![',']),
        }),
{
    reveal_strlit(",");
    assert(","@ =~= seq![',']);
}

/// No attempt follows once a frame was rendered, whatever the decoder.
pub proof fn law_no_retry_after_first_frame(
    decoder: i32,
    rendered_frames: usize,
    outcome: OutcomeView,
)
    requires
        rendered_frames > 0,
    ensures
        !(next_step(decoder, rendered_frames, outcome) is Retry),
{
}

/// What comes after an attempt with `decoder`, when `rendered_frames` frames are done.
pub fn after_attempt(decoder: i32, rendered_frames: usize, outcome: Outcome) -> (step: NextStep)
    ensures
        step@ == next_step(decoder, rendered_frames, outcome@),
{
    match outcome {
        Outcome::Rendered => NextStep::Done,
        Outcome::PixelFormatNotSupported { format, supported } => NextStep::ConvertFormat {
            format,
            supported: text::join(&supported, ","),
        },
        Outcome::Failed { message } => {
            if rendered_frames == 0 {
                if decoder >= FIRST_DECODER && decoder < LAST_GPU_DECODER {
                    return NextStep::Retry { decoder: decoder + 1 };
                }
                if decoder == LAST_GPU_DECODER {
                    return NextStep::Retry { decoder: CPU_DECODER };
                }
            }
            NextStep::Fail { message: "An error occured: %1".to_owned(), arg: message }
        },
    }
}

} // verus!
