//! Classification with generation, unary and streaming: the tasks, and the
//! decisions of the guardrail pattern (input detection, short-circuit,
//! generation, output detection, response assembly).

use vstd::prelude::*;
use vstd::string::*;

use crate::batcher::MaxProcessedIndexBatcher;
use crate::chunk::Chunk;
use crate::clients::Header;
use crate::detection::Detection;
use crate::detection_warning::DetectionWarning;
use crate::detector_params::DetectorParams;
use crate::errors::Error;
use crate::guardrails_config::{
    apply_masks, masked, masks_wf, DetectorMap, GuardrailsConfig, GuardrailsConfigInput,
    GuardrailsConfigOutput,
};
use crate::streaming::{chunk_frames, is_output_frame, output_detection_response};
use crate::text_generation::{
    ClassifiedGeneratedTextResult, ClassifiedGeneratedTextStreamResult,
    TextGenerationParams, TokenClassificationResults,
};

verus! {

/// A request for classification with generation.
#[derive(Debug, Clone)]
pub struct GuardrailsHttpRequest {
    pub model_id: String,
    pub inputs: String,
    pub guardrail_config: Option<GuardrailsConfig>,
    pub text_gen_parameters: Option<TextGenerationParams>,
}

/// A unary classification-with-generation task.
#[derive(Debug)]
pub struct ClassificationWithGenTask {
    pub trace_id: u128,
    pub model_id: String,
    pub inputs: String,
    pub guardrails_config: GuardrailsConfig,
    pub text_gen_parameters: Option<TextGenerationParams>,
    pub headers: Vec<Header>,
}

/// The guardrails of a request; none configured where it gives none.
pub open spec fn config_of(request: GuardrailsHttpRequest) -> (
    Option<GuardrailsConfigInput>,
    Option<GuardrailsConfigOutput>,
) {
    match request.guardrail_config {
        Some(c) => (c.input, c.output),
        None => (None, None),
    }
}

fn guardrails_of(config: Option<GuardrailsConfig>) -> (r: GuardrailsConfig)
    ensures
        match config {
            Some(c) => r == c,
            None => r.input is None && r.output is None,
        },
{
    match config {
        Some(c) => c,
        None => GuardrailsConfig::default(),
    }
}

impl ClassificationWithGenTask {
    pub fn new(trace_id: u128, request: GuardrailsHttpRequest, headers: Vec<Header>) -> (r: Self)
        ensures
            r.trace_id == trace_id,
            r.model_id == request.model_id,
            r.inputs == request.inputs,
            (r.guardrails_config.input, r.guardrails_config.output) == config_of(request),
            r.text_gen_parameters == request.text_gen_parameters,
            r.headers == headers,
    {
        ClassificationWithGenTask {
            trace_id,
            model_id: request.model_id,
            inputs: request.inputs,
            guardrails_config: guardrails_of(request.guardrail_config),
            text_gen_parameters: request.text_gen_parameters,
            headers,
        }
    }
}

/// A streaming classification-with-generation task.
#[derive(Debug)]
pub struct StreamingClassificationWithGenTask {
    pub trace_id: u128,
    pub model_id: String,
    pub inputs: String,
    pub guardrails_config: GuardrailsConfig,
    pub text_gen_parameters: Option<TextGenerationParams>,
    pub headers: Vec<Header>,
}

impl StreamingClassificationWithGenTask {
    pub fn new(trace_id: u128, request: GuardrailsHttpRequest, headers: Vec<Header>) -> (r: Self)
        ensures
            r.trace_id == trace_id,
            r.model_id == request.model_id,
            r.inputs == request.inputs,
            (r.guardrails_config.input, r.guardrails_config.output) == config_of(request),
            r.text_gen_parameters == request.text_gen_parameters,
            r.headers == headers,
    {
        StreamingClassificationWithGenTask {
            trace_id,
            model_id: request.model_id,
            inputs: request.inputs,
            guardrails_config: guardrails_of(request.guardrail_config),
            text_gen_parameters: request.text_gen_parameters,
            headers,
        }
    }
}

/// Some detectors are configured in `d`.
pub open spec fn has_detectors(d: Option<Seq<(String, DetectorParams)>>) -> bool {
    d is Some && d->0.len() > 0
}

fn any_detectors(d: Option<&DetectorMap>) -> (r: bool)
    ensures
        r == has_detectors(
            match d {
                Some(m) => Some(m@),
                None => None,
            },
        ),
{
    match d {
        Some(m) => m.len() > 0,
        None => false,
    }
}

/// The regions of the input that input detection runs on, or none where no
/// input detectors are configured.
pub fn input_regions(config: &GuardrailsConfig, inputs: &String) -> (r: Option<Vec<(usize, String)>>)
    requires
        config.masks_of() is Some ==> masks_wf(config.masks_of()->0),
    ensures
        r is Some <==> has_detectors(config.input_models()),
        r is Some ==> {
            let v = r->0@;
            match config.masks_of() {
                Some(ms) if ms.len() > 0 => {
                    &&& v.len() == ms.len()
                    &&& forall|i: int|
                        0 <= i < v.len() ==> (#[trigger] v[i]).0 == ms[i].0 && v[i].1@ == masked(
                            inputs@,
                            ms[i],
                        )
                },
                _ => v.len() == 1 && v[0].0 == 0 && v[0].1@ == inputs@,
            }
        },
{
    if any_detectors(config.input_detectors()) {
        Some(apply_masks(inputs.clone(), config.input_masks()))
    } else {
        None
    }
}

/// `r` short-circuits the task on input detections: it holds no generation,
/// the detections on the input, and exactly one warning, of unsuitable
/// input.
pub open spec fn is_input_short_circuit(
    r: ClassifiedGeneratedTextResult,
    detections: Vec<Detection>,
    input_token_count: u32,
) -> bool {
    &&& r.generated_text is None
    &&& r.tokens is None
    &&& r.finish_reason is None
    &&& r.generated_token_count is None
    &&& r.seed is None
    &&& r.input_tokens is None
    &&& r.input_token_count == input_token_count
    &&& r.token_classification_results.input == Some(detections)
    &&& r.token_classification_results.output is None
    &&& r.warnings is Some
    &&& r.warnings->0@.len() == 1
    &&& r.warnings->0@[0].is_unsuitable_input()
}

/// The response when input detection is done: none where no detection
/// surfaced (generation goes ahead), else the short-circuit response.
pub fn input_detection_response(
    detections: Vec<Detection>,
    input_token_count: u32,
) -> (r: Option<ClassifiedGeneratedTextResult>)
    ensures
        r is None <==> detections@.len() == 0,
        r is Some ==> is_input_short_circuit(r->0, detections, input_token_count),
{
    if detections.len() == 0 {
        None
    } else {
        let mut r = ClassifiedGeneratedTextResult::default();
        r.input_token_count = input_token_count;
        r.token_classification_results = TokenClassificationResults {
            input: Some(detections),
            output: None,
        };
        r.warnings = Some(vec![DetectionWarning::unsuitable_input()]);
        Some(r)
    }
}

/// The text that output detection runs on, or none where no output
/// detectors are configured.
pub fn output_text(config: &GuardrailsConfig, generation: &ClassifiedGeneratedTextResult) -> (r: Option<String>)
    ensures
        r is Some <==> has_detectors(config.output_models()),
        r is Some ==> r->0@ == match generation.generated_text {
            Some(t) => t@,
            None => Seq::<char>::empty(),
        },
{
    if any_detectors(config.output_detectors()) {
        match &generation.generated_text {
            Some(t) => Some(t.clone()),
            None => Some(String::new()),
        }
    } else {
        None
    }
}

/// The generation annotated with output detections: unchanged where none
/// surfaced, else with the detections and one warning of unsuitable output.
pub fn with_output_detections(
    generation: ClassifiedGeneratedTextResult,
    detections: Vec<Detection>,
) -> (r: ClassifiedGeneratedTextResult)
    ensures
        detections@.len() == 0 ==> r == generation,
        detections@.len() > 0 ==> {
            &&& r.generated_text == generation.generated_text
            &&& r.tokens == generation.tokens
            &&& r.input_tokens == generation.input_tokens
            &&& r.finish_reason == generation.finish_reason
            &&& r.generated_token_count == generation.generated_token_count
            &&& r.seed == generation.seed
            &&& r.input_token_count == generation.input_token_count
            &&& r.token_classification_results.input == generation.token_classification_results.input
            &&& r.token_classification_results.output == Some(detections)
            &&& r.warnings is Some
            &&& r.warnings->0@.len() == 1
            &&& r.warnings->0@[0].is_unsuitable_output()
        },
{
    let mut r = generation;
    if detections.len() > 0 {
        r.token_classification_results.output = Some(detections);
        r.warnings = Some(vec![DetectionWarning::unsuitable_output()]);
    }
    r
}

/// The streaming response frame when input detection is done: none where
/// no detection surfaced, else the single frame that ends the stream.
pub fn input_detection_stream_response(
    detections: Vec<Detection>,
    input_token_count: u32,
) -> (r: Option<ClassifiedGeneratedTextStreamResult>)
    ensures
        r is None <==> detections@.len() == 0,
        r is Some ==> {
            let f = r->0;
            &&& f.generated_text is None
            &&& f.tokens is None
            &&& f.finish_reason is None
            &&& f.generated_token_count is None
            &&& f.seed is None
            &&& f.input_tokens is None
            &&& f.processed_index is None
            &&& f.start_index is None
            &&& f.input_token_count == input_token_count
            &&& f.token_classification_results.input == Some(detections)
            &&& f.token_classification_results.output is None
            &&& f.warnings is Some
            &&& f.warnings->0@.len() == 1
            &&& f.warnings->0@[0].is_unsuitable_input()
        },
{
    if detections.len() == 0 {
        None
    } else {
        let mut r = ClassifiedGeneratedTextStreamResult::default();
        r.input_token_count = input_token_count;
        r.token_classification_results = TokenClassificationResults {
            input: Some(detections),
            output: None,
        };
        r.warnings = Some(vec![DetectionWarning::unsuitable_input()]);
        Some(r)
    }
}

/// The states of a streaming task.
#[derive(Debug, Clone, Copy, PartialEq, Eq, Structural)]
pub enum StreamingState {
    AwaitingInputDecision,
    ShortCircuitInput,
    GeneratingNoOutputDetectors,
    GeneratingWithOutputDetectors,
    Terminal,
}

/// Where a streaming task goes once input detection is decided.
pub open spec fn route(input_surfaced: bool, has_output_detectors: bool) -> StreamingState {
    if input_surfaced {
        StreamingState::ShortCircuitInput
    } else if !has_output_detectors {
        StreamingState::GeneratingNoOutputDetectors
    } else {
        StreamingState::GeneratingWithOutputDetectors
    }
}

/// The state a streaming task enters from `AwaitingInputDecision`, given
/// the input detections that surfaced (none where no input detectors ran).
pub fn streaming_route(input_detections: &Vec<Detection>, config: &GuardrailsConfig) -> (r: StreamingState)
    ensures
        r == route(input_detections@.len() > 0, has_detectors(config.output_models())),
{
    if input_detections.len() > 0 {
        StreamingState::ShortCircuitInput
    } else if !any_detectors(config.output_detectors()) {
        StreamingState::GeneratingNoOutputDetectors
    } else {
        StreamingState::GeneratingWithOutputDetectors
    }
}

/// The transition of a streaming task: from `AwaitingInputDecision` by
/// `route`; the short-circuit ends after its single frame; generating ends
/// when the upstream closes or the client disconnects.
pub open spec fn transition(
    state: StreamingState,
    input_surfaced: bool,
    has_output_detectors: bool,
    closed: bool,
) -> StreamingState {
    match state {
        StreamingState::AwaitingInputDecision => route(input_surfaced, has_output_detectors),
        StreamingState::ShortCircuitInput => StreamingState::Terminal,
        StreamingState::GeneratingNoOutputDetectors | StreamingState::GeneratingWithOutputDetectors => if closed {
            StreamingState::Terminal
        } else {
            state
        },
        StreamingState::Terminal => StreamingState::Terminal,
    }
}

/// Steps a streaming task's state machine.
pub fn next_state(
    state: StreamingState,
    input_surfaced: bool,
    has_output_detectors: bool,
    closed: bool,
) -> (r: StreamingState)
    ensures
        r == transition(state, input_surfaced, has_output_detectors, closed),
{
    match state {
        StreamingState::AwaitingInputDecision => if input_surfaced {
            StreamingState::ShortCircuitInput
        } else if !has_output_detectors {
            StreamingState::GeneratingNoOutputDetectors
        } else {
            StreamingState::GeneratingWithOutputDetectors
        },
        StreamingState::ShortCircuitInput => StreamingState::Terminal,
        StreamingState::GeneratingNoOutputDetectors | StreamingState::GeneratingWithOutputDetectors => if closed {
            StreamingState::Terminal
        } else {
            state
        },
        StreamingState::Terminal => StreamingState::Terminal,
    }
}

/// What a loop that sends frames to the client does next.
#[derive(Debug)]
pub enum StreamAction {
    /// Send this frame, then go on
    Send(ClassifiedGeneratedTextStreamResult),
    /// Send this error, then stop
    Fail(Error),
    /// The upstream closed: stop
    Finish,
}

/// The next action of the loop that forwards generation frames unchanged:
/// a frame is sent, an error ends the stream after it is sent, and the end
/// of the generation ends the stream.
pub fn forward_step(event: Option<Result<ClassifiedGeneratedTextStreamResult, Error>>) -> (r: StreamAction)
    ensures
        match event {
            Some(Ok(g)) => r == StreamAction::Send(g),
            Some(Err(e)) => r == StreamAction::Fail(e),
            None => r is Finish,
        },
{
    match event {
        Some(Ok(g)) => StreamAction::Send(g),
        Some(Err(e)) => StreamAction::Fail(e),
        None => StreamAction::Finish,
    }
}

/// Message of the error for a chunk over generation frames not received.
pub const MISSING_GENERATIONS_MESSAGE: &'static str = "chunk spans generation frames that were not received";

/// The next action of the loop that turns detection batches into frames:
/// a batch on a well-formed chunk over received generation frames becomes
/// its output frame; an error, or a batch over frames not received, ends
/// the stream after it is sent; the end of the batches ends the stream.
pub fn batch_step(
    generations: &Vec<ClassifiedGeneratedTextStreamResult>,
    event: Option<Result<(Chunk, Vec<Detection>), Error>>,
) -> (r: StreamAction)
    ensures
        match event {
            Some(Ok((c, ds))) => if c.wf() && c.input_end_index < generations@.len() {
                r is Send && is_output_frame(r->Send_0, chunk_frames(generations@, c), c, ds)
            } else {
                r is Fail && r->Fail_0 is Other && r->Fail_0->Other_0@ == MISSING_GENERATIONS_MESSAGE@
            },
            Some(Err(e)) => r == StreamAction::Fail(e),
            None => r is Finish,
        },
{
    match event {
        Some(Ok((c, ds))) => {
            if c.input_start_index <= c.input_end_index && c.start <= c.end && c.input_end_index
                < generations.len() {
                StreamAction::Send(output_detection_response(generations, c, ds))
            } else {
                StreamAction::Fail(Error::Other(String::from_str(MISSING_GENERATIONS_MESSAGE)))
            }
        },
        Some(Err(e)) => StreamAction::Fail(e),
        None => StreamAction::Finish,
    }
}

/// A batcher for the output detectors of a streaming task, where there are
/// two or more of them; a single detection stream needs no batching.
pub fn output_batcher(config: &GuardrailsConfig) -> (r: Option<MaxProcessedIndexBatcher>)
    ensures
        r is Some <==> (config.output_models() is Some && config.output_models()->0.len() > 1),
        r is Some ==> r->0.wf() && r->0.n_detectors == config.output_models()->0.len()
            && r->0.pending@.len() == 0,
{
    match config.output_detectors() {
        Some(d) => if d.len() > 1 {
            Some(MaxProcessedIndexBatcher::new(d.len()))
        } else {
            None
        },
        None => None,
    }
}

} // verus!
