//! Results of text generation, annotated with detections.

use vstd::prelude::*;

use crate::detection::Detection;
use crate::detection_warning::DetectionWarning;

verus! {

/// Text generation stop reason.
#[derive(Debug, Clone, Copy, PartialEq, Eq, Structural, PartialOrd, Ord)]
pub enum FinishReason {
    NotFinished,
    MaxTokens,
    EosToken,
    Cancelled,
    TimeLimit,
    StopSequence,
    TokenLimit,
    Error,
}

/// Generated token details.
#[derive(Debug)]
pub struct GeneratedToken {
    /// Token text
    pub text: String,
    /// Logprob (log of normalized probability), in millionths
    pub logprob: Option<i64>,
    /// One-based rank relative to other tokens
    pub rank: Option<u32>,
}

impl Clone for GeneratedToken {
    fn clone(&self) -> (r: Self)
        ensures
            r == *self,
    {
        GeneratedToken { text: self.text.clone(), logprob: self.logprob, rank: self.rank }
    }
}

/// Token classification results: detections on the input to a text
/// generation model and on its output.
#[derive(Debug, Clone)]
pub struct TokenClassificationResults {
    /// Classification results on input to a text generation model
    pub input: Option<Vec<Detection>>,
    /// Classification results on output from a text generation model
    pub output: Option<Vec<Detection>>,
}

impl Default for TokenClassificationResults {
    fn default() -> (r: Self)
        ensures
            r.input is None,
            r.output is None,
    {
        TokenClassificationResults { input: None, output: None }
    }
}

/// Text generation and detection results.
#[derive(Debug, Clone)]
pub struct ClassifiedGeneratedTextResult {
    /// Generated text
    pub generated_text: Option<String>,
    /// Classification results for input to text generation model and/or
    /// output from the text generation model
    pub token_classification_results: TokenClassificationResults,
    /// Why text generation stopped
    pub finish_reason: Option<FinishReason>,
    /// Length of sequence of generated tokens
    pub generated_token_count: Option<u32>,
    /// Random seed used for text generation
    pub seed: Option<u32>,
    /// Length of input
    pub input_token_count: u32,
    /// Vector of warnings on input detection
    pub warnings: Option<Vec<DetectionWarning>>,
    /// Individual generated tokens and associated details, if requested
    pub tokens: Option<Vec<GeneratedToken>>,
    /// Input tokens and associated details, if requested
    pub input_tokens: Option<Vec<GeneratedToken>>,
}

impl Default for ClassifiedGeneratedTextResult {
    fn default() -> (r: Self)
        ensures
            r.generated_text is None,
            r.token_classification_results.input is None,
            r.token_classification_results.output is None,
            r.finish_reason is None,
            r.generated_token_count is None,
            r.seed is None,
            r.input_token_count == 0,
            r.warnings is None,
            r.tokens is None,
            r.input_tokens is None,
    {
        ClassifiedGeneratedTextResult {
            generated_text: None,
            token_classification_results: TokenClassificationResults::default(),
            finish_reason: None,
            generated_token_count: None,
            seed: None,
            input_token_count: 0,
            warnings: None,
            tokens: None,
            input_tokens: None,
        }
    }
}

/// Streaming text generation and detection results.
#[derive(Debug, Clone)]
pub struct ClassifiedGeneratedTextStreamResult {
    /// Generated text
    pub generated_text: Option<String>,
    /// Classification results for input to text generation model and/or
    /// output from the text generation model
    pub token_classification_results: TokenClassificationResults,
    /// Why text generation stopped
    pub finish_reason: Option<FinishReason>,
    /// Length of sequence of generated tokens
    pub generated_token_count: Option<u32>,
    /// Random seed used for text generation
    pub seed: Option<u32>,
    /// Length of input
    pub input_token_count: u32,
    /// Vector of warnings on input detection
    pub warnings: Option<Vec<DetectionWarning>>,
    /// Individual generated tokens and associated details, if requested
    pub tokens: Option<Vec<GeneratedToken>>,
    /// Input tokens and associated details, if requested
    pub input_tokens: Option<Vec<GeneratedToken>>,
    /// Result index up to which text is processed
    pub processed_index: Option<u32>,
    /// Result start index for processed text
    pub start_index: Option<u32>,
}

impl Default for ClassifiedGeneratedTextStreamResult {
    fn default() -> (r: Self)
        ensures
            r.generated_text is None,
            r.token_classification_results.input is None,
            r.token_classification_results.output is None,
            r.finish_reason is None,
            r.generated_token_count is None,
            r.seed is None,
            r.input_token_count == 0,
            r.warnings is None,
            r.tokens is None,
            r.input_tokens is None,
            r.processed_index is None,
            r.start_index is None,
    {
        ClassifiedGeneratedTextStreamResult {
            generated_text: None,
            token_classification_results: TokenClassificationResults::default(),
            finish_reason: None,
            generated_token_count: None,
            seed: None,
            input_token_count: 0,
            warnings: None,
            tokens: None,
            input_tokens: None,
            processed_index: None,
            start_index: None,
        }
    }
}

/// Parameters to exponentially increase the likelihood of the text
/// generation terminating once a specified number of tokens have been
/// generated.
#[derive(Debug, Clone)]
pub struct ExponentialDecayLengthPenalty {
    /// Start the decay after this number of tokens have been generated
    pub start_index: Option<u32>,
    /// Factor of exponential decay, in millionths
    pub decay_factor: Option<u64>,
}

/// Text generation parameters; real-valued ones are in millionths.
#[derive(Debug, Clone)]
pub struct TextGenerationParams {
    pub max_new_tokens: Option<u32>,
    pub min_new_tokens: Option<u32>,
    pub truncate_input_tokens: Option<u32>,
    pub decoding_method: Option<String>,
    pub top_k: Option<u32>,
    pub top_p: Option<u64>,
    pub typical_p: Option<u64>,
    pub temperature: Option<u64>,
    pub repetition_penalty: Option<u64>,
    pub max_time: Option<u64>,
    pub exponential_decay_length_penalty: Option<ExponentialDecayLengthPenalty>,
    pub stop_sequences: Option<Vec<String>>,
    pub seed: Option<u32>,
    pub preserve_input_text: Option<bool>,
    pub input_tokens: Option<bool>,
    pub generated_tokens: Option<bool>,
    pub token_logprobs: Option<bool>,
    pub token_ranks: Option<bool>,
    pub include_stop_sequence: Option<bool>,
}

/// One generation of a batched-generation backend, or one frame of its
/// stream.
#[derive(Debug, Clone)]
pub struct GenerationResponse {
    pub text: String,
    pub stop_reason: FinishReason,
    pub generated_token_count: u32,
    pub seed: u64,
    pub input_token_count: u32,
    pub tokens: Vec<GeneratedToken>,
    pub input_tokens: Vec<GeneratedToken>,
}

/// The answer of a batched-generation backend: one generation per input.
#[derive(Debug, Clone)]
pub struct BatchedGenerationResponse {
    pub responses: Vec<GenerationResponse>,
}

/// A token list, or none where it is empty.
pub open spec fn nonempty_tokens(t: Vec<GeneratedToken>) -> Option<Vec<GeneratedToken>> {
    if t@.len() == 0 {
        None
    } else {
        Some(t)
    }
}

fn tokens_if_any(t: Vec<GeneratedToken>) -> (r: Option<Vec<GeneratedToken>>)
    ensures
        r == nonempty_tokens(t),
{
    if t.len() == 0 {
        None
    } else {
        Some(t)
    }
}

impl ClassifiedGeneratedTextResult {
    /// The result of the first generation of a batched answer, with no
    /// detections.
    pub fn from_batched(value: BatchedGenerationResponse) -> (r: Self)
        requires
            value.responses@.len() > 0,
        ensures
            ({
                let g = value.responses@[0];
                &&& r.generated_text == Some(g.text)
                &&& r.finish_reason == Some(g.stop_reason)
                &&& r.generated_token_count == Some(g.generated_token_count)
                &&& r.seed == Some(#[verifier::truncate] (g.seed as u32))
                &&& r.input_token_count == g.input_token_count
                &&& r.warnings is None
                &&& r.tokens == nonempty_tokens(g.tokens)
                &&& r.input_tokens == nonempty_tokens(g.input_tokens)
                &&& r.token_classification_results.input is None
                &&& r.token_classification_results.output is None
            }),
    {
        let mut responses = value.responses;
        let g = responses.swap_remove(0);
        ClassifiedGeneratedTextResult {
            generated_text: Some(g.text),
            token_classification_results: TokenClassificationResults::default(),
            finish_reason: Some(g.stop_reason),
            generated_token_count: Some(g.generated_token_count),
            seed: Some(#[verifier::truncate] (g.seed as u32)),
            input_token_count: g.input_token_count,
            warnings: None,
            tokens: tokens_if_any(g.tokens),
            input_tokens: tokens_if_any(g.input_tokens),
        }
    }
}

impl ClassifiedGeneratedTextStreamResult {
    /// The frame of one streamed generation response, with no detections,
    /// starting at offset 0 and not yet processed.
    pub fn from_generation(g: GenerationResponse) -> (r: Self)
        ensures
            r.generated_text == Some(g.text),
            r.finish_reason == Some(g.stop_reason),
            r.generated_token_count == Some(g.generated_token_count),
            r.seed == Some(#[verifier::truncate] (g.seed as u32)),
            r.input_token_count == g.input_token_count,
            r.warnings is None,
            r.tokens == nonempty_tokens(g.tokens),
            r.input_tokens == nonempty_tokens(g.input_tokens),
            r.token_classification_results.input is None,
            r.token_classification_results.output is None,
            r.processed_index is None,
            r.start_index == Some(0u32),
    {
        ClassifiedGeneratedTextStreamResult {
            generated_text: Some(g.text),
            token_classification_results: TokenClassificationResults::default(),
            finish_reason: Some(g.stop_reason),
            generated_token_count: Some(g.generated_token_count),
            seed: Some(#[verifier::truncate] (g.seed as u32)),
            input_token_count: g.input_token_count,
            warnings: None,
            tokens: tokens_if_any(g.tokens),
            input_tokens: tokens_if_any(g.input_tokens),
            processed_index: None,
            start_index: Some(0),
        }
    }
}

} // verus!
