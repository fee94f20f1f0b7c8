//! The streaming classification-with-generation pipeline: how a batch of
//! detections on a chunk becomes a response frame, and the decisions of the
//! loops that move frames along.

use vstd::prelude::*;

use crate::chunk::Chunk;
use crate::detection::{copy_detections, same_detections, Detection};
use crate::detection_warning::DetectionWarning;
use crate::text_generation::{
    ClassifiedGeneratedTextStreamResult, GeneratedToken, TokenClassificationResults,
};

verus! {

/// The tokens of an optional token list.
pub open spec fn opt_tokens(o: Option<Vec<GeneratedToken>>) -> Option<Seq<GeneratedToken>> {
    match o {
        Some(v) => Some(v@),
        None => None,
    }
}

/// The warnings of an optional warning list.
pub open spec fn opt_warnings(o: Option<Vec<DetectionWarning>>) -> Option<Seq<DetectionWarning>> {
    match o {
        Some(v) => Some(v@),
        None => None,
    }
}

/// The generated tokens of a frame; none where it has no token list.
pub open spec fn tokens_of(g: ClassifiedGeneratedTextStreamResult) -> Seq<GeneratedToken> {
    match g.tokens {
        Some(t) => t@,
        None => Seq::empty(),
    }
}

/// The generated tokens of `frames`, one frame after the other.
pub open spec fn frame_tokens(frames: Seq<ClassifiedGeneratedTextStreamResult>) -> Seq<GeneratedToken>
    decreases frames.len(),
{
    if frames.len() == 0 {
        Seq::empty()
    } else {
        frame_tokens(frames.drop_last()) + tokens_of(frames.last())
    }
}

/// The generation frames that `chunk` spans.
pub open spec fn chunk_frames(
    generations: Seq<ClassifiedGeneratedTextStreamResult>,
    chunk: Chunk,
) -> Seq<ClassifiedGeneratedTextStreamResult> {
    generations.subrange(chunk.input_start_index as int, chunk.input_end_index + 1)
}

/// `r` is the response frame for `chunk` with `detections`, built on the
/// generation frames `slice` that the chunk spans.
pub open spec fn is_output_frame(
    r: ClassifiedGeneratedTextStreamResult,
    slice: Seq<ClassifiedGeneratedTextStreamResult>,
    chunk: Chunk,
    detections: Vec<Detection>,
) -> bool {
    let last = slice.last();
    let first = slice[0];
    &&& r.generated_text == Some(chunk.text)
    &&& r.start_index == Some(chunk.start as u32)
    &&& r.processed_index == Some(chunk.end as u32)
    &&& opt_tokens(r.tokens) == Some(frame_tokens(slice))
    &&& r.token_classification_results.output == Some(detections)
    &&& (r.token_classification_results.input is Some
        <==> last.token_classification_results.input is Some)
    &&& (r.token_classification_results.input is Some ==> same_detections(
        r.token_classification_results.input->0@,
        last.token_classification_results.input->0@,
    ))
    &&& r.finish_reason == last.finish_reason
    &&& r.generated_token_count == last.generated_token_count
    &&& opt_warnings(r.warnings) == opt_warnings(last.warnings)
    &&& if chunk.input_start_index == 0 {
        &&& r.input_token_count == first.input_token_count
        &&& r.seed == first.seed
        &&& opt_tokens(r.input_tokens) == if slice.len() > 1 {
            opt_tokens(slice[1].input_tokens)
        } else {
            Some(Seq::empty())
        }
    } else {
        &&& r.input_token_count == last.input_token_count
        &&& r.seed == last.seed
        &&& opt_tokens(r.input_tokens) == opt_tokens(last.input_tokens)
    }
}

fn copy_tokens(o: &Option<Vec<GeneratedToken>>) -> (r: Option<Vec<GeneratedToken>>)
    ensures
        opt_tokens(r) == opt_tokens(*o),
{
    match o {
        Some(v) => {
            let c = v.clone();
            assert(c@ =~= v@);
            Some(c)
        },
        None => None,
    }
}

fn copy_warnings(o: &Option<Vec<DetectionWarning>>) -> (r: Option<Vec<DetectionWarning>>)
    ensures
        opt_warnings(r) == opt_warnings(*o),
{
    match o {
        Some(v) => {
            let c = v.clone();
            assert(c@ =~= v@);
            Some(c)
        },
        None => None,
    }
}

/// Builds a response frame with output detections on `chunk`.
///
/// The frame carries the chunk's text and span, the tokens of the
/// generation frames that the chunk spans, and the finish reason, token
/// count and warnings of the last of them; a chunk at the start of the
/// generation also carries the input token count and seed of the first
/// frame and the input tokens of the second.
pub fn output_detection_response(
    generations: &Vec<ClassifiedGeneratedTextStreamResult>,
    chunk: Chunk,
    detections: Vec<Detection>,
) -> (r: ClassifiedGeneratedTextStreamResult)
    requires
        chunk.wf(),
        chunk.input_end_index < generations@.len(),
    ensures
        is_output_frame(r, chunk_frames(generations@, chunk), chunk, detections),
{
    let s = chunk.input_start_index;
    let e = chunk.input_end_index;
    let ghost slice = chunk_frames(generations@, chunk);
    let mut tokens: Vec<GeneratedToken> = Vec::new();
    let mut i = s;
    while i <= e
        invariant
            s <= i <= e + 1,
            e < generations.len(),
            tokens@ == frame_tokens(generations@.subrange(s as int, i as int)),
        decreases e + 1 - i,
    {
        let ghost before = tokens@;
        match &generations[i].tokens {
            Some(t) => {
                let mut c = t.clone();
                assert(c@ =~= t@);
                tokens.append(&mut c);
            },
            None => {},
        }
        assert(generations@.subrange(s as int, i + 1).drop_last() =~= generations@.subrange(
            s as int,
            i as int,
        ));
        i = i + 1;
    }
    let last = &generations[e];
    let (input_token_count, seed, input_tokens) = if s == 0 {
        let first = &generations[0];
        let input_tokens = if e >= 1 {
            copy_tokens(&generations[1].input_tokens)
        } else {
            Some(Vec::new())
        };
        (first.input_token_count, first.seed, input_tokens)
    } else {
        (last.input_token_count, last.seed, copy_tokens(&last.input_tokens))
    };
    let r = ClassifiedGeneratedTextStreamResult {
        generated_text: Some(chunk.text),
        token_classification_results: TokenClassificationResults {
            input: copy_detections(&last.token_classification_results.input),
            output: Some(detections),
        },
        finish_reason: last.finish_reason,
        generated_token_count: last.generated_token_count,
        seed,
        input_token_count,
        warnings: copy_warnings(&last.warnings),
        tokens: Some(tokens),
        input_tokens,
        processed_index: Some(#[verifier::truncate] (chunk.end as u32)),
        start_index: Some(#[verifier::truncate] (chunk.start as u32)),
    };
    proof {
        assert(slice =~= generations@.subrange(s as int, i as int));
        if s == 0 && e >= 1 {
            assert(slice[1] == generations@[1]);
        }
    }
    r
}

/// The same frame comes of the same chunk, detections and generation
/// frames: two frames that both meet `is_output_frame` agree on every
/// field, the detections on the input being copies of the same ones.
pub proof fn lemma_output_frame_deterministic(
    r1: ClassifiedGeneratedTextStreamResult,
    r2: ClassifiedGeneratedTextStreamResult,
    slice: Seq<ClassifiedGeneratedTextStreamResult>,
    chunk: Chunk,
    detections: Vec<Detection>,
)
    requires
        is_output_frame(r1, slice, chunk, detections),
        is_output_frame(r2, slice, chunk, detections),
    ensures
        r1.generated_text == r2.generated_text,
        r1.start_index == r2.start_index,
        r1.processed_index == r2.processed_index,
        opt_tokens(r1.tokens) == opt_tokens(r2.tokens),
        r1.token_classification_results.output == r2.token_classification_results.output,
        r1.token_classification_results.input is Some <==> r2.token_classification_results.input is Some,
        r1.finish_reason == r2.finish_reason,
        r1.generated_token_count == r2.generated_token_count,
        opt_warnings(r1.warnings) == opt_warnings(r2.warnings),
        r1.input_token_count == r2.input_token_count,
        r1.seed == r2.seed,
        opt_tokens(r1.input_tokens) == opt_tokens(r2.input_tokens),
{
}

/// Frames follow their chunks: where each frame is the output frame of its
/// batch, the chunks are well formed with offsets that fit a `u32`, and
/// each chunk ends at or before the next one starts, the frames come in
/// non-decreasing `start_index` and their `(start_index, processed_index)`
/// ranges do not overlap. One frame stands for each chunk.
pub proof fn lemma_frames_in_order(
    generations: Seq<ClassifiedGeneratedTextStreamResult>,
    batches: Seq<(Chunk, Vec<Detection>)>,
    frames: Seq<ClassifiedGeneratedTextStreamResult>,
)
    requires
        frames.len() == batches.len(),
        forall|i: int|
            0 <= i < frames.len() ==> is_output_frame(
                #[trigger] frames[i],
                chunk_frames(generations, batches[i].0),
                batches[i].0,
                batches[i].1,
            ),
        forall|i: int|
            0 <= i < batches.len() ==> (#[trigger] batches[i]).0.wf() && batches[i].0.end
                <= u32::MAX,
        forall|i: int, j: int|
            0 <= i < j < batches.len() ==> (#[trigger] batches[i]).0.end <= (
            #[trigger] batches[j]).0.start,
    ensures
        forall|i: int|
            0 <= i < frames.len() ==> (#[trigger] frames[i]).start_index is Some
                && frames[i].processed_index is Some && frames[i].start_index->0
                <= frames[i].processed_index->0,
        forall|i: int, j: int|
            0 <= i < j < frames.len() ==> (#[trigger] frames[i]).start_index->0 <= (
            #[trigger] frames[j]).start_index->0 && frames[i].processed_index->0
                <= frames[j].start_index->0,
{
    assert forall|i: int| 0 <= i < frames.len() implies (#[trigger] frames[i]).start_index is Some
        && frames[i].processed_index is Some && frames[i].start_index->0
        <= frames[i].processed_index->0 by {
        assert(is_output_frame(frames[i], chunk_frames(generations, batches[i].0), batches[i].0, batches[i].1));
        assert(batches[i].0.wf());
    }
    assert forall|i: int, j: int| 0 <= i < j < frames.len() implies (#[trigger] frames[i]).start_index->0
        <= (#[trigger] frames[j]).start_index->0 && frames[i].processed_index->0
        <= frames[j].start_index->0 by {
        assert(is_output_frame(frames[i], chunk_frames(generations, batches[i].0), batches[i].0, batches[i].1));
        assert(is_output_frame(frames[j], chunk_frames(generations, batches[j].0), batches[j].0, batches[j].1));
        assert(batches[i].0.wf() && batches[j].0.wf());
        assert(batches[i].0.end <= batches[j].0.start);
    }
}

} // verus!
