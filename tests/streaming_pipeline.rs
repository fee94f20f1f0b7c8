use fms_guardrails_orchestr8::batcher::MaxProcessedIndexBatcher;
use fms_guardrails_orchestr8::chunk::Chunk;
use fms_guardrails_orchestr8::classification::{batch_step, forward_step, StreamAction};
use fms_guardrails_orchestr8::detection::Detection;
use fms_guardrails_orchestr8::errors::Error;
use fms_guardrails_orchestr8::streaming::output_detection_response;
use fms_guardrails_orchestr8::text_generation::{
    ClassifiedGeneratedTextStreamResult, FinishReason, GeneratedToken,
};

fn det(start: Option<usize>, label: &str) -> Detection {
    Detection {
        start,
        end: None,
        text: None,
        detector_id: None,
        detection_type: "t".to_string(),
        detection: label.to_string(),
        score: 1,
        evidence: vec![],
        metadata: vec![],
    }
}

fn chunk(first: usize, last: usize, start: usize, end: usize, text: &str) -> Chunk {
    Chunk { input_start_index: first, input_end_index: last, start, end, text: text.to_string() }
}

fn token(t: &str) -> GeneratedToken {
    GeneratedToken { text: t.to_string(), logprob: None, rank: None }
}

fn frame(text: &str, tokens: Vec<&str>, input_tokens: Option<Vec<&str>>) -> ClassifiedGeneratedTextStreamResult {
    let mut f = ClassifiedGeneratedTextStreamResult::default();
    f.generated_text = Some(text.to_string());
    f.tokens = Some(tokens.into_iter().map(token).collect());
    f.input_tokens = input_tokens.map(|v| v.into_iter().map(token).collect());
    f
}

fn generations() -> Vec<ClassifiedGeneratedTextStreamResult> {
    let mut g0 = frame("", vec![], None);
    g0.input_token_count = 7;
    g0.seed = Some(42);
    let g1 = frame("Hello", vec!["Hel", "lo"], Some(vec!["in1", "in2"]));
    let mut g2 = frame(" world.", vec![" world", "."], None);
    g2.finish_reason = Some(FinishReason::EosToken);
    g2.generated_token_count = Some(4);
    g2.seed = Some(9);
    g2.input_token_count = 3;
    vec![g0, g1, g2]
}

fn labels(ds: &[Detection]) -> Vec<&str> {
    ds.iter().map(|d| d.detection.as_str()).collect()
}

#[test]
fn first_chunk_frame_carries_input_details() {
    let g = generations();
    let r = output_detection_response(&g, chunk(0, 2, 0, 12, "Hello world."), vec![det(Some(0), "x")]);
    assert_eq!(r.generated_text.as_deref(), Some("Hello world."));
    assert_eq!((r.start_index, r.processed_index), (Some(0), Some(12)));
    let toks: Vec<&str> = r.tokens.as_ref().unwrap().iter().map(|t| t.text.as_str()).collect();
    assert_eq!(toks, vec!["Hel", "lo", " world", "."]);
    assert_eq!(r.finish_reason, Some(FinishReason::EosToken));
    assert_eq!(r.generated_token_count, Some(4));
    assert_eq!(r.input_token_count, 7);
    assert_eq!(r.seed, Some(42));
    let in_toks: Vec<&str> = r.input_tokens.as_ref().unwrap().iter().map(|t| t.text.as_str()).collect();
    assert_eq!(in_toks, vec!["in1", "in2"]);
    assert_eq!(labels(r.token_classification_results.output.as_ref().unwrap()), vec!["x"]);
}

#[test]
fn later_chunk_frame_takes_last_frame_details() {
    let g = generations();
    let r = output_detection_response(&g, chunk(2, 2, 5, 12, " world."), vec![]);
    assert_eq!(r.seed, Some(9));
    assert_eq!(r.input_token_count, 3);
    assert!(r.input_tokens.is_none());
    assert_eq!(r.tokens.as_ref().unwrap().len(), 2);
    assert_eq!((r.start_index, r.processed_index), (Some(5), Some(12)));
}

#[test]
fn single_frame_chunk_has_empty_input_tokens() {
    let g = generations();
    let r = output_detection_response(&g, chunk(0, 0, 0, 0, ""), vec![]);
    assert_eq!(r.input_tokens.as_ref().map(|v| v.len()), Some(0));
}

#[test]
fn batch_over_missing_frames_fails() {
    let g = generations();
    match batch_step(&g, Some(Ok((chunk(2, 5, 0, 1, "x"), vec![])))) {
        StreamAction::Fail(Error::Other(_)) => {}
        other => panic!("unexpected {other:?}"),
    }
    assert!(matches!(batch_step(&g, None), StreamAction::Finish));
    assert!(matches!(batch_step(&g, Some(Err(Error::Cancelled))), StreamAction::Fail(Error::Cancelled)));
    assert!(matches!(batch_step(&g, Some(Ok((chunk(1, 1, 0, 5, "Hello"), vec![])))), StreamAction::Send(_)));
}

#[test]
fn forwarding_sends_frames_and_stops_on_error() {
    assert!(matches!(forward_step(Some(Ok(frame("a", vec![], None)))), StreamAction::Send(f) if f.generated_text.as_deref() == Some("a")));
    assert!(matches!(forward_step(Some(Err(Error::Cancelled))), StreamAction::Fail(Error::Cancelled)));
    assert!(matches!(forward_step(None), StreamAction::Finish));
}

#[test]
fn batcher_waits_for_every_detector() {
    let mut b = MaxProcessedIndexBatcher::new(2);
    b.push(0, chunk(0, 1, 0, 5, "Hello"), vec![det(Some(3), "a3")]);
    assert!(b.pop_batch().is_none());
    b.push(0, chunk(2, 2, 5, 12, " world."), vec![]);
    assert!(b.pop_batch().is_none());
    b.push(1, chunk(0, 1, 0, 5, "Hello"), vec![det(None, "b_none"), det(Some(1), "b1")]);
    let (c, ds) = b.pop_batch().unwrap();
    assert_eq!(c.text, "Hello");
    assert_eq!(labels(&ds), vec!["b1", "a3", "b_none"]);
    // detector 1 has processed up to frame 1 only
    assert!(b.pop_batch().is_none());
    b.push(1, chunk(2, 2, 5, 12, " world."), vec![det(Some(6), "w")]);
    let drained = b.drain();
    assert_eq!(drained.len(), 1);
    assert_eq!(drained[0].0.text, " world.");
    assert!(b.pending.is_empty());
}

#[test]
fn batcher_drains_in_chunk_order() {
    let mut b = MaxProcessedIndexBatcher::new(2);
    b.push(0, chunk(3, 3, 10, 15, "c"), vec![]);
    b.push(0, chunk(0, 1, 0, 5, "a"), vec![]);
    b.push(0, chunk(2, 2, 5, 10, "b"), vec![]);
    b.push(1, chunk(0, 3, 0, 15, "abc"), vec![]);
    let drained = b.drain();
    let starts: Vec<usize> = drained.iter().map(|(c, _)| c.input_start_index).collect();
    assert_eq!(starts, vec![0, 0, 2, 3]);
    // frames built from the drained chunks come out in start order
    let mut g = generations();
    g.push(frame("!", vec!["!"], None));
    let frames: Vec<_> = drained
        .into_iter()
        .map(|(c, ds)| output_detection_response(&g, c, ds))
        .collect();
    assert_eq!(frames.len(), 4);
    let s: Vec<u32> = frames.iter().map(|f| f.start_index.unwrap()).collect();
    assert!(s.windows(2).all(|w| w[0] <= w[1]));
}
