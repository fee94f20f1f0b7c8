use fms_guardrails_orchestr8::chunk::Chunk;
use fms_guardrails_orchestr8::clients::{flatten_response, TextContentsRequest};
use fms_guardrails_orchestr8::config::{DetectorConfig, DetectorType, OrchestratorConfig};
use fms_guardrails_orchestr8::detection::{
    filter_by_threshold, place_detection, sort_by_start, Detection, Detections,
};
use fms_guardrails_orchestr8::detector_params::DetectorParams;
use fms_guardrails_orchestr8::errors::Error;
use fms_guardrails_orchestr8::guardrails_config::apply_masks;
use fms_guardrails_orchestr8::text_contents::{
    contents_request, detections_for_chunks, resolve_detector,
};

fn det(start: Option<usize>, end: Option<usize>, score: u64, label: &str) -> Detection {
    Detection {
        start,
        end,
        text: None,
        detector_id: None,
        detection_type: "pii".to_string(),
        detection: label.to_string(),
        score,
        evidence: vec![],
        metadata: vec![],
    }
}

fn chunk(start: usize, end: usize, text: &str) -> Chunk {
    Chunk { input_start_index: 0, input_end_index: 0, start, end, text: text.to_string() }
}

#[test]
fn threshold_keeps_scores_at_or_above() {
    let ds = vec![
        det(None, None, 499_999, "a"),
        det(None, None, 500_000, "b"),
        det(None, None, 900_000, "c"),
        det(None, None, 0, "d"),
    ];
    let kept = filter_by_threshold(ds, 500_000);
    let labels: Vec<&str> = kept.iter().map(|d| d.detection.as_str()).collect();
    assert_eq!(labels, vec!["b", "c"]);
}

#[test]
fn threshold_on_empty_answer() {
    assert!(filter_by_threshold(vec![], 1).is_empty());
}

#[test]
fn params_threshold_overrides_default() {
    let mut params = DetectorParams::new();
    params.threshold = Some(800_000);
    params.params.push(("lang".to_string(), "\"en\"".to_string()));
    let chunks = vec![chunk(0, 5, "hello"), chunk(6, 11, "world")];
    let (request, threshold) = contents_request(&chunks, params, 500_000);
    assert_eq!(threshold, 800_000);
    assert_eq!(request.contents, vec!["hello".to_string(), "world".to_string()]);
    assert_eq!(request.detector_params.threshold, None);
    assert_eq!(request.detector_params.params.len(), 1);
}

#[test]
fn default_threshold_applies_without_params_threshold() {
    let chunks = vec![chunk(0, 5, "hello")];
    let (_, threshold) = contents_request(&chunks, DetectorParams::new(), 500_000);
    assert_eq!(threshold, 500_000);
    let request = TextContentsRequest::new(vec![], DetectorParams::new());
    assert!(request.contents.is_empty());
}

#[test]
fn detections_are_placed_in_their_region() {
    // region at offset 10: "hello world", chunks "hello" (0..5) and "world" (6..11)
    let chunks = vec![chunk(0, 5, "hello"), chunk(6, 11, "world")];
    let response = vec![
        vec![det(Some(1), Some(3), 900_000, "x"), det(Some(0), Some(5), 100_000, "low")],
        vec![det(Some(0), Some(5), 700_000, "y")],
    ];
    let id = "pii_detector".to_string();
    let r = detections_for_chunks(&chunks, response, 500_000, 10, &id);
    assert_eq!(r.len(), 2);
    assert_eq!((r[0].start, r[0].end), (Some(11), Some(13)));
    assert_eq!((r[1].start, r[1].end), (Some(16), Some(21)));
    for d in &r {
        assert_eq!(d.detector_id.as_deref(), Some("pii_detector"));
        let (s, e) = (d.start.unwrap(), d.end.unwrap());
        assert!(s >= 10 && e <= 10 + 11);
    }
}

#[test]
fn detections_pair_answers_with_chunks() {
    // more answers than chunks: the extra answer has no chunk and is left out
    let chunks = vec![chunk(0, 3, "abc")];
    let response = vec![vec![det(Some(0), Some(1), 600_000, "a")], vec![det(Some(0), Some(1), 600_000, "b")]];
    let id = "d".to_string();
    let r = detections_for_chunks(&chunks, response, 0, 0, &id);
    assert_eq!(r.len(), 1);
    assert_eq!(r[0].detection, "a");
}

#[test]
fn placement_saturates_and_keeps_missing_spans() {
    let id = "d".to_string();
    let p = place_detection(det(None, Some(usize::MAX - 1), 1, "a"), 5, &id);
    assert_eq!(p.start, None);
    assert_eq!(p.end, Some(usize::MAX));
    assert_eq!(p.detector_id.as_deref(), Some("d"));
}

#[test]
fn sort_by_start_puts_missing_last_and_is_stable() {
    let ds = vec![
        det(None, None, 1, "none1"),
        det(Some(5), None, 1, "five_a"),
        det(Some(2), None, 1, "two"),
        det(Some(5), None, 1, "five_b"),
        det(None, None, 1, "none2"),
    ];
    let sorted = sort_by_start(ds);
    let labels: Vec<&str> = sorted.iter().map(|d| d.detection.as_str()).collect();
    assert_eq!(labels, vec!["two", "five_a", "five_b", "none1", "none2"]);
}

#[test]
fn flatten_keeps_document_order() {
    let r = flatten_response(vec![
        vec![det(None, None, 1, "a"), det(None, None, 1, "b")],
        vec![],
        vec![det(None, None, 1, "c")],
    ]);
    let labels: Vec<&str> = r.iter().map(|d| d.detection.as_str()).collect();
    assert_eq!(labels, vec!["a", "b", "c"]);
}

#[test]
fn detections_wrapper() {
    let mut d = Detections::new();
    assert!(d.is_empty());
    d = Detections::from_vec(vec![det(None, None, 1, "a")]);
    assert_eq!(d.len(), 1);
    assert_eq!(d.into_vec().len(), 1);
}

#[test]
fn masks_select_regions() {
    let masks = vec![(0usize, 5usize), (6, 11), (9, 40)];
    let r = apply_masks("hello world".to_string(), Some(&masks));
    assert_eq!(
        r,
        vec![(0, "hello".to_string()), (6, "world".to_string()), (9, "ld".to_string())]
    );
}

#[test]
fn masks_count_characters() {
    let masks = vec![(1usize, 3usize)];
    let r = apply_masks("héllo".to_string(), Some(&masks));
    assert_eq!(r, vec![(1, "él".to_string())]);
}

#[test]
fn no_masks_is_whole_input() {
    assert_eq!(apply_masks("abc".to_string(), None), vec![(0, "abc".to_string())]);
    let empty: Vec<(usize, usize)> = vec![];
    assert_eq!(apply_masks("abc".to_string(), Some(&empty)), vec![(0, "abc".to_string())]);
    let past = vec![(7usize, 9usize)];
    assert_eq!(apply_masks("abc".to_string(), Some(&past)), vec![(7, String::new())]);
}

#[test]
fn unknown_detector_is_not_found() {
    let config = OrchestratorConfig {
        detectors: vec![(
            "hap".to_string(),
            DetectorConfig {
                detector_type: DetectorType::TextContents,
                chunker_id: "sentence".to_string(),
                default_threshold: 500_000,
            },
        )],
    };
    assert!(resolve_detector(&config, &"hap".to_string()).is_ok());
    match resolve_detector(&config, &"nope".to_string()) {
        Err(Error::DetectorNotFound(id)) => assert_eq!(id, "nope"),
        other => panic!("unexpected {other:?}"),
    }
}
