use fms_guardrails_orchestr8::chat::{
    chat_detection_calls, chat_detections, chunker_ids, input_detection_completion, choice_messages, call_result, group_chunks,
    input_detections_completion, message_texts, output_detections_completion, request_messages,
    short_circuit_completion, sort_detections, ChatCompletion, ChatCompletionChoice,
    ChatCompletionMessage, ChatMessageInternal, Content, DetectionResult, Message, Role,
};
use fms_guardrails_orchestr8::chunk::Chunk;
use fms_guardrails_orchestr8::config::{DetectorConfig, DetectorType, OrchestratorConfig};
use fms_guardrails_orchestr8::detection::Detection;
use fms_guardrails_orchestr8::detection_warning::{
    DetectionWarningReason, UNSUITABLE_INPUT_MESSAGE, UNSUITABLE_OUTPUT_MESSAGE,
};
use fms_guardrails_orchestr8::detector_params::DetectorParams;
use fms_guardrails_orchestr8::errors::Error;

fn det(start: Option<usize>, label: &str) -> Detection {
    Detection {
        start,
        end: start.map(|s| s + 1),
        text: None,
        detector_id: None,
        detection_type: "pii".to_string(),
        detection: label.to_string(),
        score: 900_000,
        evidence: vec![],
        metadata: vec![],
    }
}

fn labels(ds: &[Detection]) -> Vec<&str> {
    ds.iter().map(|d| d.detection.as_str()).collect()
}

fn chunk(start: usize, end: usize, text: &str) -> Chunk {
    Chunk { input_start_index: 0, input_end_index: 0, start, end, text: text.to_string() }
}

fn catalog() -> OrchestratorConfig {
    let cfg = |t: DetectorType, chunker: &str| DetectorConfig {
        detector_type: t,
        chunker_id: chunker.to_string(),
        default_threshold: 500_000,
    };
    OrchestratorConfig {
        detectors: vec![
            ("pii".to_string(), cfg(DetectorType::TextContents, "sentence")),
            ("hap".to_string(), cfg(DetectorType::TextContents, "whole")),
            ("chatty".to_string(), cfg(DetectorType::TextChat, "sentence")),
            ("orphan".to_string(), cfg(DetectorType::TextContents, "missing")),
        ],
    }
}

#[test]
fn detections_sorted_by_message_then_start() {
    let results = vec![
        DetectionResult { index: 2, results: vec![det(Some(4), "c2"), det(None, "c_none"), det(Some(1), "c1")] },
        DetectionResult { index: 0, results: vec![det(Some(9), "a9"), det(Some(3), "a3")] },
        DetectionResult { index: 2, results: vec![det(Some(0), "d0")] },
    ];
    let sorted = sort_detections(results);
    let indexes: Vec<usize> = sorted.iter().map(|r| r.index).collect();
    assert_eq!(indexes, vec![0, 2, 2]);
    assert_eq!(labels(&sorted[0].results), vec!["a3", "a9"]);
    assert_eq!(labels(&sorted[1].results), vec!["c1", "c2", "c_none"]);
    assert_eq!(labels(&sorted[2].results), vec!["d0"]);
}

#[test]
fn empty_results_are_dropped() {
    let results = vec![
        DetectionResult { index: 1, results: vec![] },
        DetectionResult { index: 0, results: vec![det(Some(2), "x")] },
    ];
    let r = chat_detections(results);
    assert_eq!(r.len(), 1);
    assert_eq!(r[0].index, 0);
    assert!(chat_detections(vec![]).is_empty());
}

#[test]
fn request_messages_are_numbered() {
    let msgs = vec![
        Message { role: Role::System, content: Some(Content::Text("be nice".to_string())), refusal: None },
        Message { role: Role::User, content: Some(Content::Text("hi".to_string())), refusal: None },
    ];
    let r = request_messages(msgs);
    assert_eq!(r.iter().map(|m| m.message_index).collect::<Vec<_>>(), vec![0, 1]);
    assert_eq!(r[1].role, Role::User);
}

#[test]
fn choice_messages_default_to_empty_text() {
    let choices = vec![ChatCompletionChoice {
        index: 3,
        message: ChatCompletionMessage { role: Role::Assistant, content: None, refusal: None },
        finish_reason: "stop".to_string(),
    }];
    let r = choice_messages(choices);
    assert_eq!(r[0].message_index, 3);
    match &r[0].content {
        Some(Content::Text(t)) => assert!(t.is_empty()),
        other => panic!("unexpected {other:?}"),
    }
}

#[test]
fn non_text_content_is_a_validation_error() {
    let msgs = vec![
        ChatMessageInternal { message_index: 0, role: Role::User, content: Some(Content::Text("a".to_string())), refusal: None },
        ChatMessageInternal { message_index: 1, role: Role::User, content: Some(Content::Array(vec!["{}".to_string()])), refusal: None },
    ];
    assert!(matches!(message_texts(&msgs), Err(Error::Validation(_))));
    let ok = message_texts(&msgs[..1].to_vec()).unwrap();
    assert_eq!(ok, vec![(0, "a".to_string())]);
}

#[test]
fn calls_per_detector_and_message() {
    let groups = vec![
        ("sentence".to_string(), vec![(0usize, vec![chunk(0, 2, "hi")]), (1, vec![chunk(0, 3, "bye")])]),
        ("whole".to_string(), vec![(0usize, vec![chunk(0, 2, "hi")])]),
    ];
    let mut p = DetectorParams::new();
    p.threshold = Some(100);
    let detectors = vec![("pii".to_string(), p), ("hap".to_string(), DetectorParams::new())];
    let calls = chat_detection_calls(&catalog(), &detectors, &groups).unwrap();
    let summary: Vec<(&str, usize, Option<u64>)> = calls
        .iter()
        .map(|c| (c.detector_id.as_str(), c.message_index, c.params.threshold))
        .collect();
    assert_eq!(summary, vec![("pii", 0, Some(100)), ("pii", 1, Some(100)), ("hap", 0, None)]);
    assert_eq!(calls[1].chunks[0].text, "bye");
    assert_eq!(calls[2].default_threshold, 500_000);
}

#[test]
fn calls_stop_at_first_bad_detector() {
    let groups = vec![("sentence".to_string(), vec![(0usize, vec![chunk(0, 2, "hi")])])];
    let d = |id: &str| vec![(id.to_string(), DetectorParams::new())];
    assert!(matches!(chat_detection_calls(&catalog(), &d("nope"), &groups), Err(Error::DetectorNotFound(id)) if id == "nope"));
    assert!(chat_detection_calls(&catalog(), &d("orphan"), &groups).unwrap().is_empty());
    match chat_detection_calls(&catalog(), &d("chatty"), &groups) {
        Err(Error::Validation(m)) => assert_eq!(m, "detector `chatty` is not supported by this endpoint"),
        other => panic!("unexpected {other:?}"),
    }
}

#[test]
fn call_result_uses_effective_threshold() {
    let mut params = DetectorParams::new();
    params.threshold = Some(950_000);
    let call = fms_guardrails_orchestr8::chat::ContentDetectionCall {
        detector_id: "pii".to_string(),
        message_index: 4,
        chunks: vec![chunk(3, 6, "abc")],
        params,
        default_threshold: 500_000,
    };
    let mut high = det(Some(0), "high");
    high.score = 960_000;
    let r = call_result(call, vec![vec![det(Some(1), "mid"), high]]);
    assert_eq!(r.index, 4);
    assert_eq!(labels(&r.results), vec!["high"]);
    assert_eq!(r.results[0].start, Some(3));
}

#[test]
fn grouping_by_chunker_keeps_order() {
    let results = vec![
        ("s".to_string(), (0usize, vec![chunk(0, 1, "a")])),
        ("w".to_string(), (0usize, vec![chunk(0, 1, "a")])),
        ("s".to_string(), (1usize, vec![chunk(0, 1, "b")])),
    ];
    let g = group_chunks(results);
    assert_eq!(g.len(), 2);
    assert_eq!(g[0].0, "s");
    assert_eq!(g[0].1.iter().map(|e| e.0).collect::<Vec<_>>(), vec![0, 1]);
    assert_eq!(g[1].0, "w");
    assert_eq!(g[1].1.len(), 1);
}

#[test]
fn input_detections_replace_choices() {
    let ds = vec![DetectionResult { index: 0, results: vec![det(Some(0), "x")] }];
    let c = input_detections_completion("id1".to_string(), 17, "m".to_string(), ds);
    assert!(c.choices.is_empty());
    assert_eq!(c.created, 17);
    let d = c.detections.unwrap();
    assert_eq!(d.input.len(), 1);
    assert!(d.output.is_empty());
    assert_eq!(c.warnings.len(), 1);
    assert_eq!(c.warnings[0].warning_type, DetectionWarningReason::UnsuitableInput);
    assert_eq!(c.warnings[0].message, UNSUITABLE_INPUT_MESSAGE);
}

#[test]
fn short_circuit_completion_gets_fresh_id() {
    let ds = vec![DetectionResult { index: 0, results: vec![det(Some(0), "x")] }];
    let c = short_circuit_completion("m".to_string(), ds, 5);
    assert_eq!(c.id.len(), 32);
    assert!(c.id.chars().all(|ch| ch.is_ascii_digit() || ('a'..='f').contains(&ch)));
    let ds = vec![DetectionResult { index: 0, results: vec![det(Some(0), "x")] }];
    let c2 = short_circuit_completion("m".to_string(), ds, 5);
    assert_ne!(c.id, c2.id);
}

#[test]
fn output_detections_replace_choices_only_when_present() {
    let completion = || ChatCompletion {
        id: "c".to_string(),
        created: 1,
        model: "m".to_string(),
        choices: vec![ChatCompletionChoice {
            index: 0,
            message: ChatCompletionMessage { role: Role::Assistant, content: Some("hi".to_string()), refusal: None },
            finish_reason: "stop".to_string(),
        }],
        detections: None,
        warnings: vec![],
    };
    let same = output_detections_completion(completion(), vec![]);
    assert_eq!(same.choices.len(), 1);
    assert!(same.detections.is_none());
    let flagged = output_detections_completion(
        completion(),
        vec![DetectionResult { index: 0, results: vec![det(Some(0), "x")] }],
    );
    assert!(flagged.choices.is_empty());
    assert_eq!(flagged.detections.as_ref().unwrap().output.len(), 1);
    assert_eq!(flagged.warnings[0].warning_type, DetectionWarningReason::UnsuitableOutput);
    assert_eq!(flagged.warnings[0].message, UNSUITABLE_OUTPUT_MESSAGE);
}

#[test]
fn ordering_is_deterministic() {
    let make = || {
        vec![
            DetectionResult { index: 1, results: vec![det(Some(2), "p"), det(Some(2), "q")] },
            DetectionResult { index: 1, results: vec![det(None, "r")] },
            DetectionResult { index: 0, results: vec![det(Some(2), "s")] },
        ]
    };
    let a = sort_detections(make());
    let b = sort_detections(make());
    let flat = |v: &Vec<DetectionResult>| -> Vec<(usize, Vec<String>)> {
        v.iter().map(|r| (r.index, r.results.iter().map(|d| d.detection.clone()).collect())).collect()
    };
    assert_eq!(flat(&a), flat(&b));
    assert_eq!(flat(&a)[1], (1, vec!["p".to_string(), "q".to_string()]));
}

#[test]
fn no_messages_means_no_calls() {
    let detectors = vec![("pii".to_string(), DetectorParams::new())];
    let groups = group_chunks(vec![]);
    assert!(groups.is_empty());
    assert!(chat_detection_calls(&catalog(), &detectors, &groups).unwrap().is_empty());
}

#[test]
fn chunker_ids_once_each_in_order() {
    let d = |ids: &[&str]| -> Vec<(String, DetectorParams)> {
        ids.iter().map(|i| (i.to_string(), DetectorParams::new())).collect()
    };
    assert_eq!(chunker_ids(&catalog(), &d(&["pii", "hap", "chatty"])).unwrap(), vec!["sentence".to_string(), "whole".to_string()]);
    assert!(matches!(chunker_ids(&catalog(), &d(&["hap", "nope"])), Err(Error::DetectorNotFound(id)) if id == "nope"));
}

#[test]
fn input_completion_only_when_detections() {
    assert!(input_detection_completion("m".to_string(), vec![], 1).is_none());
    let ds = vec![DetectionResult { index: 0, results: vec![det(Some(0), "x")] }];
    let c = input_detection_completion("m".to_string(), ds, 1).unwrap();
    assert!(c.choices.is_empty());
    assert_eq!(c.id.len(), 32);
}
