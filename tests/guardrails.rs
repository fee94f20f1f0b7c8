use fms_guardrails_orchestr8::classification::{
    next_state, input_detection_response, input_detection_stream_response, input_regions, output_batcher,
    output_text, streaming_route, with_output_detections, ClassificationWithGenTask,
    GuardrailsHttpRequest, StreamingClassificationWithGenTask, StreamingState,
};
use fms_guardrails_orchestr8::clients::{
    DetectorClient, DetectorError, TextChatDetectorClient, TextContentsDetectorClient,
    TextContextDocDetectorClient, TextGenerationDetectorClient,
};
use fms_guardrails_orchestr8::config::{DetectorConfig, DetectorType};
use fms_guardrails_orchestr8::detection::Detection;
use fms_guardrails_orchestr8::generation_detection::generation_request;
use fms_guardrails_orchestr8::detection_warning::{
    DetectionWarning, DetectionWarningReason, UNSUITABLE_INPUT_MESSAGE, UNSUITABLE_OUTPUT_MESSAGE,
};
use fms_guardrails_orchestr8::detector_params::DetectorParams;
use fms_guardrails_orchestr8::errors::{
    error_response, grpc_to_http_code, ClientError, Error, GrpcCode, ValidationError,
};
use fms_guardrails_orchestr8::guardrails_config::{
    GuardrailsConfig, GuardrailsConfigInput, GuardrailsConfigOutput,
};
use fms_guardrails_orchestr8::text_generation::{
    BatchedGenerationResponse, ClassifiedGeneratedTextResult, ClassifiedGeneratedTextStreamResult,
    FinishReason, GeneratedToken, GenerationResponse,
};

fn det(label: &str) -> Detection {
    Detection {
        start: Some(0),
        end: Some(2),
        text: Some("hi".to_string()),
        detector_id: Some("d".to_string()),
        detection_type: "t".to_string(),
        detection: label.to_string(),
        score: 900_000,
        evidence: vec![],
        metadata: vec![],
    }
}

fn models(ids: &[&str]) -> Vec<(String, DetectorParams)> {
    ids.iter().map(|id| (id.to_string(), DetectorParams::new())).collect()
}

fn config(input: &[&str], masks: Option<Vec<(usize, usize)>>, output: &[&str]) -> GuardrailsConfig {
    GuardrailsConfig {
        input: Some(GuardrailsConfigInput { models: models(input), masks }),
        output: Some(GuardrailsConfigOutput { models: models(output) }),
    }
}

#[test]
fn input_detections_short_circuit_without_generation() {
    let r = input_detection_response(vec![det("x")], 11).unwrap();
    assert!(r.generated_text.is_none());
    assert!(r.tokens.is_none());
    assert!(r.seed.is_none() && r.input_tokens.is_none());
    assert_eq!(r.input_token_count, 11);
    assert_eq!(r.token_classification_results.input.as_ref().unwrap().len(), 1);
    let w = r.warnings.unwrap();
    assert_eq!(w.len(), 1);
    assert_eq!(w[0].id, Some(DetectionWarningReason::UnsuitableInput));
    assert!(input_detection_response(vec![], 11).is_none());
}

#[test]
fn streaming_short_circuit_is_a_single_frame() {
    let cfg = config(&["pii"], None, &["hap"]);
    let surfaced = vec![det("x")];
    assert_eq!(streaming_route(&surfaced, &cfg), StreamingState::ShortCircuitInput);
    let f = input_detection_stream_response(surfaced, 4).unwrap();
    assert!(f.generated_text.is_none());
    assert!(f.seed.is_none() && f.finish_reason.is_none() && f.input_tokens.is_none());
    assert!(f.token_classification_results.input.is_some());
    let w = f.warnings.unwrap();
    assert_eq!(w.len(), 1);
    assert_eq!(w[0].id, Some(DetectionWarningReason::UnsuitableInput));
}

#[test]
fn streaming_routes() {
    let none: Vec<Detection> = vec![];
    assert_eq!(streaming_route(&none, &config(&[], None, &[])), StreamingState::GeneratingNoOutputDetectors);
    assert_eq!(streaming_route(&none, &config(&[], None, &["hap"])), StreamingState::GeneratingWithOutputDetectors);
    assert!(output_batcher(&config(&[], None, &["hap"])).is_none());
    let b = output_batcher(&config(&[], None, &["hap", "pii"])).unwrap();
    assert_eq!(b.n_detectors, 2);
}

#[test]
fn output_detections_annotate_generation() {
    let mut g = ClassifiedGeneratedTextResult::default();
    g.generated_text = Some("text".to_string());
    let same = with_output_detections(g.clone(), vec![]);
    assert!(same.warnings.is_none());
    let flagged = with_output_detections(g, vec![det("x")]);
    assert_eq!(flagged.generated_text.as_deref(), Some("text"));
    assert_eq!(flagged.token_classification_results.output.as_ref().unwrap().len(), 1);
    let w = flagged.warnings.unwrap();
    assert_eq!(w[0].id, Some(DetectionWarningReason::UnsuitableOutput));
    assert_eq!(w[0].message.as_deref(), Some(UNSUITABLE_OUTPUT_MESSAGE));
}

#[test]
fn regions_and_output_text_follow_config() {
    let inputs = "hello world".to_string();
    let cfg = config(&["pii"], Some(vec![(6, 11)]), &[]);
    assert_eq!(input_regions(&cfg, &inputs), Some(vec![(6, "world".to_string())]));
    assert_eq!(input_regions(&config(&[], None, &[]), &inputs), None);
    let g = ClassifiedGeneratedTextResult::default();
    assert_eq!(output_text(&cfg, &g), None);
    assert_eq!(output_text(&config(&[], None, &["hap"]), &g), Some(String::new()));
}

#[test]
fn tasks_take_request_fields() {
    let request = GuardrailsHttpRequest {
        model_id: "m".to_string(),
        inputs: "in".to_string(),
        guardrail_config: None,
        text_gen_parameters: None,
    };
    let t = ClassificationWithGenTask::new(7, request.clone(), vec![("a".to_string(), "b".to_string())]);
    assert_eq!((t.trace_id, t.model_id.as_str(), t.inputs.as_str()), (7, "m", "in"));
    assert!(t.guardrails_config.input.is_none() && t.guardrails_config.output.is_none());
    let s = StreamingClassificationWithGenTask::new(8, request, vec![]);
    assert_eq!(s.trace_id, 8);
}

#[test]
fn warnings_carry_messages() {
    let w = DetectionWarning::unsuitable_input();
    assert_eq!(w.message.as_deref(), Some(UNSUITABLE_INPUT_MESSAGE));
    let w = DetectionWarning::unsuitable_output();
    assert_eq!(w.message.as_deref(), Some("Unsuitable output detected."));
}

#[test]
fn grpc_codes_map_to_http() {
    let table = [
        (GrpcCode::InvalidArgument, 400),
        (GrpcCode::NotFound, 404),
        (GrpcCode::DeadlineExceeded, 408),
        (GrpcCode::Unauthenticated, 401),
        (GrpcCode::PermissionDenied, 403),
        (GrpcCode::Unavailable, 503),
        (GrpcCode::Unimplemented, 501),
        (GrpcCode::Internal, 500),
        (GrpcCode::DataLoss, 500),
        (GrpcCode::Success, 500),
    ];
    for (code, status) in table {
        assert_eq!(grpc_to_http_code(code), status, "{code:?}");
    }
    let e = ClientError::from_grpc(GrpcCode::NotFound, "gone".to_string());
    assert_eq!(e.status_code(), 404);
}

#[test]
fn error_texts_and_responses() {
    let e = Error::DetectorRequestFailed {
        id: "pii".to_string(),
        error: ClientError::Http { code: 404, message: "no model".to_string() },
    };
    let r = error_response(&e);
    assert_eq!(r.code, 404);
    assert_eq!(r.details, "detector request failed for `pii`: no model");
    let r = error_response(&Error::Client(ClientError::ModelNotFound { model_id: "m".to_string() }));
    assert_eq!((r.code, r.details.as_str()), (404, "model not found: m"));
    let r = error_response(&Error::Cancelled);
    assert_eq!((r.code, r.details.as_str()), (500, "unexpected error occurred while processing request"));
    let r = error_response(&Error::ChunkerNotFound("c".to_string()));
    assert_eq!((r.code, r.details.as_str()), (404, "chunker `c` not found"));
    let v = Error::from_validation(ValidationError::Required("prompt".to_string()));
    assert_eq!(v.message(), "validation error: `prompt` is required");
    assert_eq!(error_response(&v).details, "`prompt` is required");
    assert!(matches!(Error::from_join(true, "x".to_string()), Error::Cancelled));
    match Error::from_join(false, "boom".to_string()) {
        Error::Other(m) => assert_eq!(m, "task panicked: boom"),
        other => panic!("unexpected {other:?}"),
    }
}

#[test]
fn detector_headers_and_failures() {
    let headers = DetectorClient::request_headers(&"pii".to_string(), vec![("x-a".to_string(), "1".to_string())]);
    let pairs: Vec<(&str, &str)> = headers.iter().map(|(k, v)| (k.as_str(), v.as_str())).collect();
    assert_eq!(
        pairs,
        vec![("x-a", "1"), ("detector-id", "pii"), ("content-type", "application/json"), ("x-model-name", "pii")]
    );
    match DetectorClient::failure(503, None) {
        ClientError::Http { code, message } => assert_eq!((code, message.as_str()), (503, "unknown error occurred")),
        other => panic!("unexpected {other:?}"),
    }
    let body = DetectorError { code: 500, message: "The detector is overloaded.".to_string() };
    match DetectorClient::failure(500, Some(body.clone())) {
        ClientError::Http { message, .. } => assert_eq!(message, "The detector is overloaded."),
        other => panic!("unexpected {other:?}"),
    }
    assert!(matches!(body.into_client_error(), ClientError::Http { code: 500, .. }));
}

#[test]
fn detector_endpoints() {
    let c = DetectorClient::new("http://d:8080".to_string(), Some("http://h:9090".to_string()));
    let contents = TextContentsDetectorClient::new(c.clone());
    assert_eq!(contents.url(), "http://d:8080/api/v1/text/contents");
    assert_eq!(contents.client().health_endpoint("/health"), "http://h:9090/health");
    assert_eq!(TextChatDetectorClient(c.clone()).url(), "http://d:8080/api/v1/text/chat");
    assert_eq!(TextContextDocDetectorClient(c.clone()).url(), "http://d:8080/api/v1/text/context/doc");
    assert_eq!(TextGenerationDetectorClient(c).url(), "http://d:8080/api/v1/text/generation");
    let plain = DetectorClient::new("http://d".to_string(), None);
    assert_eq!(plain.health_endpoint("/health"), "http://d/health");
}

fn gen(text: &str, tokens: usize) -> GenerationResponse {
    GenerationResponse {
        text: text.to_string(),
        stop_reason: FinishReason::MaxTokens,
        generated_token_count: 3,
        seed: (1u64 << 32) + 5,
        input_token_count: 2,
        tokens: (0..tokens).map(|i| GeneratedToken { text: i.to_string(), logprob: Some(-1), rank: Some(1) }).collect(),
        input_tokens: vec![],
    }
}

#[test]
fn generation_responses_become_results() {
    let r = ClassifiedGeneratedTextResult::from_batched(BatchedGenerationResponse { responses: vec![gen("a", 2), gen("b", 0)] });
    assert_eq!(r.generated_text.as_deref(), Some("a"));
    assert_eq!(r.seed, Some(5));
    assert_eq!(r.tokens.as_ref().map(|t| t.len()), Some(2));
    assert!(r.input_tokens.is_none());
    let f = ClassifiedGeneratedTextStreamResult::from_generation(gen("b", 0));
    assert_eq!(f.start_index, Some(0));
    assert!(f.tokens.is_none());
    assert_eq!(f.finish_reason, Some(FinishReason::MaxTokens));
}

#[test]
fn pop_threshold_takes_it_out() {
    let mut p = DetectorParams::new();
    p.threshold = Some(3);
    assert_eq!(p.pop_threshold(), Some(3));
    assert_eq!(p.pop_threshold(), None);
}

#[test]
fn streaming_state_machine() {
    assert_eq!(next_state(StreamingState::AwaitingInputDecision, true, true, false), StreamingState::ShortCircuitInput);
    assert_eq!(next_state(StreamingState::AwaitingInputDecision, false, false, false), StreamingState::GeneratingNoOutputDetectors);
    assert_eq!(next_state(StreamingState::AwaitingInputDecision, false, true, false), StreamingState::GeneratingWithOutputDetectors);
    assert_eq!(next_state(StreamingState::ShortCircuitInput, false, false, false), StreamingState::Terminal);
    assert_eq!(next_state(StreamingState::GeneratingWithOutputDetectors, false, true, false), StreamingState::GeneratingWithOutputDetectors);
    assert_eq!(next_state(StreamingState::GeneratingWithOutputDetectors, false, true, true), StreamingState::Terminal);
    assert_eq!(next_state(StreamingState::Terminal, true, true, true), StreamingState::Terminal);
}

#[test]
fn generation_request_applies_threshold() {
    let detector = DetectorConfig {
        detector_type: DetectorType::TextGeneration,
        chunker_id: "whole".to_string(),
        default_threshold: 500_000,
    };
    let mut params = DetectorParams::new();
    params.threshold = Some(700_000);
    let (body, threshold) = generation_request(&detector, &"p".to_string(), &"g".to_string(), params);
    assert_eq!(threshold, 700_000);
    assert_eq!((body.prompt.as_str(), body.generated_text.as_str()), ("p", "g"));
    assert!(body.detector_params.threshold.is_none());
    let (_, threshold) = generation_request(&detector, &"p".to_string(), &"g".to_string(), DetectorParams::new());
    assert_eq!(threshold, 500_000);
}
