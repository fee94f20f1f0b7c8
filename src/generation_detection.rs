//! Detection on generation: a prompt and the text generated for it, checked
//! by generation detectors.

use vstd::prelude::*;
use vstd::string::*;

use crate::clients::GenerationDetectionRequest;
use crate::config::{DetectorConfig, DetectorType, OrchestratorConfig};
use crate::detector_params::{effective_threshold, DetectorParams};
use crate::detection::{filter_by_threshold, surfaced, Detection};
use crate::errors::{unsupported_text, Error};
use crate::guardrails_config::DetectorMap;

verus! {

/// A request for detection on a generation.
#[derive(Debug, Clone)]
pub struct DetectionOnGeneratedHttpRequest {
    pub prompt: String,
    pub generated_text: String,
    pub detectors: DetectorMap,
}

/// The detections on a generation.
#[derive(Debug, Clone)]
pub struct DetectionOnGenerationResult {
    pub detections: Vec<Detection>,
}

/// Name of the field that lists the detectors of a request.
pub const DETECTORS_FIELD: &'static str = "detectors";

/// What is wrong with requesting detector `id` of an endpoint that serves
/// `supported` detectors.
#[derive(Debug, Clone, Copy, PartialEq, Eq, Structural)]
pub enum DetectorProblem {
    NotFound,
    Unsupported,
}

/// What is wrong with requesting detector `id`, if anything.
pub open spec fn detector_problem(
    config: OrchestratorConfig,
    id: Seq<char>,
    supported: DetectorType,
) -> Option<DetectorProblem> {
    match config.detector(id) {
        None => Some(DetectorProblem::NotFound),
        Some(c) => if c.detector_type == supported {
            None
        } else {
            Some(DetectorProblem::Unsupported)
        },
    }
}

/// `e` is the error that reports `problem` with detector `id`.
pub open spec fn reports(e: Error, problem: DetectorProblem, id: Seq<char>) -> bool {
    match problem {
        DetectorProblem::NotFound => e is DetectorNotFound && e->DetectorNotFound_0@ == id,
        DetectorProblem::Unsupported => e is Validation && e->Validation_0@ == unsupported_text(id),
    }
}

/// Checks the detectors of a request to an endpoint that serves
/// `supported` detectors: at least one must be given, and each must be in
/// the catalog and of that category. The error reports the first detector,
/// in order, that is not.
#[verifier::rlimit(60)]
pub fn validate_detectors(
    config: &OrchestratorConfig,
    detectors: &DetectorMap,
    supported: DetectorType,
) -> (r: Result<(), Error>)
    ensures
        detectors@.len() == 0 ==> r is Err && r->Err_0 is Validation && r->Err_0->Validation_0@
            == "`"@ + DETECTORS_FIELD@ + "` is required"@,
        detectors@.len() > 0 ==> (r is Ok <==> forall|i: int|
            0 <= i < detectors@.len() ==> detector_problem(
                *config,
                (#[trigger] detectors@[i]).0@,
                supported,
            ) is None),
        detectors@.len() > 0 && r is Err ==> exists|i: int|
            0 <= i < detectors@.len() && (forall|j: int|
                0 <= j < i ==> detector_problem(*config, (#[trigger] detectors@[j]).0@, supported)
                    is None) && detector_problem(*config, (#[trigger] detectors@[i]).0@, supported)
                is Some && reports(
                r->Err_0,
                detector_problem(*config, detectors@[i].0@, supported)->0,
                detectors@[i].0@,
            ),
{
    if detectors.len() == 0 {
        let mut m = String::from_str("`");
        m.append(DETECTORS_FIELD);
        m.append("` is required");
        return Err(Error::Validation(m));
    }
    let n = detectors.len();
    let mut i: usize = 0;
    while i < n
        invariant
            n == detectors@.len(),
            i <= n,
            forall|j: int|
                0 <= j < i ==> detector_problem(*config, (#[trigger] detectors@[j]).0@, supported)
                    is None,
        decreases n - i,
    {
        let id = &detectors[i].0;
        match config.get_detector(id) {
            None => {
                return Err(Error::DetectorNotFound(id.clone()));
            },
            Some(c) => {
                if c.detector_type != supported {
                    return Err(Error::unsupported_detector(id));
                }
            },
        }
        i = i + 1;
    }
    Ok(())
}

/// The detections that surface in the answers of several detectors, each
/// with the threshold that applies to it, one detector after the other.
pub open spec fn surfaced_all(answers: Seq<(Vec<Detection>, u64)>) -> Seq<Detection>
    decreases answers.len(),
{
    if answers.len() == 0 {
        Seq::empty()
    } else {
        surfaced_all(answers.drop_last()) + surfaced(answers.last().0@, answers.last().1)
    }
}

impl DetectionOnGenerationResult {
    /// The result of a detection on generation from each detector's answer
    /// and threshold.
    pub fn from_answers(answers: Vec<(Vec<Detection>, u64)>) -> (r: Self)
        ensures
            r.detections@ == surfaced_all(answers@),
    {
        let ghost all = answers@;
        let mut detections: Vec<Detection> = Vec::new();
        for answer in it: answers.into_iter()
            invariant
                it.seq() == all,
                detections@ == surfaced_all(all.take(it.index() as int)),
        {
            let ghost k = it.index() as int;
            assert(all.take(k + 1).drop_last() =~= all.take(k));
            let (found, threshold) = answer;
            let mut kept = filter_by_threshold(found, threshold);
            detections.append(&mut kept);
        }
        assert(all.take(all.len() as int) =~= all);
        DetectionOnGenerationResult { detections }
    }
}

/// The request of a call to generation detector `detector` (the
/// parameters but the threshold) and the threshold that then applies to its
/// answer: the one given with the parameters, else the detector's default.
pub fn generation_request(
    detector: &DetectorConfig,
    prompt: &String,
    generated_text: &String,
    params: DetectorParams,
) -> (r: (GenerationDetectionRequest, u64))
    ensures
        r.1 == effective_threshold(params.threshold, detector.default_threshold),
        r.0.prompt@ == prompt@,
        r.0.generated_text@ == generated_text@,
        r.0.detector_params.threshold is None,
        r.0.detector_params.params == params.params,
{
    let mut params = params;
    let threshold = match params.pop_threshold() {
        Some(t) => t,
        None => detector.default_threshold,
    };
    (GenerationDetectionRequest::new(prompt.clone(), generated_text.clone(), params), threshold)
}

} // verus!
