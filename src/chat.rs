//! Chat-completions detection: messages, detection results per message and
//! their order, and the responses that detections lead to.

use vstd::prelude::*;

use crate::detection::{by_start, sort_by_start, Detection};
use crate::detection_warning::{
    DetectionWarningReason, UNSUITABLE_INPUT_MESSAGE, UNSUITABLE_OUTPUT_MESSAGE,
};
use crate::errors::{unsupported_text, Error};
use crate::chunk::Chunk;
use crate::config::{first_index_of, first_position, DetectorType, OrchestratorConfig};
use crate::detector_params::{effective_threshold, DetectorParams};
use crate::guardrails_config::DetectorMap;
use crate::text_contents::{chunk_detections, detections_for_chunks};
use crate::sorting::{lemma_insert_at, lemma_sort_sorted, sort_by, sorted_by};
use vstd::string::*;

verus! {

/// The role of a message's author.
#[derive(Debug, Clone, Copy, PartialEq, Eq, Structural)]
pub enum Role {
    System,
    User,
    Assistant,
    Tool,
}

/// The content of a message: text, or a list of parts (text and other
/// media), each as its JSON encoding.
#[derive(Debug, Clone)]
pub enum Content {
    Text(String),
    Array(Vec<String>),
}

/// A chat message.
#[derive(Debug, Clone)]
pub struct Message {
    /// The role of the messages author.
    pub role: Role,
    /// The contents of the message.
    pub content: Option<Content>,
    /// The refusal message by the assistant.
    pub refusal: Option<String>,
}

/// Detections on the message at `index`.
#[derive(Debug, Clone)]
pub struct DetectionResult {
    pub index: usize,
    pub results: Vec<Detection>,
}

/// A request to a detector of one of the categories that chat detection
/// can call.
pub enum DetectorRequest {
    ContentAnalysisRequest(crate::clients::TextContentsRequest),
    ChatDetectionRequest(crate::clients::ChatDetectionRequest),
}

/// Internal structure to capture chat messages (both request and response)
/// and prepare them for processing.
#[derive(Debug, Clone)]
pub struct ChatMessageInternal {
    /// Index of the message
    pub message_index: usize,
    /// The role of the messages author.
    pub role: Role,
    /// The contents of the message.
    pub content: Option<Content>,
    /// The refusal message by the assistant.
    pub refusal: Option<String>,
}

/// A message of a chat completion.
#[derive(Debug, Clone)]
pub struct ChatCompletionMessage {
    pub role: Role,
    pub content: Option<String>,
    pub refusal: Option<String>,
}

/// A choice of a chat completion.
#[derive(Debug, Clone)]
pub struct ChatCompletionChoice {
    pub index: usize,
    pub message: ChatCompletionMessage,
    pub finish_reason: String,
}

/// Detections on the input and on the output of a chat completion.
#[derive(Debug, Clone)]
pub struct ChatDetections {
    pub input: Vec<DetectionResult>,
    pub output: Vec<DetectionResult>,
}

/// A warning of the orchestrator on a chat completion.
#[derive(Debug, Clone)]
pub struct OrchestratorWarning {
    pub warning_type: DetectionWarningReason,
    pub message: String,
}

/// A chat completion, with the orchestrator's detections and warnings.
#[derive(Debug, Clone)]
pub struct ChatCompletion {
    pub id: String,
    pub created: i64,
    pub model: String,
    pub choices: Vec<ChatCompletionChoice>,
    pub detections: Option<ChatDetections>,
    pub warnings: Vec<OrchestratorWarning>,
}

/// The messages of a request, each with its position.
pub fn request_messages(messages: Vec<Message>) -> (r: Vec<ChatMessageInternal>)
    ensures
        r@.len() == messages@.len(),
        forall|i: int|
            0 <= i < r@.len() ==> {
                &&& (#[trigger] r@[i]).message_index == i
                &&& r@[i].role == messages@[i].role
                &&& r@[i].content == messages@[i].content
                &&& r@[i].refusal == messages@[i].refusal
            },
{
    let ghost all = messages@;
    let mut r: Vec<ChatMessageInternal> = Vec::new();
    let total = messages.len();
    let mut i: usize = 0;
    for m in it: messages.into_iter()
        invariant
            it.seq() == all,
            i == it.index(),
            r@.len() == i,
            all.len() == total,
            forall|j: int|
                0 <= j < i ==> {
                    &&& (#[trigger] r@[j]).message_index == j
                    &&& r@[j].role == all[j].role
                    &&& r@[j].content == all[j].content
                    &&& r@[j].refusal == all[j].refusal
                },
    {
        r.push(ChatMessageInternal { message_index: i, role: m.role, content: m.content, refusal: m.refusal });
        i = i + 1;
    }
    r
}

/// The messages of a completion's choices, each at its choice's index, its
/// text content taken as empty where it has none.
pub fn choice_messages(choices: Vec<ChatCompletionChoice>) -> (r: Vec<ChatMessageInternal>)
    ensures
        r@.len() == choices@.len(),
        forall|i: int|
            0 <= i < r@.len() ==> {
                &&& (#[trigger] r@[i]).message_index == choices@[i].index
                &&& r@[i].role == choices@[i].message.role
                &&& r@[i].content is Some
                &&& r@[i].content->0 is Text
                &&& r@[i].content->0->Text_0@ == match choices@[i].message.content {
                    Some(c) => c@,
                    None => Seq::<char>::empty(),
                }
                &&& r@[i].refusal == choices@[i].message.refusal
            },
{
    let ghost all = choices@;
    let mut r: Vec<ChatMessageInternal> = Vec::new();
    for c in it: choices.into_iter()
        invariant
            it.seq() == all,
            r@.len() == it.index(),
            forall|j: int|
                0 <= j < r@.len() ==> {
                    &&& (#[trigger] r@[j]).message_index == all[j].index
                    &&& r@[j].role == all[j].message.role
                    &&& r@[j].content is Some
                    &&& r@[j].content->0 is Text
                    &&& r@[j].content->0->Text_0@ == match all[j].message.content {
                        Some(c) => c@,
                        None => Seq::<char>::empty(),
                    }
                    &&& r@[j].refusal == all[j].message.refusal
                },
    {
        let text = match c.message.content {
            Some(t) => t,
            None => String::new(),
        };
        r.push(ChatMessageInternal {
            message_index: c.index,
            role: c.message.role,
            content: Some(Content::Text(text)),
            refusal: c.message.refusal,
        });
    }
    r
}

/// Text of a message that detection can run on.
pub open spec fn text_of(m: ChatMessageInternal) -> Option<String> {
    match m.content {
        Some(Content::Text(t)) => Some(t),
        _ => None,
    }
}

/// Message of the error for a message without text content.
pub const TEXT_CONTENT_ONLY_MESSAGE: &'static str = "only text content is supported for detection";

/// The text of each message with the message's index; a `Validation` error
/// where any message has no text content.
pub fn message_texts(messages: &Vec<ChatMessageInternal>) -> (r: Result<Vec<(usize, String)>, Error>)
    ensures
        (forall|i: int| 0 <= i < messages@.len() ==> (#[trigger] text_of(messages@[i])) is Some)
            <==> r is Ok,
        r is Err ==> r->Err_0 is Validation && r->Err_0->Validation_0@ == TEXT_CONTENT_ONLY_MESSAGE@,
        r is Ok ==> {
            let v = r->Ok_0@;
            &&& v.len() == messages@.len()
            &&& forall|i: int|
                0 <= i < v.len() ==> (#[trigger] v[i]).0 == messages@[i].message_index && Some(v[i].1)
                    == text_of(messages@[i])
        },
{
    let mut r: Vec<(usize, String)> = Vec::new();
    let n = messages.len();
    let mut i: usize = 0;
    while i < n
        invariant
            n == messages@.len(),
            i <= n,
            r@.len() == i,
            forall|j: int| 0 <= j < i ==> (#[trigger] text_of(messages@[j])) is Some,
            forall|j: int|
                0 <= j < i ==> (#[trigger] r@[j]).0 == messages@[j].message_index && Some(r@[j].1)
                    == text_of(messages@[j]),
        decreases n - i,
    {
        match &messages[i].content {
            Some(Content::Text(t)) => {
                r.push((messages[i].message_index, t.clone()));
            },
            _ => {
                assert(text_of(messages@[i as int]) is None);
                return Err(Error::Validation(String::from_str(TEXT_CONTENT_ONLY_MESSAGE)));
            },
        }
        i = i + 1;
    }
    Ok(r)
}

/// Orders detection results by message index.
pub open spec fn by_index() -> spec_fn(DetectionResult) -> int {
    |d: DetectionResult| d.index as int
}

fn sort_by_index(results: Vec<DetectionResult>) -> (r: Vec<DetectionResult>)
    ensures
        r@ == sort_by(results@, by_index()),
{
    let ghost all = results@;
    let mut r: Vec<DetectionResult> = Vec::new();
    for x in it: results.into_iter()
        invariant
            it.seq() == all,
            r@ == sort_by(all.take(it.index() as int), by_index()),
    {
        let ghost k = it.index() as int;
        let mut p = r.len();
        while p > 0 && r[p - 1].index > x.index
            invariant
                p <= r.len(),
                forall|j: int| p <= j < r.len() ==> (#[trigger] r@[j]).index > x.index,
            decreases p,
        {
            p = p - 1;
        }
        proof {
            lemma_insert_at(r@, x, by_index(), p as int);
            assert(all.take(k + 1).drop_last() =~= all.take(k));
        }
        let ghost before = r@;
        r.insert(p, x);
        assert(r@ =~= before.take(p as int).push(x) + before.skip(p as int));
    }
    assert(all.take(all.len() as int) =~= all);
    r
}

/// Detection results in order: by message index, and within a message by
/// start, those without a start last. Both sorts are stable.
pub open spec fn ordered_detections(
    s: Seq<DetectionResult>,
    r: Seq<DetectionResult>,
) -> bool {
    let t = sort_by(s, by_index());
    &&& r.len() == t.len()
    &&& forall|i: int|
        0 <= i < r.len() ==> (#[trigger] r[i]).index == t[i].index && r[i].results@ == sort_by(
            t[i].results@,
            by_start(),
        )
}

/// Sorts detection results by message index, then each message's
/// detections by start.
pub fn sort_detections(detections: Vec<DetectionResult>) -> (r: Vec<DetectionResult>)
    ensures
        ordered_detections(detections@, r@),
{
    let sorted = sort_by_index(detections);
    let ghost t = sorted@;
    let mut r: Vec<DetectionResult> = Vec::new();
    for d in it: sorted.into_iter()
        invariant
            it.seq() == t,
            r@.len() == it.index(),
            forall|i: int|
                0 <= i < r@.len() ==> (#[trigger] r@[i]).index == t[i].index && r@[i].results@
                    == sort_by(t[i].results@, by_start()),
    {
        let results = sort_by_start(d.results);
        r.push(DetectionResult { index: d.index, results });
    }
    r
}

/// The results of `s` that hold at least one detection, in order.
pub open spec fn with_detections(s: Seq<DetectionResult>) -> Seq<DetectionResult>
    decreases s.len(),
{
    if s.len() == 0 {
        Seq::empty()
    } else if s.last().results@.len() > 0 {
        with_detections(s.drop_last()).push(s.last())
    } else {
        with_detections(s.drop_last())
    }
}

/// The detections of a chat-detection fan-out as returned: results with no
/// detection left out, the rest ordered by `sort_detections`.
pub fn chat_detections(results: Vec<DetectionResult>) -> (r: Vec<DetectionResult>)
    ensures
        ordered_detections(with_detections(results@), r@),
{
    let ghost all = results@;
    let mut kept: Vec<DetectionResult> = Vec::new();
    for d in it: results.into_iter()
        invariant
            it.seq() == all,
            kept@ == with_detections(all.take(it.index() as int)),
    {
        let ghost k = it.index() as int;
        assert(all.take(k + 1).drop_last() =~= all.take(k));
        if d.results.len() > 0 {
            kept.push(d);
        }
    }
    assert(all.take(all.len() as int) =~= all);
    sort_detections(kept)
}

/// Chat detections come out ordered by message index, and within a message
/// by start ascending with missing starts last.
pub proof fn lemma_chat_detections_ordered(s: Seq<DetectionResult>, r: Seq<DetectionResult>)
    requires
        ordered_detections(s, r),
    ensures
        sorted_by(r, by_index()),
        forall|i: int| 0 <= i < r.len() ==> sorted_by((#[trigger] r[i]).results@, by_start()),
{
    let t = sort_by(s, by_index());
    lemma_sort_sorted(s, by_index());
    assert forall|i: int, j: int| 0 <= i < j < r.len() implies (by_index())(r[i]) <= (by_index())(
        r[j],
    ) by {
        assert((by_index())(t[i]) <= (by_index())(t[j]));
    }
    assert forall|i: int| 0 <= i < r.len() implies sorted_by((#[trigger] r[i]).results@, by_start()) by {
        lemma_sort_sorted(t[i].results@, by_start());
    }
}

/// A lowercase hexadecimal digit.
pub open spec fn is_lower_hex(c: char) -> bool {
    ('0' <= c && c <= '9') || ('a' <= c && c <= 'f')
}

/// Relies on `uuid::Uuid::new_v4` for a random identifier, written by
/// `Uuid::simple` as 32 lowercase hexadecimal digits.
#[verifier::external_body]
fn new_completion_id() -> (r: String)
    ensures
        r@.len() == 32,
        forall|i: int| 0 <= i < r@.len() ==> is_lower_hex(#[trigger] r@[i]),
{
    uuid::Uuid::new_v4().simple().to_string()
}

/// The warning of a chat completion for `reason`.
pub open spec fn is_warning(w: OrchestratorWarning, reason: DetectionWarningReason) -> bool {
    &&& w.warning_type == reason
    &&& w.message@ == match reason {
        DetectionWarningReason::UnsuitableInput => UNSUITABLE_INPUT_MESSAGE@,
        DetectionWarningReason::UnsuitableOutput => UNSUITABLE_OUTPUT_MESSAGE@,
    }
}

fn warning(reason: DetectionWarningReason) -> (r: OrchestratorWarning)
    ensures
        is_warning(r, reason),
{
    let message = match reason {
        DetectionWarningReason::UnsuitableInput => String::from_str(UNSUITABLE_INPUT_MESSAGE),
        DetectionWarningReason::UnsuitableOutput => String::from_str(UNSUITABLE_OUTPUT_MESSAGE),
    };
    OrchestratorWarning { warning_type: reason, message }
}

/// The completion returned in place of a generation when input detections
/// surfaced: no choices, the input detections, and one warning of unsuitable
/// input.
pub fn input_detections_completion(
    id: String,
    created: i64,
    model: String,
    detections: Vec<DetectionResult>,
) -> (r: ChatCompletion)
    ensures
        r.id == id,
        r.created == created,
        r.model == model,
        r.choices@.len() == 0,
        r.detections is Some,
        r.detections->0.input == detections,
        r.detections->0.output@.len() == 0,
        r.warnings@.len() == 1,
        is_warning(r.warnings@[0], DetectionWarningReason::UnsuitableInput),
{
    let w = warning(DetectionWarningReason::UnsuitableInput);
    let warnings = vec![w];
    ChatCompletion {
        id,
        created,
        model,
        choices: Vec::new(),
        detections: Some(ChatDetections { input: detections, output: Vec::new() }),
        warnings,
    }
}

/// The short-circuit completion for input detections, under a fresh random
/// identifier, created at `created` (seconds since the epoch).
pub fn short_circuit_completion(
    model: String,
    detections: Vec<DetectionResult>,
    created: i64,
) -> (r: ChatCompletion)
    ensures
        r.id@.len() == 32,
        forall|i: int| 0 <= i < r.id@.len() ==> is_lower_hex(#[trigger] r.id@[i]),
        r.created == created,
        r.model == model,
        r.choices@.len() == 0,
        r.detections is Some,
        r.detections->0.input == detections,
        r.detections->0.output@.len() == 0,
        r.warnings@.len() == 1,
        is_warning(r.warnings@[0], DetectionWarningReason::UnsuitableInput),
{
    let id = new_completion_id();
    input_detections_completion(id, created, model, detections)
}

/// The completion once input detection is done: none where no detection
/// surfaced (the chat completion goes ahead), else the short-circuit
/// completion.
pub fn input_detection_completion(
    model: String,
    detections: Vec<DetectionResult>,
    created: i64,
) -> (r: Option<ChatCompletion>)
    ensures
        r is None <==> detections@.len() == 0,
        r is Some ==> {
            let c = r->0;
            &&& c.id@.len() == 32
            &&& forall|i: int| 0 <= i < c.id@.len() ==> is_lower_hex(#[trigger] c.id@[i])
            &&& c.created == created
            &&& c.model == model
            &&& c.choices@.len() == 0
            &&& c.detections is Some
            &&& c.detections->0.input == detections
            &&& c.detections->0.output@.len() == 0
            &&& c.warnings@.len() == 1
            &&& is_warning(c.warnings@[0], DetectionWarningReason::UnsuitableInput)
        },
{
    if detections.len() == 0 {
        None
    } else {
        Some(short_circuit_completion(model, detections, created))
    }
}

fn position_of(v: &Vec<String>, s: &String) -> (r: Option<usize>)
    ensures
        match r {
            Some(p) => p < v@.len() && v@[p as int]@ == s@,
            None => forall|p: int| 0 <= p < v@.len() ==> (#[trigger] v@[p])@ != s@,
        },
{
    let n = v.len();
    let mut k: usize = 0;
    while k < n
        invariant
            n == v@.len(),
            k <= n,
            forall|p: int| 0 <= p < k ==> (#[trigger] v@[p])@ != s@,
        decreases n - k,
    {
        if v[k] == *s {
            return Some(k);
        }
        k = k + 1;
    }
    None
}

/// The chunkers that `detectors` use, each once, in order of first use.
pub open spec fn chunkers_of(
    config: OrchestratorConfig,
    detectors: Seq<(String, DetectorParams)>,
) -> Seq<Seq<char>>
    decreases detectors.len(),
{
    if detectors.len() == 0 {
        Seq::empty()
    } else {
        let prev = chunkers_of(config, detectors.drop_last());
        let c = config.detector(detectors.last().0@)->0.chunker_id@;
        if prev.contains(c) {
            prev
        } else {
            prev.push(c)
        }
    }
}

/// The chunkers that `detectors` use, each once, in order of first use.
/// `DetectorNotFound` for the first detector, in order, that the catalog
/// does not hold.
#[verifier::rlimit(60)]
pub fn chunker_ids(config: &OrchestratorConfig, detectors: &DetectorMap) -> (r: Result<Vec<String>, Error>)
    ensures
        r is Ok <==> forall|i: int|
            0 <= i < detectors@.len() ==> config.detector((#[trigger] detectors@[i]).0@) is Some,
        r is Err ==> exists|i: int|
            0 <= i < detectors@.len() && (forall|j: int|
                0 <= j < i ==> config.detector((#[trigger] detectors@[j]).0@) is Some)
                && config.detector((#[trigger] detectors@[i]).0@) is None && r->Err_0
                == Error::DetectorNotFound(detectors@[i].0),
        r is Ok ==> r->Ok_0@.map_values(|s: String| s@) == chunkers_of(*config, detectors@),
{
    let mut ids: Vec<String> = Vec::new();
    let n = detectors.len();
    let mut i: usize = 0;
    assert(detectors@.take(0) =~= Seq::<(String, DetectorParams)>::empty());
    while i < n
        invariant
            n == detectors@.len(),
            i <= n,
            forall|j: int| 0 <= j < i ==> config.detector((#[trigger] detectors@[j]).0@) is Some,
            ids@.map_values(|s: String| s@) == chunkers_of(*config, detectors@.take(i as int)),
        decreases n - i,
    {
        let id = &detectors[i].0;
        let detector = match config.get_detector(id) {
            Some(c) => c,
            None => {
                assert(detectors@[i as int].0 == *id);
                return Err(Error::DetectorNotFound(id.clone()));
            },
        };
        let ghost prev = ids@.map_values(|s: String| s@);
        let ghost cid = detector.chunker_id@;
        proof {
            assert(detectors@[i as int].0 == *id);
            assert(detectors@.take(i + 1).drop_last() =~= detectors@.take(i as int));
            assert(detectors@.take(i + 1).last() == detectors@[i as int]);
        }
        match position_of(&ids, &detector.chunker_id) {
            Some(p) => {
                assert(prev[p as int] == cid);
                assert(prev.contains(cid));
            },
            None => {
                assert(!prev.contains(cid)) by {
                    if prev.contains(cid) {
                        let p = choose|p: int| 0 <= p < prev.len() && prev[p] == cid;
                        assert(ids@[p]@ == cid);
                    }
                }
                ids.push(detector.chunker_id.clone());
                assert(ids@.map_values(|s: String| s@) =~= prev.push(cid));
            },
        }
        i = i + 1;
    }
    assert(detectors@.take(n as int) =~= detectors@);
    Ok(ids)
}

/// The completion returned after output detection: unchanged where no
/// detection surfaced; otherwise with its choices taken out, the output
/// detections in their place and one warning of unsuitable output.
pub fn output_detections_completion(
    completion: ChatCompletion,
    detections: Vec<DetectionResult>,
) -> (r: ChatCompletion)
    ensures
        detections@.len() == 0 ==> r == completion,
        detections@.len() > 0 ==> {
            &&& r.id == completion.id
            &&& r.created == completion.created
            &&& r.model == completion.model
            &&& r.choices@.len() == 0
            &&& r.detections is Some
            &&& r.detections->0.input@.len() == 0
            &&& r.detections->0.output == detections
            &&& r.warnings@.len() == 1
            &&& is_warning(r.warnings@[0], DetectionWarningReason::UnsuitableOutput)
        },
{
    if detections.len() == 0 {
        completion
    } else {
        let w = warning(DetectionWarningReason::UnsuitableOutput);
        let warnings = vec![w];
        ChatCompletion {
            id: completion.id,
            created: completion.created,
            model: completion.model,
            choices: Vec::new(),
            detections: Some(ChatDetections { input: Vec::new(), output: detections }),
            warnings,
        }
    }
}

/// The same detection results, in the same order, come out of every run on
/// the same input: the ordering leaves no choice, even among detections
/// with equal keys.
pub proof fn lemma_ordered_detections_deterministic(
    s: Seq<DetectionResult>,
    r1: Seq<DetectionResult>,
    r2: Seq<DetectionResult>,
)
    requires
        ordered_detections(s, r1),
        ordered_detections(s, r2),
    ensures
        r1.len() == r2.len(),
        forall|i: int|
            0 <= i < r1.len() ==> (#[trigger] r1[i]).index == r2[i].index && r1[i].results@
                == r2[i].results@,
{
}

/// The chunks of each message, by message index, as one chunker made them.
pub type MessageChunks = Vec<(usize, Vec<Chunk>)>;

/// A text-contents detector call on the chunks of one message.
#[derive(Debug, Clone)]
pub struct ContentDetectionCall {
    pub detector_id: String,
    pub message_index: usize,
    pub chunks: Vec<Chunk>,
    pub params: DetectorParams,
    pub default_threshold: u64,
}

/// A detector call as plain values: detector id, message index, chunks,
/// threshold and other parameters, default threshold.
pub type CallModel = (Seq<char>, usize, Seq<Chunk>, Option<u64>, Seq<(String, String)>, u64);

pub open spec fn call_model(c: ContentDetectionCall) -> CallModel {
    (c.detector_id@, c.message_index, c.chunks@, c.params.threshold, c.params.params@, c.default_threshold)
}

/// What stops the chat fan-out at a detector.
#[derive(Debug, Clone, Copy, PartialEq, Eq, Structural)]
pub enum ChatDetectorProblem {
    /// The catalog does not hold the detector
    NotFound,
    /// The detector is not a text-contents detector
    Unsupported,
}

/// What stops the chat fan-out at detector `id`, if anything.
pub open spec fn chat_problem(
    config: OrchestratorConfig,
    groups: Seq<(String, MessageChunks)>,
    id: Seq<char>,
) -> Option<ChatDetectorProblem> {
    match config.detector(id) {
        None => Some(ChatDetectorProblem::NotFound),
        Some(c) => if c.detector_type != DetectorType::TextContents {
            Some(ChatDetectorProblem::Unsupported)
        } else {
            None
        },
    }
}

/// `e` reports `problem` at detector `id`.
pub open spec fn reports_chat(
    e: Error,
    problem: ChatDetectorProblem,
    config: OrchestratorConfig,
    id: Seq<char>,
) -> bool {
    match problem {
        ChatDetectorProblem::NotFound => e is DetectorNotFound && e->DetectorNotFound_0@ == id,
        ChatDetectorProblem::Unsupported => e is Validation && e->Validation_0@ == unsupported_text(
            id,
        ),
    }
}

/// The calls for one detector: one per message that its chunker chunked;
/// none where its chunker made no chunks.
pub open spec fn detector_calls(
    config: OrchestratorConfig,
    groups: Seq<(String, MessageChunks)>,
    entry: (String, DetectorParams),
) -> Seq<CallModel> {
    let c = config.detector(entry.0@)->0;
    match first_index_of(groups, c.chunker_id@) {
        Some(i) => groups[i].1@.map_values(
            |m: (usize, Vec<Chunk>)|
                (entry.0@, m.0, m.1@, entry.1.threshold, entry.1.params@, c.default_threshold),
        ),
        None => Seq::empty(),
    }
}

/// The calls of the chat fan-out, detector after detector.
pub open spec fn planned_calls(
    config: OrchestratorConfig,
    groups: Seq<(String, MessageChunks)>,
    detectors: Seq<(String, DetectorParams)>,
) -> Seq<CallModel>
    decreases detectors.len(),
{
    if detectors.len() == 0 {
        Seq::empty()
    } else {
        planned_calls(config, groups, detectors.drop_last()) + detector_calls(
            config,
            groups,
            detectors.last(),
        )
    }
}

fn check_chat_detector<'a>(
    config: &'a OrchestratorConfig,
    groups: &Vec<(String, MessageChunks)>,
    id: &String,
) -> (r: Result<(&'a crate::config::DetectorConfig, Option<usize>), Error>)
    ensures
        r is Ok <==> chat_problem(*config, groups@, id@) is None,
        r is Ok ==> config.detector(id@) == Some(*r->Ok_0.0) && match r->Ok_0.1 {
            Some(g) => first_index_of(groups@, r->Ok_0.0.chunker_id@) == Some(g as int) && g
                < groups@.len(),
            None => first_index_of(groups@, r->Ok_0.0.chunker_id@) is None,
        },
        r is Err ==> reports_chat(
            r->Err_0,
            chat_problem(*config, groups@, id@)->0,
            *config,
            id@,
        ),
{
    let detector = match config.get_detector(id) {
        Some(c) => c,
        None => {
            return Err(Error::DetectorNotFound(id.clone()));
        },
    };
    if detector.detector_type != DetectorType::TextContents {
        return Err(Error::unsupported_detector(id));
    }
    Ok((detector, first_position(groups, &detector.chunker_id)))
}

fn calls_for_detector(
    id: &String,
    params: &DetectorParams,
    default_threshold: u64,
    messages: &MessageChunks,
) -> (r: Vec<ContentDetectionCall>)
    ensures
        r@.map_values(|c: ContentDetectionCall| call_model(c)) == messages@.map_values(
            |m: (usize, Vec<Chunk>)|
                (id@, m.0, m.1@, params.threshold, params.params@, default_threshold),
        ),
{
    let ghost target = messages@.map_values(
        |m: (usize, Vec<Chunk>)|
            (id@, m.0, m.1@, params.threshold, params.params@, default_threshold),
    );
    let mut calls: Vec<ContentDetectionCall> = Vec::new();
    let m = messages.len();
    let mut k: usize = 0;
    while k < m
        invariant
            m == messages@.len(),
            k <= m,
            target.len() == m,
            target == messages@.map_values(
                |m: (usize, Vec<Chunk>)|
                    (id@, m.0, m.1@, params.threshold, params.params@, default_threshold),
            ),
            calls@.map_values(|c: ContentDetectionCall| call_model(c)) == target.take(k as int),
        decreases m - k,
    {
        let chunks = messages[k].1.clone();
        assert(chunks@ =~= messages@[k as int].1@);
        let call = ContentDetectionCall {
            detector_id: id.clone(),
            message_index: messages[k].0,
            chunks,
            params: params.clone(),
            default_threshold,
        };
        let ghost prev = calls@;
        calls.push(call);
        assert(calls@.map_values(|c: ContentDetectionCall| call_model(c)) =~= prev.map_values(
            |c: ContentDetectionCall| call_model(c),
        ).push(call_model(call)));
        assert(target.take(k + 1) =~= target.take(k as int).push(target[k as int]));
        k = k + 1;
    }
    assert(target.take(m as int) =~= target);
    calls
}

/// The detector calls of a chat detection: for each detector, in order, one
/// call per message on the chunks that the detector's chunker made of it
/// (none where it made none). The first detector, in order, that is not in
/// the catalog (`DetectorNotFound`) or is not a text-contents detector (a
/// `Validation` error: not supported by this endpoint) stops the fan-out.
#[verifier::rlimit(80)]
pub fn chat_detection_calls(
    config: &OrchestratorConfig,
    detectors: &DetectorMap,
    groups: &Vec<(String, MessageChunks)>,
) -> (r: Result<Vec<ContentDetectionCall>, Error>)
    ensures
        r is Ok <==> forall|i: int|
            0 <= i < detectors@.len() ==> chat_problem(
                *config,
                groups@,
                (#[trigger] detectors@[i]).0@,
            ) is None,
        r is Ok ==> r->Ok_0@.map_values(|c: ContentDetectionCall| call_model(c)) == planned_calls(
            *config,
            groups@,
            detectors@,
        ),
        r is Err ==> exists|i: int|
            0 <= i < detectors@.len() && (forall|j: int|
                0 <= j < i ==> chat_problem(*config, groups@, (#[trigger] detectors@[j]).0@)
                    is None) && chat_problem(*config, groups@, (#[trigger] detectors@[i]).0@)
                is Some && reports_chat(
                r->Err_0,
                chat_problem(*config, groups@, detectors@[i].0@)->0,
                *config,
                detectors@[i].0@,
            ),
{
    let mut calls: Vec<ContentDetectionCall> = Vec::new();
    let n = detectors.len();
    let mut i: usize = 0;
    assert(detectors@.take(0) =~= Seq::<(String, DetectorParams)>::empty());
    while i < n
        invariant
            n == detectors@.len(),
            i <= n,
            forall|j: int|
                0 <= j < i ==> chat_problem(*config, groups@, (#[trigger] detectors@[j]).0@)
                    is None,
            calls@.map_values(|c: ContentDetectionCall| call_model(c)) == planned_calls(
                *config,
                groups@,
                detectors@.take(i as int),
            ),
        decreases n - i,
    {
        let id = &detectors[i].0;
        let (detector, found) = match check_chat_detector(config, groups, id) {
            Ok(found) => found,
            Err(e) => {
                proof {
                    assert(detectors@[i as int].0 == *id);
                    assert(chat_problem(*config, groups@, detectors@[i as int].0@) is Some);
                }
                return Err(e);
            },
        };
        let ghost entry = detectors@[i as int];
        assert(entry.0 == *id);
        let mut more = match found {
            Some(g) => {
                assert(detector_calls(*config, groups@, entry) == groups@[g as int].1@.map_values(
                    |m: (usize, Vec<Chunk>)|
                        (entry.0@, m.0, m.1@, entry.1.threshold, entry.1.params@, detector.default_threshold),
                ));
                calls_for_detector(id, &detectors[i].1, detector.default_threshold, &groups[g].1)
            },
            None => {
                assert(detector_calls(*config, groups@, entry) =~= Seq::<CallModel>::empty());
                Vec::new()
            },
        };
        assert(more@.map_values(|c: ContentDetectionCall| call_model(c)) == detector_calls(
            *config,
            groups@,
            entry,
        ));
        let ghost before = calls@;
        let ghost added = more@;
        calls.append(&mut more);
        proof {
            assert(calls@.map_values(|c: ContentDetectionCall| call_model(c)) =~= before.map_values(
                |c: ContentDetectionCall| call_model(c),
            ) + added.map_values(|c: ContentDetectionCall| call_model(c)));
            assert(detectors@.take(i + 1).drop_last() =~= detectors@.take(i as int));
            assert(detectors@.take(i + 1).last() == entry);
            assert(planned_calls(*config, groups@, detectors@.take(i + 1)) == planned_calls(
                *config,
                groups@,
                detectors@.take(i as int),
            ) + detector_calls(*config, groups@, entry));
        }
        i = i + 1;
    }
    assert(detectors@.take(n as int) =~= detectors@);
    Ok(calls)
}

/// The detection result of a call from the detector's answer: the
/// detections that surface at the call's effective threshold, placed in the
/// message and tagged with the detector.
pub fn call_result(call: ContentDetectionCall, answer: Vec<Vec<Detection>>) -> (r: DetectionResult)
    ensures
        r.index == call.message_index,
        r.results@ == chunk_detections(
            call.chunks@,
            answer@,
            effective_threshold(call.params.threshold, call.default_threshold),
            0,
            call.detector_id,
            if call.chunks@.len() < answer@.len() { call.chunks@.len() } else { answer@.len() },
        ),
{
    let threshold = match call.params.threshold {
        Some(t) => t,
        None => call.default_threshold,
    };
    let results = detections_for_chunks(&call.chunks, answer, threshold, 0, &call.detector_id);
    DetectionResult { index: call.message_index, results }
}

/// The chunks that `results` hold for chunker `key`, in order.
pub open spec fn entries_for(
    results: Seq<(String, (usize, Vec<Chunk>))>,
    key: Seq<char>,
) -> Seq<(usize, Vec<Chunk>)>
    decreases results.len(),
{
    if results.len() == 0 {
        Seq::empty()
    } else if results.last().0@ == key {
        entries_for(results.drop_last(), key).push(results.last().1)
    } else {
        entries_for(results.drop_last(), key)
    }
}

proof fn lemma_no_entries(results: Seq<(String, (usize, Vec<Chunk>))>, key: Seq<char>)
    requires
        forall|i: int| 0 <= i < results.len() ==> (#[trigger] results[i]).0@ != key,
    ensures
        entries_for(results, key).len() == 0,
    decreases results.len(),
{
    if results.len() > 0 {
        lemma_no_entries(results.drop_last(), key);
    }
}

/// Groups chunker results by chunker: one group per chunker, in order of
/// first appearance, holding that chunker's results in order.
pub fn group_chunks(results: Vec<(String, (usize, Vec<Chunk>))>) -> (r: Vec<(String, MessageChunks)>)
    ensures
        forall|p: int| 0 <= p < r@.len() ==> (#[trigger] r@[p]).1@ == entries_for(results@, r@[p].0@),
        forall|p: int| 0 <= p < r@.len() ==> (#[trigger] r@[p]).1@.len() > 0,
        forall|p: int, q: int| 0 <= p < q < r@.len() ==> (#[trigger] r@[p]).0@ != (#[trigger] r@[q]).0@,
        forall|i: int| 0 <= i < results@.len() ==> first_index_of(r@, (#[trigger] results@[i]).0@) is Some,
{
    let ghost all = results@;
    let mut r: Vec<(String, MessageChunks)> = Vec::new();
    for item in it: results.into_iter()
        invariant
            it.seq() == all,
            forall|p: int|
                0 <= p < r@.len() ==> (#[trigger] r@[p]).1@ == entries_for(
                    all.take(it.index() as int),
                    r@[p].0@,
                ),
            forall|p: int| 0 <= p < r@.len() ==> (#[trigger] r@[p]).1@.len() > 0,
            forall|p: int, q: int|
                0 <= p < q < r@.len() ==> (#[trigger] r@[p]).0@ != (#[trigger] r@[q]).0@,
            forall|i: int|
                0 <= i < it.index() ==> first_index_of(r@, (#[trigger] all[i]).0@) is Some,
    {
        let ghost k = it.index() as int;
        let ghost r0 = r@;
        let ghost pre = all.take(k);
        let ghost post = all.take(k + 1);
        assert(post.drop_last() =~= pre);
        assert(post.last() == item);
        let (key, entry) = item;
        match first_position(&r, &key) {
            Some(p) => {
                let (name, mut list) = r.remove(p);
                list.push(entry);
                r.insert(p, (name, list));
                proof {
                    assert forall|q: int| 0 <= q < r@.len() implies (#[trigger] r@[q]).1@ == entries_for(
                        post,
                        r@[q].0@,
                    ) by {
                        if q != p {
                            assert(r@[q] == r0[q]);
                            if r0[q].0@ == key@ {
                                assert(r0[p as int].0@ == key@);
                            }
                        }
                    }
                    assert forall|a: int, b: int| 0 <= a < b < r@.len() implies (#[trigger] r@[a]).0@
                        != (#[trigger] r@[b]).0@ by {
                        assert(r@[a].0 == r0[a].0 && r@[b].0 == r0[b].0);
                    }
                    assert forall|q: int| 0 <= q < r@.len() implies (#[trigger] r@[q]).1@.len() > 0 by {
                        if q != p {
                            assert(r@[q] == r0[q]);
                        }
                    }
                    assert forall|i: int| 0 <= i < k + 1 implies first_index_of(r@, (#[trigger] all[i]).0@)
                        is Some by {
                        let j = if i < k {
                            first_index_of(r0, all[i].0@)->0
                        } else {
                            p as int
                        };
                        if i < k {
                            assert(r0[j].0@ == all[i].0@);
                        }
                        assert(r@[j].0 == r0[j].0);
                    }
                }
            },
            None => {
                proof {
                    assert forall|i: int| 0 <= i < pre.len() implies (#[trigger] pre[i]).0@ != key@ by {
                        assert(pre[i] == all[i]);
                        let j = first_index_of(r0, all[i].0@)->0;
                        assert(r0[j].0@ == all[i].0@);
                    }
                    lemma_no_entries(pre, key@);
                }
                let mut list: MessageChunks = Vec::new();
                list.push(entry);
                r.push((key, list));
                proof {
                    assert(list@ =~= entries_for(post, key@));
                    assert forall|q: int| 0 <= q < r@.len() implies (#[trigger] r@[q]).1@ == entries_for(
                        post,
                        r@[q].0@,
                    ) by {
                        if q < r0.len() {
                            assert(r@[q] == r0[q]);
                        }
                    }
                    assert forall|q: int| 0 <= q < r@.len() implies (#[trigger] r@[q]).1@.len() > 0 by {
                        if q < r0.len() {
                            assert(r@[q] == r0[q]);
                        }
                    }
                    assert forall|i: int| 0 <= i < k + 1 implies first_index_of(r@, (#[trigger] all[i]).0@)
                        is Some by {
                        let j = if i < k {
                            first_index_of(r0, all[i].0@)->0
                        } else {
                            r0.len() as int
                        };
                        if i < k {
                            assert(r0[j].0@ == all[i].0@);
                        }
                        assert(r@[j].0@ == all[i].0@);
                    }
                }
            },
        }
    }
    assert(all.take(all.len() as int) =~= all);
    r
}

} // verus!
