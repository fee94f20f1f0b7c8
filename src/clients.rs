//! Detector clients: the endpoint of each detector category, the headers of
//! every detector call, the request bodies, and how an answer that is not a
//! success becomes an error.

use vstd::prelude::*;
use vstd::string::*;

use crate::chat::Message;
use crate::detection::Detection;
use crate::detector_params::DetectorParams;
use crate::errors::ClientError;

verus! {

pub const CONTENTS_DETECTOR_ENDPOINT: &'static str = "/api/v1/text/contents";
pub const CHAT_DETECTOR_ENDPOINT: &'static str = "/api/v1/text/chat";
pub const CONTEXT_DOC_DETECTOR_ENDPOINT: &'static str = "/api/v1/text/context/doc";
pub const GENERATION_DETECTOR_ENDPOINT: &'static str = "/api/v1/text/generation";

/// Header that names the detector.
pub const DETECTOR_ID_HEADER_NAME: &'static str = "detector-id";
/// Header that names the model, for a router in front of detectors.
pub const MODEL_NAME_HEADER_NAME: &'static str = "x-model-name";
pub const CONTENT_TYPE_HEADER_NAME: &'static str = "content-type";
pub const JSON_CONTENT_TYPE: &'static str = "application/json";

/// Message of a failed detector call whose body says nothing readable.
pub const UNKNOWN_ERROR_MESSAGE: &'static str = "unknown error occurred";

/// A header: its name and its value.
pub type Header = (String, String);

/// The body of a failed detector call.
#[derive(Debug, Clone)]
pub struct DetectorError {
    pub code: u16,
    pub message: String,
}

impl DetectorError {
    /// The client error that this body reports.
    pub fn into_client_error(self) -> (r: ClientError)
        ensures
            r == (ClientError::Http { code: self.code, message: self.message }),
    {
        ClientError::Http { code: self.code, message: self.message }
    }
}

/// The headers of a detector call: the caller's, then `detector-id`,
/// `content-type` and `x-model-name`.
pub open spec fn detector_headers(headers: Seq<Header>, model_id: Seq<char>) -> Seq<(Seq<char>, Seq<char>)> {
    headers.map_values(|h: Header| (h.0@, h.1@)) + seq![
        (DETECTOR_ID_HEADER_NAME@, model_id),
        (CONTENT_TYPE_HEADER_NAME@, JSON_CONTENT_TYPE@),
        (MODEL_NAME_HEADER_NAME@, model_id),
    ]
}

/// The client error of a detector call answered with `status` other than
/// success: the message of the error body where it could be read, else
/// `UNKNOWN_ERROR_MESSAGE`.
pub open spec fn detector_failure(status: u16, body: Option<DetectorError>) -> (u16, Seq<char>) {
    match body {
        Some(b) => (status, b.message@),
        None => (status, UNKNOWN_ERROR_MESSAGE@),
    }
}

/// A client of a detector service, with an optional separate address for
/// health probes.
#[derive(Debug, Clone)]
pub struct DetectorClient {
    pub base_url: String,
    pub health_url: Option<String>,
}

impl DetectorClient {
    pub open spec fn base(&self) -> Seq<char> {
        self.base_url@
    }

    pub open spec fn health_base(&self) -> Seq<char> {
        match self.health_url {
            Some(u) => u@,
            None => self.base_url@,
        }
    }

    pub fn new(base_url: String, health_url: Option<String>) -> (r: Self)
        ensures
            r.base() == base_url@,
            r.health_base() == match health_url {
                Some(u) => u@,
                None => base_url@,
            },
    {
        DetectorClient { base_url, health_url }
    }

    /// The address of `path` on the detector service.
    pub fn endpoint(&self, path: &str) -> (r: String)
        ensures
            r@ == self.base() + path@,
    {
        let mut s = self.base_url.clone();
        s.append(path);
        s
    }

    /// The address that health probes go to: the separate health address
    /// where there is one, else the service's own.
    pub fn health_endpoint(&self, path: &str) -> (r: String)
        ensures
            r@ == self.health_base() + path@,
    {
        let mut s = match &self.health_url {
            Some(u) => u.clone(),
            None => self.base_url.clone(),
        };
        s.append(path);
        s
    }

    /// The headers to send with a call to the detector `model_id`.
    pub fn request_headers(model_id: &String, headers: Vec<Header>) -> (r: Vec<Header>)
        ensures
            r@.map_values(|h: Header| (h.0@, h.1@)) == detector_headers(headers@, model_id@),
    {
        let mut r = headers;
        r.push((String::from_str(DETECTOR_ID_HEADER_NAME), model_id.clone()));
        r.push((String::from_str(CONTENT_TYPE_HEADER_NAME), String::from_str(JSON_CONTENT_TYPE)));
        r.push((String::from_str(MODEL_NAME_HEADER_NAME), model_id.clone()));
        assert(r@.map_values(|h: Header| (h.0@, h.1@)) =~= detector_headers(headers@, model_id@));
        r
    }

    /// The error of a call answered with `status` other than success, given
    /// the error body if it could be read.
    pub fn failure(status: u16, body: Option<DetectorError>) -> (r: ClientError)
        ensures
            r is Http,
            (r->Http_code, r->Http_message@) == detector_failure(status, body),
    {
        match body {
            Some(b) => ClientError::Http { code: status, message: b.message },
            None => ClientError::Http { code: status, message: String::from_str(UNKNOWN_ERROR_MESSAGE) },
        }
    }
}

/// Client of text-contents detectors.
#[derive(Debug, Clone)]
pub struct TextContentsDetectorClient {
    pub client: DetectorClient,
}

impl TextContentsDetectorClient {
    pub fn new(client: DetectorClient) -> (r: Self)
        ensures
            r.client == client,
    {
        TextContentsDetectorClient { client }
    }

    pub fn client(&self) -> (r: &DetectorClient)
        ensures
            *r == self.client,
    {
        &self.client
    }

    pub fn name(&self) -> (r: &'static str)
        ensures
            r@ == "text_contents_detector"@,
    {
        "text_contents_detector"
    }

    /// The address of the text-contents endpoint.
    pub fn url(&self) -> (r: String)
        ensures
            r@ == self.client.base() + CONTENTS_DETECTOR_ENDPOINT@,
    {
        self.client.endpoint(CONTENTS_DETECTOR_ENDPOINT)
    }
}

/// Client of chat detectors.
#[derive(Debug, Clone)]
pub struct TextChatDetectorClient(pub DetectorClient);

impl TextChatDetectorClient {
    pub fn name(&self) -> (r: &'static str)
        ensures
            r@ == "text_chat_detector"@,
    {
        "text_chat_detector"
    }

    /// The address of the chat endpoint.
    pub fn url(&self) -> (r: String)
        ensures
            r@ == self.0.base() + CHAT_DETECTOR_ENDPOINT@,
    {
        self.0.endpoint(CHAT_DETECTOR_ENDPOINT)
    }
}

/// Client of context-document detectors.
#[derive(Debug, Clone)]
pub struct TextContextDocDetectorClient(pub DetectorClient);

impl TextContextDocDetectorClient {
    pub fn name(&self) -> (r: &'static str)
        ensures
            r@ == "text_context_doc_detector"@,
    {
        "text_context_doc_detector"
    }

    /// The address of the context-document endpoint.
    pub fn url(&self) -> (r: String)
        ensures
            r@ == self.0.base() + CONTEXT_DOC_DETECTOR_ENDPOINT@,
    {
        self.0.endpoint(CONTEXT_DOC_DETECTOR_ENDPOINT)
    }
}

/// Client of generation detectors.
#[derive(Debug, Clone)]
pub struct TextGenerationDetectorClient(pub DetectorClient);

impl TextGenerationDetectorClient {
    pub fn name(&self) -> (r: &'static str)
        ensures
            r@ == "text_generation_detector"@,
    {
        "text_generation_detector"
    }

    /// The address of the generation endpoint.
    pub fn url(&self) -> (r: String)
        ensures
            r@ == self.0.base() + GENERATION_DETECTOR_ENDPOINT@,
    {
        self.0.endpoint(GENERATION_DETECTOR_ENDPOINT)
    }
}

/// The detections of a text-contents answer, one document's after the
/// other's.
pub open spec fn flat(response: Seq<Vec<Detection>>) -> Seq<Detection>
    decreases response.len(),
{
    if response.len() == 0 {
        Seq::empty()
    } else {
        flat(response.drop_last()) + response.last()@
    }
}

/// Flattens a text-contents answer (one list per document) into one list.
pub fn flatten_response(response: Vec<Vec<Detection>>) -> (r: Vec<Detection>)
    ensures
        r@ == flat(response@),
{
    let ghost all = response@;
    let mut r: Vec<Detection> = Vec::new();
    for answer in it: response.into_iter()
        invariant
            it.seq() == all,
            r@ == flat(all.take(it.index() as int)),
    {
        let ghost k = it.index() as int;
        assert(all.take(k + 1).drop_last() =~= all.take(k));
        let mut a = answer;
        r.append(&mut a);
    }
    assert(all.take(all.len() as int) =~= all);
    r
}

/// Request for text content analysis: one result list per document, in the
/// order of `contents`.
#[derive(Debug, Clone)]
pub struct TextContentsRequest {
    /// Documents to analyse
    pub contents: Vec<String>,
    /// Detector parameters (available parameters depend on the detector)
    pub detector_params: DetectorParams,
}

impl TextContentsRequest {
    pub fn new(contents: Vec<String>, detector_params: DetectorParams) -> (r: Self)
        ensures
            r.contents == contents,
            r.detector_params == detector_params,
    {
        TextContentsRequest { contents, detector_params }
    }
}

/// Request to a chat detector.
#[derive(Debug, Clone)]
pub struct ChatDetectionRequest {
    /// Chat messages to run detection on
    pub messages: Vec<Message>,
    /// Tools the model may call, each as its JSON encoding
    pub tools: Vec<String>,
    /// Detector parameters (available parameters depend on the detector)
    pub detector_params: DetectorParams,
}

impl ChatDetectionRequest {
    pub fn new(messages: Vec<Message>, tools: Vec<String>, detector_params: DetectorParams) -> (r: Self)
        ensures
            r.messages == messages,
            r.tools == tools,
            r.detector_params == detector_params,
    {
        ChatDetectionRequest { messages, tools, detector_params }
    }
}

/// What the context of a context-document request is.
#[derive(Debug, Clone, Copy, PartialEq, Eq, Structural)]
pub enum ContextType {
    Document,
    Url,
}

/// Request to a context-document detector.
#[derive(Debug, Clone)]
pub struct ContextDocsDetectionRequest {
    /// Content to run detection on
    pub content: String,
    /// Type of context being sent
    pub context_type: ContextType,
    /// Context to run detection on
    pub context: Vec<String>,
    /// Detector parameters (available parameters depend on the detector)
    pub detector_params: DetectorParams,
}

impl ContextDocsDetectionRequest {
    pub fn new(
        content: String,
        context_type: ContextType,
        context: Vec<String>,
        detector_params: DetectorParams,
    ) -> (r: Self)
        ensures
            r.content == content,
            r.context_type == context_type,
            r.context == context,
            r.detector_params == detector_params,
    {
        ContextDocsDetectionRequest { content, context_type, context, detector_params }
    }
}

/// Request to a generation detector.
#[derive(Debug, Clone)]
pub struct GenerationDetectionRequest {
    /// User prompt sent to the model
    pub prompt: String,
    /// Text generated by the model
    pub generated_text: String,
    /// Detector parameters (available parameters depend on the detector)
    pub detector_params: DetectorParams,
}

impl GenerationDetectionRequest {
    pub fn new(prompt: String, generated_text: String, detector_params: DetectorParams) -> (r: Self)
        ensures
            r.prompt == prompt,
            r.generated_text == generated_text,
            r.detector_params == detector_params,
    {
        GenerationDetectionRequest { prompt, generated_text, detector_params }
    }
}

} // verus!
