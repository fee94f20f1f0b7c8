//! Guardrails configuration: the detectors to run on the input and on the
//! output of a generation, and the masks that restrict input detection.

use vstd::prelude::*;
use vstd::string::*;

use crate::detector_params::DetectorParams;

verus! {

/// Detector ids with the parameters of each call.
pub type DetectorMap = Vec<(String, DetectorParams)>;

/// Configuration for detection on input to a text generation model.
#[derive(Debug, Clone)]
pub struct GuardrailsConfigInput {
    /// Detector ids with their parameters
    pub models: DetectorMap,
    /// Spans `(start, end)` of the input, in characters, on which to run
    /// input detection
    pub masks: Option<Vec<(usize, usize)>>,
}

/// Configuration for detection on output of a text generation model.
#[derive(Debug, Clone)]
pub struct GuardrailsConfigOutput {
    /// Detector ids with their parameters
    pub models: DetectorMap,
}

/// Configuration of guardrails models for either or both input to a text
/// generation model and output of a text generation model.
#[derive(Debug, Clone)]
pub struct GuardrailsConfig {
    pub input: Option<GuardrailsConfigInput>,
    pub output: Option<GuardrailsConfigOutput>,
}

impl Default for GuardrailsConfig {
    fn default() -> (r: Self)
        ensures
            r.input is None,
            r.output is None,
    {
        GuardrailsConfig { input: None, output: None }
    }
}

impl GuardrailsConfig {
    /// The input masks, if given.
    pub open spec fn masks_of(&self) -> Option<Seq<(usize, usize)>> {
        match self.input {
            Some(i) => match i.masks {
                Some(m) => Some(m@),
                None => None,
            },
            None => None,
        }
    }

    /// The input detectors, if configured.
    pub open spec fn input_models(&self) -> Option<Seq<(String, DetectorParams)>> {
        match self.input {
            Some(i) => Some(i.models@),
            None => None,
        }
    }

    /// The output detectors, if configured.
    pub open spec fn output_models(&self) -> Option<Seq<(String, DetectorParams)>> {
        match self.output {
            Some(o) => Some(o.models@),
            None => None,
        }
    }

    pub fn input_masks(&self) -> (r: Option<&Vec<(usize, usize)>>)
        ensures
            r == match self.input {
                Some(i) => match i.masks {
                    Some(m) => Some(&m),
                    None => None,
                },
                None => None,
            },
    {
        match &self.input {
            Some(i) => match &i.masks {
                Some(m) => Some(m),
                None => None,
            },
            None => None,
        }
    }

    pub fn input_detectors(&self) -> (r: Option<&DetectorMap>)
        ensures
            r == match self.input {
                Some(i) => Some(&i.models),
                None => None,
            },
    {
        match &self.input {
            Some(i) => Some(&i.models),
            None => None,
        }
    }

    pub fn output_detectors(&self) -> (r: Option<&DetectorMap>)
        ensures
            r == match self.output {
                Some(o) => Some(&o.models),
                None => None,
            },
    {
        match &self.output {
            Some(o) => Some(&o.models),
            None => None,
        }
    }
}

/// The characters of `text` within the mask `(start, end)`, both held to
/// the text's length. Mask positions count characters, not bytes.
pub open spec fn masked(text: Seq<char>, mask: (usize, usize)) -> Seq<char> {
    let from = if mask.0 <= text.len() { mask.0 as int } else { text.len() as int };
    let to = if mask.1 <= text.len() { mask.1 as int } else { text.len() as int };
    text.subrange(from, to)
}

/// Masks are well formed when none ends before it starts.
pub open spec fn masks_wf(masks: Seq<(usize, usize)>) -> bool {
    forall|i: int| 0 <= i < masks.len() ==> (#[trigger] masks[i]).0 <= masks[i].1
}

/// The regions of `text` that input detection runs on, each with the
/// offset at which it starts: the text within each mask, or, with no masks,
/// the whole text at offset 0.
pub fn apply_masks(text: String, masks: Option<&Vec<(usize, usize)>>) -> (r: Vec<(usize, String)>)
    requires
        masks is Some ==> masks_wf(masks->0@),
    ensures
        match masks {
            Some(ms) if ms@.len() > 0 => {
                &&& r@.len() == ms@.len()
                &&& forall|i: int|
                    0 <= i < r@.len() ==> (#[trigger] r@[i]).0 == ms@[i].0 && r@[i].1@ == masked(
                        text@,
                        ms@[i],
                    )
            },
            _ => r@.len() == 1 && r@[0].0 == 0 && r@[0].1@ == text@,
        },
{
    match masks {
        Some(ms) if ms.len() > 0 => {
            let len = text.as_str().unicode_len();
            let mut r: Vec<(usize, String)> = Vec::new();
            let n = ms.len();
            let mut i: usize = 0;
            while i < n
                invariant
                    n == ms@.len(),
                    len == text@.len(),
                    masks_wf(ms@),
                    i <= n,
                    r@.len() == i,
                    forall|j: int|
                        0 <= j < i ==> (#[trigger] r@[j]).0 == ms@[j].0 && r@[j].1@ == masked(
                            text@,
                            ms@[j],
                        ),
                decreases n - i,
            {
                let (start, end) = ms[i];
                assert(ms@[i as int].0 <= ms@[i as int].1);
                let from = if start <= len { start } else { len };
                let to = if end <= len { end } else { len };
                let part = text.as_str().substring_char(from, to);
                r.push((start, String::from_str(part)));
                i = i + 1;
            }
            r
        },
        _ => {
            let mut r: Vec<(usize, String)> = Vec::new();
            r.push((0, text));
            r
        },
    }
}

} // verus!
