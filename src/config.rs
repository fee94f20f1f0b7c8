//! The part of the orchestrator's configuration that the coordination logic
//! reads: the detector catalog.

use vstd::prelude::*;

verus! {

/// Detector categories, by the shape of their API.
#[derive(Debug, Clone, Copy, PartialEq, Eq, Structural)]
pub enum DetectorType {
    TextContents,
    TextChat,
    TextContextDoc,
    TextGeneration,
}

/// Configuration of one detector.
#[derive(Debug, Clone)]
pub struct DetectorConfig {
    /// Category of the detector
    pub detector_type: DetectorType,
    /// Chunker that splits text for this detector
    pub chunker_id: String,
    /// Threshold that applies where a call gives none, in millionths
    pub default_threshold: u64,
}

/// The detector catalog: detector ids with their configuration.
#[derive(Debug, Clone)]
pub struct OrchestratorConfig {
    pub detectors: Vec<(String, DetectorConfig)>,
}

/// Index of the first entry of `entries` whose id is `id`, if any.
pub open spec fn first_index_of<T>(entries: Seq<(String, T)>, id: Seq<char>) -> Option<int> {
    if exists|i: int| 0 <= i < entries.len() && (#[trigger] entries[i]).0@ == id {
        let i = choose|i: int|
            0 <= i < entries.len() && (#[trigger] entries[i]).0@ == id && forall|j: int|
                0 <= j < i ==> (#[trigger] entries[j]).0@ != id;
        Some(i)
    } else {
        None
    }
}

/// Position of the first entry of `entries` whose id is `id`, if any.
pub fn first_position<T>(entries: &Vec<(String, T)>, id: &String) -> (r: Option<usize>)
    ensures
        match r {
            Some(i) => first_index_of(entries@, id@) == Some(i as int) && i < entries@.len()
                && entries@[i as int].0@ == id@,
            None => first_index_of(entries@, id@) is None,
        },
{
    let n = entries.len();
    let mut i: usize = 0;
    while i < n
        invariant
            n == entries@.len(),
            i <= n,
            forall|j: int| 0 <= j < i ==> (#[trigger] entries@[j]).0@ != id@,
        decreases n - i,
    {
        if entries[i].0 == *id {
            let ghost e = entries@;
            proof {
                let k = choose|k: int|
                    0 <= k < e.len() && (#[trigger] e[k]).0@ == id@ && forall|j: int|
                        0 <= j < k ==> (#[trigger] e[j]).0@ != id@;
                assert(k == i as int) by {
                    if k > i {
                        assert(e[i as int].0@ == id@);
                    }
                }
            }
            return Some(i);
        }
        i = i + 1;
    }
    None
}

impl OrchestratorConfig {
    /// The configuration of the detector `id`, if the catalog holds it.
    pub open spec fn detector(&self, id: Seq<char>) -> Option<DetectorConfig> {
        match first_index_of(self.detectors@, id) {
            Some(i) => Some(self.detectors@[i].1),
            None => None,
        }
    }

    /// Looks up the detector `id`.
    pub fn get_detector(&self, id: &String) -> (r: Option<&DetectorConfig>)
        ensures
            match r {
                Some(c) => self.detector(id@) == Some(*c),
                None => self.detector(id@) is None,
            },
    {
        match first_position(&self.detectors, id) {
            Some(i) => Some(&self.detectors[i].1),
            None => None,
        }
    }
}

} // verus!
