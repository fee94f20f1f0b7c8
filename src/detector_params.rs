//! Per-call detector parameters.

use vstd::prelude::*;

verus! {

/// The same parameters.
pub open spec fn same_params(a: DetectorParams, b: DetectorParams) -> bool {
    a.threshold == b.threshold && a.params@ == b.params@
}

/// Detector parameters: an optional score threshold, which the orchestrator
/// applies itself, and the other parameters, which are forwarded to the
/// detector as keys with their JSON-encoded values.
#[derive(Debug)]
pub struct DetectorParams {
    /// Threshold to filter detector results by score, in millionths
    pub threshold: Option<u64>,
    /// The remaining parameters, in key order
    pub params: Vec<(String, String)>,
}

/// The threshold that applies to a detector call: the one given with the
/// call's parameters, else the detector's default.
pub open spec fn effective_threshold(threshold: Option<u64>, default_threshold: u64) -> u64 {
    match threshold {
        Some(t) => t,
        None => default_threshold,
    }
}

impl Clone for DetectorParams {
    fn clone(&self) -> (r: Self)
        ensures
            same_params(r, *self),
    {
        let mut params: Vec<(String, String)> = Vec::new();
        let n = self.params.len();
        let mut i: usize = 0;
        while i < n
            invariant
                n == self.params@.len(),
                i <= n,
                params@ == self.params@.take(i as int),
            decreases n - i,
        {
            let (k, v) = &self.params[i];
            params.push((k.clone(), v.clone()));
            assert(params@ =~= self.params@.take(i + 1));
            i = i + 1;
        }
        assert(params@ =~= self.params@);
        DetectorParams { threshold: self.threshold, params }
    }
}

impl DetectorParams {
    pub fn new() -> (r: Self)
        ensures
            r.threshold is None,
            r.params@.len() == 0,
    {
        DetectorParams { threshold: None, params: Vec::new() }
    }

    /// Takes the threshold out of the parameters.
    pub fn pop_threshold(&mut self) -> (r: Option<u64>)
        ensures
            r == old(self).threshold,
            final(self).threshold is None,
            final(self).params == old(self).params,
    {
        let t = self.threshold;
        self.threshold = None;
        t
    }
}

} // verus!
