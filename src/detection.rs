//! Detections produced by detector services, score thresholding, offset
//! tagging and ordering.

use vstd::prelude::*;

use crate::sorting::{lemma_insert_at, sort_by};

verus! {

/// One million: a score of this value stands for certainty.
pub const SCORE_SCALE: u64 = 1_000_000;

/// Additional detection evidence.
#[derive(Debug)]
pub struct Evidence {
    /// Evidence name
    pub name: String,
    /// Evidence value
    pub value: Option<String>,
    /// Evidence score, in millionths
    pub score: Option<u64>,
}

/// Detection evidence.
#[derive(Debug)]
pub struct DetectionEvidence {
    /// Evidence name
    pub name: String,
    /// Evidence value
    pub value: Option<String>,
    /// Evidence score, in millionths
    pub score: Option<u64>,
    /// Additional evidence
    pub evidence: Vec<Evidence>,
}

/// A detection.
#[derive(Debug)]
pub struct Detection {
    /// Start index of the detection
    pub start: Option<usize>,
    /// End index of the detection
    pub end: Option<usize>,
    /// Text corresponding to the detection
    pub text: Option<String>,
    /// ID of the detector
    pub detector_id: Option<String>,
    /// Type of detection
    pub detection_type: String,
    /// Detection class
    pub detection: String,
    /// Confidence level of the detection class, in millionths
    /// (`SCORE_SCALE` is certainty)
    pub score: u64,
    /// Detection evidence
    pub evidence: Vec<DetectionEvidence>,
    /// Detection metadata: keys with their JSON-encoded values
    pub metadata: Vec<(String, String)>,
}

impl Clone for Evidence {
    fn clone(&self) -> (r: Self)
        ensures
            r == *self,
    {
        let value = match &self.value {
            Some(v) => Some(v.clone()),
            None => None,
        };
        Evidence { name: self.name.clone(), value, score: self.score }
    }
}

/// A copy of detection evidence: the same fields, the same further evidence.
pub open spec fn same_evidence(a: DetectionEvidence, b: DetectionEvidence) -> bool {
    &&& a.name == b.name
    &&& a.value == b.value
    &&& a.score == b.score
    &&& a.evidence@ == b.evidence@
}

impl Clone for DetectionEvidence {
    fn clone(&self) -> (r: Self)
        ensures
            same_evidence(r, *self),
    {
        let value = match &self.value {
            Some(v) => Some(v.clone()),
            None => None,
        };
        let evidence = self.evidence.clone();
        assert(evidence@ =~= self.evidence@);
        DetectionEvidence { name: self.name.clone(), value, score: self.score, evidence }
    }
}

/// A copy of a detection: the same fields, evidence that copies the
/// original's item by item, the same metadata.
pub open spec fn same_detection(a: Detection, b: Detection) -> bool {
    &&& a.start == b.start
    &&& a.end == b.end
    &&& a.text == b.text
    &&& a.detector_id == b.detector_id
    &&& a.detection_type == b.detection_type
    &&& a.detection == b.detection
    &&& a.score == b.score
    &&& a.evidence@.len() == b.evidence@.len()
    &&& forall|i: int|
        0 <= i < a.evidence@.len() ==> same_evidence(#[trigger] a.evidence@[i], b.evidence@[i])
    &&& a.metadata@ == b.metadata@
}

/// Copies of detections, item by item.
pub open spec fn same_detections(a: Seq<Detection>, b: Seq<Detection>) -> bool {
    &&& a.len() == b.len()
    &&& forall|i: int| 0 <= i < a.len() ==> same_detection(#[trigger] a[i], b[i])
}

fn copy_opt_string(s: &Option<String>) -> (r: Option<String>)
    ensures
        r == *s,
{
    match s {
        Some(v) => Some(v.clone()),
        None => None,
    }
}

impl Clone for Detection {
    fn clone(&self) -> (r: Self)
        ensures
            same_detection(r, *self),
    {
        let evidence = self.evidence.clone();
        assert forall|i: int| 0 <= i < evidence@.len() implies same_evidence(
            #[trigger] evidence@[i],
            self.evidence@[i],
        ) by {
            assert(cloned(self.evidence@[i], evidence@[i]));
        }
        let mut metadata: Vec<(String, String)> = Vec::new();
        let n = self.metadata.len();
        let mut i: usize = 0;
        while i < n
            invariant
                n == self.metadata@.len(),
                i <= n,
                metadata@ == self.metadata@.take(i as int),
            decreases n - i,
        {
            let (k, v) = &self.metadata[i];
            metadata.push((k.clone(), v.clone()));
            assert(metadata@ =~= self.metadata@.take(i + 1));
            i = i + 1;
        }
        assert(metadata@ =~= self.metadata@);
        Detection {
            start: self.start,
            end: self.end,
            text: copy_opt_string(&self.text),
            detector_id: copy_opt_string(&self.detector_id),
            detection_type: self.detection_type.clone(),
            detection: self.detection.clone(),
            score: self.score,
            evidence,
            metadata,
        }
    }
}

/// Copies optional detections.
pub fn copy_detections(o: &Option<Vec<Detection>>) -> (r: Option<Vec<Detection>>)
    ensures
        r is Some <==> o is Some,
        r is Some ==> same_detections(r->0@, o->0@),
{
    match o {
        Some(v) => {
            let c = v.clone();
            assert forall|i: int| 0 <= i < c@.len() implies same_detection(#[trigger] c@[i], v@[i]) by {
                assert(cloned(v@[i], c@[i]));
            }
            Some(c)
        },
        None => None,
    }
}

/// The detections of `s`, in order, whose score reaches `threshold`.
pub open spec fn surfaced(s: Seq<Detection>, threshold: u64) -> Seq<Detection>
    decreases s.len(),
{
    if s.len() == 0 {
        Seq::empty()
    } else if s.last().score >= threshold {
        surfaced(s.drop_last(), threshold).push(s.last())
    } else {
        surfaced(s.drop_last(), threshold)
    }
}

/// Keeps the detections whose score is at least `threshold`, in order.
pub fn filter_by_threshold(detections: Vec<Detection>, threshold: u64) -> (r: Vec<Detection>)
    ensures
        r@ == surfaced(detections@, threshold),
{
    let ghost all = detections@;
    let mut r: Vec<Detection> = Vec::new();
    for d in it: detections.into_iter()
        invariant
            it.seq() == all,
            r@ == surfaced(all.take(it.index() as int), threshold),
    {
        let ghost k = it.index() as int;
        assert(all.take(k + 1).drop_last() =~= all.take(k));
        if d.score >= threshold {
            r.push(d);
        }
    }
    assert(all.take(all.len() as int) =~= all);
    r
}

/// A detection surfaces exactly when its score reaches the threshold: the
/// detections kept from `s` are those of `s` whose score is at least
/// `threshold`.
pub proof fn lemma_surfaced_exactly(s: Seq<Detection>, threshold: u64)
    ensures
        forall|d: Detection|
            #![trigger surfaced(s, threshold).contains(d)]
            #![trigger s.contains(d)]
            surfaced(s, threshold).contains(d) <==> (s.contains(d) && d.score >= threshold),
    decreases s.len(),
{
    if s.len() > 0 {
        lemma_surfaced_exactly(s.drop_last(), threshold);
        assert(s =~= s.drop_last().push(s.last()));
        let p = surfaced(s.drop_last(), threshold);
        assert forall|d: Detection|
            surfaced(s, threshold).contains(d) <==> (s.contains(d) && d.score >= threshold) by {
            if s.contains(d) && d.score >= threshold {
                let i = choose|i: int| 0 <= i < s.len() && s[i] == d;
                if i < s.len() - 1 {
                    assert(s.drop_last()[i] == d);
                    assert(s.drop_last().contains(d));
                    assert(p.contains(d));
                    let j = choose|j: int| 0 <= j < p.len() && p[j] == d;
                    assert(p.push(s.last())[j] == d);
                } else {
                    assert(surfaced(s, threshold).last() == d);
                }
            }
            if surfaced(s, threshold).contains(d) {
                let q = surfaced(s, threshold);
                let i = choose|i: int| 0 <= i < q.len() && q[i] == d;
                if i < p.len() {
                    assert(p[i] == d);
                    assert(p.contains(d));
                    assert(s.drop_last().contains(d));
                    let j = choose|j: int| 0 <= j < s.drop_last().len() && s.drop_last()[j] == d;
                    assert(s[j] == d);
                } else {
                    assert(d == s.last());
                    assert(s[s.len() - 1] == d);
                }
            }
        }
    }
}

/// `a + b`, held at `usize::MAX` where the sum would not fit.
pub open spec fn sat_add(a: usize, b: usize) -> usize {
    if a + b <= usize::MAX {
        (a + b) as usize
    } else {
        usize::MAX
    }
}

/// An optional position moved forward by `base`.
pub open spec fn shifted(p: Option<usize>, base: usize) -> Option<usize> {
    match p {
        Some(x) => Some(sat_add(x, base)),
        None => None,
    }
}

/// A detection placed in the text it came from: its span moved forward by
/// `base` and its detector named.
pub open spec fn placed(d: Detection, base: usize, detector_id: String) -> Detection {
    Detection {
        start: shifted(d.start, base),
        end: shifted(d.end, base),
        detector_id: Some(detector_id),
        ..d
    }
}

fn shift_position(p: Option<usize>, base: usize) -> (r: Option<usize>)
    ensures
        r == shifted(p, base),
{
    match p {
        Some(x) => Some(x.saturating_add(base)),
        None => None,
    }
}

/// Moves the span of `d` forward by `base` and records `detector_id` on it.
pub fn place_detection(d: Detection, base: usize, detector_id: &String) -> (r: Detection)
    ensures
        r == placed(d, base, *detector_id),
{
    Detection {
        start: shift_position(d.start, base),
        end: shift_position(d.end, base),
        detector_id: Some(detector_id.clone()),
        ..d
    }
}

/// The ordering key of a detection: its start, with no start ordered after
/// every start.
pub open spec fn start_key(d: Detection) -> int {
    match d.start {
        Some(s) => s as int,
        None => usize::MAX + 1,
    }
}

/// Orders detections by `start_key`.
pub open spec fn by_start() -> spec_fn(Detection) -> int {
    |d: Detection| start_key(d)
}

fn starts_after(a: &Detection, b: &Detection) -> (r: bool)
    ensures
        r == (start_key(*a) > start_key(*b)),
{
    match (a.start, b.start) {
        (Some(x), Some(y)) => x > y,
        (None, Some(_)) => true,
        (_, None) => false,
    }
}

/// Sorts detections by start, ascending, those without a start last; the
/// sort is stable.
pub fn sort_by_start(detections: Vec<Detection>) -> (r: Vec<Detection>)
    ensures
        r@ == sort_by(detections@, by_start()),
{
    let ghost all = detections@;
    let mut r: Vec<Detection> = Vec::new();
    for x in it: detections.into_iter()
        invariant
            it.seq() == all,
            r@ == sort_by(all.take(it.index() as int), by_start()),
    {
        let ghost k = it.index() as int;
        let mut p = r.len();
        while p > 0 && starts_after(&r[p - 1], &x)
            invariant
                p <= r.len(),
                forall|j: int| p <= j < r.len() ==> start_key(#[trigger] r@[j]) > start_key(x),
            decreases p,
        {
            p = p - 1;
        }
        proof {
            lemma_insert_at(r@, x, by_start(), p as int);
            assert(all.take(k + 1).drop_last() =~= all.take(k));
        }
        let ghost before = r@;
        r.insert(p, x);
        assert(r@ =~= before.take(p as int).push(x) + before.skip(p as int));
    }
    assert(all.take(all.len() as int) =~= all);
    r
}

/// An array of detections.
#[derive(Debug, Clone)]
pub struct Detections(pub Vec<Detection>);

impl Detections {
    pub fn new() -> (r: Self)
        ensures
            r.0@.len() == 0,
    {
        Detections(Vec::new())
    }

    pub fn from_vec(detections: Vec<Detection>) -> (r: Self)
        ensures
            r.0 == detections,
    {
        Detections(detections)
    }

    pub fn into_vec(self) -> (r: Vec<Detection>)
        ensures
            r == self.0,
    {
        self.0
    }

    pub fn len(&self) -> (r: usize)
        ensures
            r == self.0@.len(),
    {
        self.0.len()
    }

    pub fn is_empty(&self) -> (r: bool)
        ensures
            r == (self.0@.len() == 0),
    {
        self.0.len() == 0
    }
}

} // verus!
