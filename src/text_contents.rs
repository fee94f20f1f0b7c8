//! The results of a text-contents detector over the chunks of one text
//! region: thresholding, placement in the region and tagging.

use vstd::prelude::*;

use crate::chunk::Chunk;
use crate::clients::TextContentsRequest;
use crate::config::{DetectorConfig, OrchestratorConfig};
use crate::detector_params::{effective_threshold, DetectorParams};
use crate::errors::Error;
use crate::detection::{filter_by_threshold, place_detection, placed, surfaced, sat_add, Detection};

verus! {

/// The detections that surface in the answers for the first `k` chunks,
/// each placed at `offset` plus its chunk's start and tagged with
/// `detector_id`.
pub open spec fn chunk_detections(
    chunks: Seq<Chunk>,
    response: Seq<Vec<Detection>>,
    threshold: u64,
    offset: usize,
    detector_id: String,
    k: nat,
) -> Seq<Detection>
    decreases k,
{
    if k == 0 {
        Seq::empty()
    } else {
        let i = k - 1;
        chunk_detections(chunks, response, threshold, offset, detector_id, i as nat) + surfaced(
            response[i]@,
            threshold,
        ).map_values(|d: Detection| placed(d, sat_add(chunks[i].start, offset), detector_id))
    }
}

/// The span of `d`, where given, lies within `0..=len`.
pub open spec fn span_within(d: Detection, len: int) -> bool {
    &&& (d.start is Some ==> d.start->0 <= len)
    &&& (d.end is Some ==> d.end->0 <= len)
}

/// The span of `d`, where given, lies within `offset..=offset + len`.
pub open spec fn in_region(d: Detection, offset: int, len: int) -> bool {
    &&& (d.start is Some ==> offset <= d.start->0 <= offset + len)
    &&& (d.end is Some ==> offset <= d.end->0 <= offset + len)
}

/// Placed detections stay within their region. For a region of `len`
/// characters that starts at `offset`, where each chunk lies within the
/// region's text and each reported span lies within its chunk, every
/// detection that comes back starts at or after `offset` and ends at or
/// before `offset + len`.
pub proof fn lemma_detections_within_region(
    chunks: Seq<Chunk>,
    response: Seq<Vec<Detection>>,
    threshold: u64,
    offset: usize,
    detector_id: String,
    len: nat,
    k: nat,
)
    requires
        offset + len <= usize::MAX,
        k <= chunks.len(),
        k <= response.len(),
        forall|i: int| 0 <= i < chunks.len() ==> (#[trigger] chunks[i]).start <= chunks[i].end <= len,
        forall|i: int, j: int|
            0 <= i < chunks.len() && 0 <= i < response.len() && 0 <= j < response[i]@.len()
                ==> span_within(#[trigger] response[i]@[j], chunks[i].end - chunks[i].start),
    ensures
        forall|m: int|
            0 <= m < chunk_detections(chunks, response, threshold, offset, detector_id, k).len()
                ==> in_region(
                #[trigger] chunk_detections(chunks, response, threshold, offset, detector_id, k)[m],
                offset as int,
                len as int,
            ),
    decreases k,
{
    if k > 0 {
        let i = k - 1;
        lemma_detections_within_region(chunks, response, threshold, offset, detector_id, len, i as nat);
        let prev = chunk_detections(chunks, response, threshold, offset, detector_id, i as nat);
        let base = sat_add(chunks[i].start, offset);
        let surf = surfaced(response[i]@, threshold);
        crate::detection::lemma_surfaced_exactly(response[i]@, threshold);
        let all = chunk_detections(chunks, response, threshold, offset, detector_id, k);
        let moved = surf.map_values(|d: Detection| placed(d, base, detector_id));
        assert(all == prev + moved);
        assert forall|m: int| 0 <= m < all.len() implies in_region(#[trigger] all[m], offset as int, len as int) by {
            if m >= prev.len() {
                let q = m - prev.len();
                assert(0 <= q < surf.len());
                assert(all[m] == moved[q]);
                assert(surf.contains(surf[q]));
                assert(response[i]@.contains(surf[q]));
                let j = choose|j: int| 0 <= j < response[i]@.len() && response[i]@[j] == surf[q];
                assert(span_within(response[i]@[j], chunks[i].end - chunks[i].start));
                assert(all[m] == placed(surf[q], base, detector_id));
            } else {
                assert(all[m] == prev[m]);
            }
        }
    }
}

/// Exactly the detections that reach the threshold come back. Every
/// detection returned for the first `k` chunks has a score of at least
/// `threshold`, and every detection reported on one of those chunks with
/// such a score is returned, placed in the region and tagged.
pub proof fn lemma_chunk_detections_threshold(
    chunks: Seq<Chunk>,
    response: Seq<Vec<Detection>>,
    threshold: u64,
    offset: usize,
    detector_id: String,
    k: nat,
)
    requires
        k <= chunks.len(),
        k <= response.len(),
    ensures
        forall|m: int|
            0 <= m < chunk_detections(chunks, response, threshold, offset, detector_id, k).len()
                ==> (#[trigger] chunk_detections(
                chunks,
                response,
                threshold,
                offset,
                detector_id,
                k,
            )[m]).score >= threshold,
        forall|i: int, j: int|
            0 <= i < k && 0 <= j < response[i]@.len() && (#[trigger] response[i]@[j]).score
                >= threshold ==> chunk_detections(
                chunks,
                response,
                threshold,
                offset,
                detector_id,
                k,
            ).contains(placed(response[i]@[j], sat_add(chunks[i].start, offset), detector_id)),
    decreases k,
{
    if k > 0 {
        let i0 = k - 1;
        lemma_chunk_detections_threshold(chunks, response, threshold, offset, detector_id, i0 as nat);
        let prev = chunk_detections(chunks, response, threshold, offset, detector_id, i0 as nat);
        let base = sat_add(chunks[i0].start, offset);
        let surf = surfaced(response[i0]@, threshold);
        crate::detection::lemma_surfaced_exactly(response[i0]@, threshold);
        let all = chunk_detections(chunks, response, threshold, offset, detector_id, k);
        let moved = surf.map_values(|d: Detection| placed(d, base, detector_id));
        assert(all == prev + moved);
        assert forall|m: int| 0 <= m < all.len() implies (#[trigger] all[m]).score >= threshold by {
            if m >= prev.len() {
                let q = m - prev.len();
                assert(all[m] == moved[q]);
                assert(surf.contains(surf[q]));
                assert(surf[q].score >= threshold);
                assert(moved[q] == placed(surf[q], base, detector_id));
            } else {
                assert(all[m] == prev[m]);
                assert(prev[m].score >= threshold);
            }
        }
        assert forall|i: int, j: int|
            0 <= i < k && 0 <= j < response[i]@.len() && (#[trigger] response[i]@[j]).score
                >= threshold implies all.contains(
            placed(response[i]@[j], sat_add(chunks[i].start, offset), detector_id),
        ) by {
            let x = placed(response[i]@[j], sat_add(chunks[i].start, offset), detector_id);
            if i < i0 {
                assert(prev.contains(x));
                let p = choose|p: int| 0 <= p < prev.len() && prev[p] == x;
                assert(all[p] == prev[p]);
            } else {
                assert(response[i]@.contains(response[i]@[j]));
                assert(surf.contains(response[i]@[j]));
                let q = choose|q: int| 0 <= q < surf.len() && surf[q] == response[i]@[j];
                assert(moved[q] == x);
                assert(all[prev.len() + q] == x);
            }
        }
    }
}

/// Turns a text-contents response (one list of detections per chunk, in
/// the order of `chunks`) into the detections that surface, placed in the
/// region that starts at `offset` and tagged with `detector_id`.
pub fn detections_for_chunks(
    chunks: &Vec<Chunk>,
    response: Vec<Vec<Detection>>,
    threshold: u64,
    offset: usize,
    detector_id: &String,
) -> (r: Vec<Detection>)
    ensures
        r@ == chunk_detections(
            chunks@,
            response@,
            threshold,
            offset,
            *detector_id,
            if chunks@.len() < response@.len() { chunks@.len() } else { response@.len() },
        ),
{
    let ghost resp = response@;
    let n = chunks.len();
    let total = response.len();
    let mut r: Vec<Detection> = Vec::new();
    let mut i: usize = 0;
    for answer in it: response.into_iter()
        invariant
            it.seq() == resp,
            n == chunks@.len(),
            i == it.index(),
            resp.len() == total,
            r@ == chunk_detections(
                chunks@,
                resp,
                threshold,
                offset,
                *detector_id,
                if n < it.index() { n as nat } else { it.index() as nat },
            ),
    {
        if i < n {
            let base = chunks[i].start.saturating_add(offset);
            let kept = filter_by_threshold(answer, threshold);
            let ghost before = r@;
            let ghost kept_all = kept@;
            for d in jt: kept.into_iter()
                invariant
                    jt.seq() == kept_all,
                    r@ == before + kept_all.take(jt.index() as int).map_values(
                        |d: Detection| placed(d, base, *detector_id),
                    ),
            {
                let ghost j = jt.index() as int;
                let p = place_detection(d, base, detector_id);
                r.push(p);
                assert(kept_all.take(j + 1).map_values(|d: Detection| placed(d, base, *detector_id))
                    =~= kept_all.take(j).map_values(|d: Detection| placed(d, base, *detector_id)).push(p));
            }
            assert(kept_all.take(kept_all.len() as int) =~= kept_all);
        }
        i = i + 1;
    }
    r
}

/// The configuration of detector `id`; `DetectorNotFound` where the catalog
/// does not hold it.
pub fn resolve_detector<'a>(config: &'a OrchestratorConfig, id: &String) -> (r: Result<&'a DetectorConfig, Error>)
    ensures
        match r {
            Ok(c) => config.detector(id@) == Some(*c),
            Err(e) => config.detector(id@) is None && e == Error::DetectorNotFound(*id),
        },
{
    match config.get_detector(id) {
        Some(c) => Ok(c),
        None => Err(Error::DetectorNotFound(id.clone())),
    }
}

/// The request of a text-contents detector call on `chunks` (their texts,
/// in order, with the parameters but the threshold) and the threshold that
/// then applies to its answer.
pub fn contents_request(
    chunks: &Vec<Chunk>,
    params: DetectorParams,
    default_threshold: u64,
) -> (r: (TextContentsRequest, u64))
    ensures
        r.1 == effective_threshold(params.threshold, default_threshold),
        r.0.detector_params.threshold is None,
        r.0.detector_params.params == params.params,
        r.0.contents@.len() == chunks@.len(),
        forall|i: int| 0 <= i < chunks@.len() ==> (#[trigger] r.0.contents@[i])@ == chunks@[i].text@,
{
    let mut params = params;
    let threshold = match params.pop_threshold() {
        Some(t) => t,
        None => default_threshold,
    };
    let mut contents: Vec<String> = Vec::new();
    let n = chunks.len();
    let mut i: usize = 0;
    while i < n
        invariant
            n == chunks@.len(),
            i <= n,
            contents@.len() == i,
            forall|j: int| 0 <= j < i ==> (#[trigger] contents@[j])@ == chunks@[j].text@,
        decreases n - i,
    {
        contents.push(chunks[i].text.clone());
        i = i + 1;
    }
    (TextContentsRequest::new(contents, params), threshold)
}

/// A detection surfaces exactly when its score reaches the effective
/// threshold: the one given with the call's parameters, else the detector's
/// default.
pub proof fn lemma_effective_threshold(
    threshold: Option<u64>,
    default_threshold: u64,
    answer: Seq<Detection>,
)
    ensures
        forall|d: Detection|
            surfaced(answer, effective_threshold(threshold, default_threshold)).contains(d) <==> (
            answer.contains(d) && d.score >= match threshold {
                Some(t) => t,
                None => default_threshold,
            }),
{
    crate::detection::lemma_surfaced_exactly(answer, effective_threshold(threshold, default_threshold));
}

} // verus!
