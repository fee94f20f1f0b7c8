//! Chunks: the units into which a chunker splits a text or a run of
//! generation frames.

use vstd::prelude::*;

verus! {

/// A chunk of text produced by a chunker.
///
/// `input_start_index..=input_end_index` are the generation frames that the
/// chunk spans; `start..end` are its character offsets within the text of
/// those frames taken together.
#[derive(Debug)]
pub struct Chunk {
    pub input_start_index: usize,
    pub input_end_index: usize,
    pub start: usize,
    pub end: usize,
    pub text: String,
}

impl Chunk {
    /// The chunk's indexes are ordered.
    pub open spec fn wf(&self) -> bool {
        &&& self.input_start_index <= self.input_end_index
        &&& self.start <= self.end
    }
}

impl Clone for Chunk {
    fn clone(&self) -> (r: Self)
        ensures
            r == *self,
    {
        Chunk {
            input_start_index: self.input_start_index,
            input_end_index: self.input_end_index,
            start: self.start,
            end: self.end,
            text: self.text.clone(),
        }
    }
}

} // verus!
