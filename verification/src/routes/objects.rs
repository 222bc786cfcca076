//! Fetching several OCA objects at once.

use vstd::prelude::*;
use crate::text::{comma_pieces, split_commas, texts};

verus! {

/// Query of the objects route: SAIDs separated by commas.
pub struct FetchObjectsParams {
    pub said: String,
}

impl FetchObjectsParams {
    /// The SAIDs asked for, in order: the pieces between the commas.
    pub fn saids(&self) -> (saids: Vec<String>)
        ensures
            texts(saids@) == comma_pieces(self.said@),
    {
        split_commas(self.said.as_str())
    }
}

} // verus!
