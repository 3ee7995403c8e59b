//! Messages from a background translation to the interface.

use vstd::prelude::*;

use crate::model::TranslateOut;

verus! {

/// The outcome of one background translation.
#[derive(Debug)]
pub struct UiMsg {
    /// The number of the request this answers, so that stale answers can be dropped.
    pub seq: u64,
    pub result: Result<TranslateOut, String>,
}

} // verus!
