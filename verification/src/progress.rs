use vstd::prelude::*;
use crate::{NumberOrString};

verus! {

/// A token that reports progress.
pub type ProgressToken = NumberOrString;

/// A parameter literal that passes a work done progress token.
#[derive(Debug, Eq, PartialEq, Clone, Default)]
pub struct WorkDoneProgressParams {
    /// An optional token to report work done progress.
    pub work_done_token: Option<ProgressToken>,
}

/// A parameter literal that passes a partial result token.
#[derive(Debug, Eq, PartialEq, Default, Clone)]
pub struct PartialResultParams {
    /// An optional token to report partial results.
    pub partial_result_token: Option<ProgressToken>,
}

} // verus!
