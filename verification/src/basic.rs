use vstd::prelude::*;
use url::Url;
use crate::{Range};

verus! {

/// A request or progress identifier: either a number or a string.
#[derive(Debug, Eq, Hash, PartialEq, Clone)]
pub enum NumberOrString {
    Number(i32),
    String(String),
}

/// Parameters of a `$/cancelRequest` notification.
#[derive(Debug, Eq, PartialEq, Clone)]
pub struct CancelParams {
    /// The request id to cancel.
    pub id: NumberOrString,
}

/// A location inside a resource, such as a line inside a text file.
#[derive(Debug, Eq, PartialEq, Clone)]
pub struct Location {
    pub uri: Url,
    pub range: Range,
}

impl Location {
    pub fn new(uri: Url, range: Range) -> (res: Location)
        ensures
            res.uri == uri,
            res.range == range,
    {
        Location { uri, range }
    }
}

/// A link between a source and a target location.
#[derive(Debug, Eq, PartialEq, Clone)]
pub struct LocationLink {
    /// Span of the origin of this link.
    pub origin_selection_range: Option<Range>,
    /// The target resource identifier of this link.
    pub target_uri: Url,
    /// The full target range of this link.
    pub target_range: Range,
    /// The span of this link.
    pub target_selection_range: Range,
}

/// A value of one of two types.
#[derive(Debug, Eq, PartialEq, Clone)]
pub enum OneOf<A, B> {
    Left(A),
    Right(B),
}

} // verus!
