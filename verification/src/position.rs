use vstd::prelude::*;
use core::cmp::Ordering;
use vstd::std_specs::cmp::PartialOrdSpec;

verus! {

/// Position in a text document expressed as zero-based line and character offset.
/// A position is between two characters like an 'insert' cursor in an editor.
#[derive(Debug, Eq, PartialEq, Structural, Ord, Copy, Clone, Default)]
pub struct Position {
    /// Line position in a document (zero-based).
    pub line: u32,
    /// Character offset on a line in a document (zero-based). A value greater
    /// than the line length defaults back to the line length.
    pub character: u32,
}

impl Position {
    pub fn new(line: u32, character: u32) -> (res: Position)
        ensures
            res.line == line,
            res.character == character,
    {
        Position { line, character }
    }
}

/// The order of positions in a document: by line, then by character.
pub open spec fn position_order(a: Position, b: Position) -> Ordering {
    if a.line < b.line {
        Ordering::Less
    } else if a.line > b.line {
        Ordering::Greater
    } else if a.character < b.character {
        Ordering::Less
    } else if a.character > b.character {
        Ordering::Greater
    } else {
        Ordering::Equal
    }
}

impl PartialOrd for Position {
    fn partial_cmp(&self, other: &Position) -> (res: Option<Ordering>) {
        if self.line < other.line {
            Some(Ordering::Less)
        } else if self.line > other.line {
            Some(Ordering::Greater)
        } else if self.character < other.character {
            Some(Ordering::Less)
        } else if self.character > other.character {
            Some(Ordering::Greater)
        } else {
            Some(Ordering::Equal)
        }
    }
}

impl vstd::std_specs::cmp::PartialOrdSpecImpl for Position {
    open spec fn obeys_partial_cmp_spec() -> bool {
        true
    }

    open spec fn partial_cmp_spec(&self, other: &Position) -> Option<Ordering> {
        Some(position_order(*self, *other))
    }
}

/// Positions are ordered lexicographically: first by line, and on the same
/// line by character.
pub proof fn lemma_position_order_lexicographic(a: Position, b: Position)
    ensures
        a.line < b.line ==> a.partial_cmp_spec(&b) == Some(Ordering::Less),
        a.line > b.line ==> a.partial_cmp_spec(&b) == Some(Ordering::Greater),
        a.line == b.line && a.character < b.character ==> a.partial_cmp_spec(&b) == Some(Ordering::Less),
        a.line == b.line && a.character > b.character ==> a.partial_cmp_spec(&b) == Some(Ordering::Greater),
        a.line == b.line && a.character == b.character ==> a.partial_cmp_spec(&b) == Some(Ordering::Equal),
        a.line < b.line ==> position_order(a, b) == Ordering::Less,
        a.line == b.line && a.character < b.character ==> position_order(a, b) == Ordering::Less,
{
}

/// Two positions compare equal exactly when they are the same position.
pub proof fn lemma_position_order_equal(a: Position, b: Position)
    ensures
        (position_order(a, b) == Ordering::Equal) <==> (a == b),
{
}

/// Swapping the operands reverses the comparison.
pub proof fn lemma_position_order_antisymmetric(a: Position, b: Position)
    ensures
        (position_order(a, b) == Ordering::Less) <==> (position_order(b, a) == Ordering::Greater),
{
}

/// The order of positions is transitive.
pub proof fn lemma_position_order_transitive(a: Position, b: Position, c: Position)
    requires
        position_order(a, b) == Ordering::Less,
        position_order(b, c) == Ordering::Less,
    ensures
        position_order(a, c) == Ordering::Less,
{
}

/// A range in a text document expressed as (zero-based) start and end positions.
/// The end position is exclusive.
#[derive(Debug, Eq, PartialEq, Structural, Copy, Clone, Default)]
pub struct Range {
    /// The range's start position.
    pub start: Position,
    /// The range's end position.
    pub end: Position,
}

impl Range {
    pub fn new(start: Position, end: Position) -> (res: Range)
        ensures
            res.start == start,
            res.end == end,
    {
        Range { start, end }
    }
}

} // verus!
