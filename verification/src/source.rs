//! Positions in schema text.
//!
//! Inside the library every position counts lines and columns from zero.
//! The engines around it count from one, so a position is shifted once on
//! the way in and once on the way out, and the two shifts undo each other.

use vstd::prelude::*;

verus! {

/// A line and a column in schema text, both counted from zero.
///
/// Every point has a one-indexed form that fits the machine word: neither
/// field is `usize::MAX`.
#[derive(Clone, Copy, Debug, PartialEq, Eq, Hash)]
pub struct SourcePoint {
    line: usize,
    column: usize,
}

impl SourcePoint {
    #[verifier::type_invariant]
    spec fn has_one_indexed_form(self) -> bool {
        self.line < usize::MAX && self.column < usize::MAX
    }

    /// The line, counted from zero.
    pub closed spec fn line_spec(&self) -> usize {
        self.line
    }

    /// The column, counted from zero.
    pub closed spec fn column_spec(&self) -> usize {
        self.column
    }

    /// The point that the one-indexed pair `(line, column)` names.
    pub closed spec fn zero_indexed(line: int, column: int) -> SourcePoint
        recommends
            1 <= line <= usize::MAX,
            1 <= column <= usize::MAX,
    {
        SourcePoint { line: (line - 1) as usize, column: (column - 1) as usize }
    }

    /// The one-indexed pair that names this point.
    pub open spec fn one_indexed(&self) -> (int, int) {
        (self.line_spec() + 1, self.column_spec() + 1)
    }

    /// What `zero_indexed` holds: each coordinate less one.
    pub proof fn lemma_zero_indexed(line: int, column: int)
        requires
            1 <= line <= usize::MAX,
            1 <= column <= usize::MAX,
        ensures
            Self::zero_indexed(line, column).line_spec() == line - 1,
            Self::zero_indexed(line, column).column_spec() == column - 1,
    {
    }

    /// Two points with the same line and the same column are one point.
    pub proof fn lemma_same_coordinates(p: SourcePoint, q: SourcePoint)
        requires
            p.line_spec() == q.line_spec(),
            p.column_spec() == q.column_spec(),
        ensures
            p == q,
    {
    }

    /// A one-indexed position, shifted in and then out again, is unchanged.
    pub proof fn lemma_in_then_out(line: usize, column: usize)
        requires
            line >= 1,
            column >= 1,
        ensures
            Self::zero_indexed(line as int, column as int).one_indexed() == (
                line as int,
                column as int,
            ),
    {
    }

    /// A point, shifted out and then in again, is unchanged.
    pub proof fn lemma_out_then_in(p: SourcePoint)
        requires
            p.line_spec() < usize::MAX,
            p.column_spec() < usize::MAX,
        ensures
            Self::zero_indexed(p.one_indexed().0, p.one_indexed().1) == p,
    {
    }

    /// The point at a zero-indexed line and column, unless one of them is
    /// the largest machine word, which has no one-indexed form.
    pub fn new(line: usize, column: usize) -> (p: Option<SourcePoint>)
        ensures
            p is Some <==> line < usize::MAX && column < usize::MAX,
            p matches Some(q) ==> q.line_spec() == line && q.column_spec() == column,
    {
        if line < usize::MAX && column < usize::MAX {
            Some(SourcePoint { line, column })
        } else {
            None
        }
    }

    /// Shifts a one-indexed position in. Zero is no one-indexed coordinate.
    pub fn from_one_indexed(line: usize, column: usize) -> (p: Option<SourcePoint>)
        ensures
            p is Some <==> line >= 1 && column >= 1,
            p is Some ==> p == Some(Self::zero_indexed(line as int, column as int)),
    {
        if line >= 1 && column >= 1 {
            Some(SourcePoint { line: line - 1, column: column - 1 })
        } else {
            None
        }
    }

    /// Shifts this point out: the one-indexed line and column.
    pub fn to_one_indexed(&self) -> (pair: (usize, usize))
        ensures
            (pair.0 as int, pair.1 as int) == self.one_indexed(),
    {
        proof {
            use_type_invariant(self);
        }
        (self.line + 1, self.column + 1)
    }

    #[verifier::when_used_as_spec(line_spec)]
    pub fn line(&self) -> (line: usize)
        ensures
            line == self.line_spec(),
            line < usize::MAX,
    {
        proof {
            use_type_invariant(self);
        }
        self.line
    }

    #[verifier::when_used_as_spec(column_spec)]
    pub fn column(&self) -> (column: usize)
        ensures
            column == self.column_spec(),
            column < usize::MAX,
    {
        proof {
            use_type_invariant(self);
        }
        self.column
    }
}

/// A stretch of one subgraph's schema text.
#[derive(Clone, Debug, PartialEq, Eq, Hash)]
pub struct SubgraphLocation {
    pub subgraph: String,
    pub start: SourcePoint,
    pub end: SourcePoint,
}

/// What a [`SubgraphLocation`] stands for.
pub struct SubgraphLocationView {
    pub subgraph: Seq<char>,
    pub start: SourcePoint,
    pub end: SourcePoint,
}

impl DeepView for SubgraphLocation {
    type V = SubgraphLocationView;

    open spec fn deep_view(&self) -> SubgraphLocationView {
        SubgraphLocationView { subgraph: self.subgraph@, start: self.start, end: self.end }
    }
}

} // verus!
