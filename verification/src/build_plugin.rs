//! The messages of the build report, as the tools that read it expect them:
//! lines and columns counted from one, every part optional.

use crate::issue::{lemma_deep_view_empty, lemma_deep_view_push, Issue, IssueView, Severity};
use crate::javascript::Token;
use crate::source::{SourcePoint, SubgraphLocation, SubgraphLocationView};
use vstd::prelude::*;
use vstd::std_specs::convert::FromSpecImpl;

verus! {

/// How loud a [`BuildMessage`] is.
#[derive(Clone, Copy, Debug, PartialEq, Eq, Structural)]
pub enum BuildMessageLevel {
    Debug,
    Info,
    Warn,
    Error,
}

impl BuildMessageLevel {
    /// The level at which a severity is reported.
    pub open spec fn of_severity(severity: Severity) -> BuildMessageLevel {
        match severity {
            Severity::Error => BuildMessageLevel::Error,
            Severity::Warning => BuildMessageLevel::Warn,
        }
    }
}

impl BuildMessageLevel {
    /// The level at which a severity is reported.
    pub fn from_severity(severity: Severity) -> (level: BuildMessageLevel)
        ensures
            level == BuildMessageLevel::of_severity(severity),
    {
        match severity {
            Severity::Error => BuildMessageLevel::Error,
            Severity::Warning => BuildMessageLevel::Warn,
        }
    }
}

impl From<Severity> for BuildMessageLevel {
    fn from(severity: Severity) -> (level: BuildMessageLevel) {
        BuildMessageLevel::from_severity(severity)
    }
}

impl FromSpecImpl<Severity> for BuildMessageLevel {
    open spec fn obeys_from_spec() -> bool {
        true
    }

    open spec fn from_spec(severity: Severity) -> BuildMessageLevel {
        BuildMessageLevel::of_severity(severity)
    }
}

/// A position in a build message. Where it has a line and a column, they
/// are counted from one.
#[derive(Clone, Copy, Debug, PartialEq, Eq)]
pub struct BuildMessagePoint {
    pub start: Option<usize>,
    pub end: Option<usize>,
    pub column: Option<usize>,
    pub line: Option<usize>,
}

impl BuildMessagePoint {
    /// The position that reports a point: its one-indexed line and column,
    /// and no offsets.
    pub open spec fn of_point(point: SourcePoint) -> BuildMessagePoint {
        BuildMessagePoint {
            start: None,
            end: None,
            column: Some(point.one_indexed().1 as usize),
            line: Some(point.one_indexed().0 as usize),
        }
    }

    /// A line and a column that came in on a token go out as they came.
    pub proof fn lemma_token_goes_out_as_it_came(token: Token, line: usize, column: usize)
        requires
            token.line_spec() == Some(line),
            token.column_spec() == Some(column),
            line >= 1,
            column >= 1,
        ensures
            token.point() is Some,
            Self::of_point(token.point().unwrap()).line == Some(line),
            Self::of_point(token.point().unwrap()).column == Some(column),
    {
        SourcePoint::lemma_in_then_out(line, column);
    }
}

impl BuildMessagePoint {
    /// Shifts a point out: the position that reports it.
    pub fn from_point(point: SourcePoint) -> (out: BuildMessagePoint)
        ensures
            out == BuildMessagePoint::of_point(point),
    {
        let (line, column) = point.to_one_indexed();
        BuildMessagePoint { start: None, end: None, column: Some(column), line: Some(line) }
    }
}

impl From<SourcePoint> for BuildMessagePoint {
    fn from(point: SourcePoint) -> (out: BuildMessagePoint) {
        BuildMessagePoint::from_point(point)
    }
}

impl FromSpecImpl<SourcePoint> for BuildMessagePoint {
    open spec fn obeys_from_spec() -> bool {
        true
    }

    open spec fn from_spec(point: SourcePoint) -> BuildMessagePoint {
        BuildMessagePoint::of_point(point)
    }
}

/// Where in the subgraphs a build message points.
#[derive(Clone, Debug, PartialEq, Eq)]
pub struct BuildMessageLocation {
    pub subgraph: Option<String>,
    pub source: Option<String>,
    pub start: Option<BuildMessagePoint>,
    pub end: Option<BuildMessagePoint>,
}

/// What a [`BuildMessageLocation`] stands for.
pub struct BuildMessageLocationView {
    pub subgraph: Option<Seq<char>>,
    pub source: Option<Seq<char>>,
    pub start: Option<BuildMessagePoint>,
    pub end: Option<BuildMessagePoint>,
}

impl DeepView for BuildMessageLocation {
    type V = BuildMessageLocationView;

    open spec fn deep_view(&self) -> BuildMessageLocationView {
        BuildMessageLocationView {
            subgraph: self.subgraph.deep_view(),
            source: self.source.deep_view(),
            start: self.start,
            end: self.end,
        }
    }
}

impl BuildMessageLocationView {
    /// The location of the report that stands for a location of an issue:
    /// the same subgraph, both ends shifted out, and no source text.
    pub open spec fn of_location(location: SubgraphLocationView) -> BuildMessageLocationView {
        BuildMessageLocationView {
            subgraph: Some(location.subgraph),
            source: None,
            start: Some(BuildMessagePoint::of_point(location.start)),
            end: Some(BuildMessagePoint::of_point(location.end)),
        }
    }
}

impl BuildMessageLocation {
    /// The location of the report that stands for a location of an issue.
    pub fn from_location(location: SubgraphLocation) -> (out: BuildMessageLocation)
        ensures
            out.deep_view() == BuildMessageLocationView::of_location(location.deep_view()),
    {
        BuildMessageLocation {
            subgraph: Some(location.subgraph),
            source: None,
            start: Some(BuildMessagePoint::from_point(location.start)),
            end: Some(BuildMessagePoint::from_point(location.end)),
        }
    }
}

impl From<SubgraphLocation> for BuildMessageLocation {
    fn from(location: SubgraphLocation) -> (out: BuildMessageLocation)
        ensures
            out.deep_view() == BuildMessageLocationView::of_location(location.deep_view()),
    {
        BuildMessageLocation::from_location(location)
    }
}

impl FromSpecImpl<SubgraphLocation> for BuildMessageLocation {
    open spec fn obeys_from_spec() -> bool {
        false
    }

    open spec fn from_spec(location: SubgraphLocation) -> BuildMessageLocation {
        choose|out: BuildMessageLocation|
            out.deep_view() == BuildMessageLocationView::of_location(location.deep_view())
    }
}

/// One entry of the build report.
#[derive(Clone, Debug, PartialEq, Eq)]
pub struct BuildMessage {
    pub level: BuildMessageLevel,
    pub message: String,
    pub step: Option<String>,
    pub code: Option<String>,
    pub locations: Vec<BuildMessageLocation>,
    pub schema_coordinate: Option<String>,
}

/// What a [`BuildMessage`] stands for.
pub struct BuildMessageView {
    pub level: BuildMessageLevel,
    pub message: Seq<char>,
    pub step: Option<Seq<char>>,
    pub code: Option<Seq<char>>,
    pub locations: Seq<BuildMessageLocationView>,
    pub schema_coordinate: Option<Seq<char>>,
}

impl DeepView for BuildMessage {
    type V = BuildMessageView;

    open spec fn deep_view(&self) -> BuildMessageView {
        BuildMessageView {
            level: self.level,
            message: self.message@,
            step: self.step.deep_view(),
            code: self.code.deep_view(),
            locations: self.locations.deep_view(),
            schema_coordinate: self.schema_coordinate.deep_view(),
        }
    }
}

impl BuildMessageView {
    /// The entry of the report that stands for an issue: its level from the
    /// severity, its message and code as they are, its locations one for
    /// one, and neither a step nor a schema coordinate.
    pub open spec fn of_issue(issue: IssueView) -> BuildMessageView {
        BuildMessageView {
            level: BuildMessageLevel::of_severity(issue.severity),
            message: issue.message,
            step: None,
            code: Some(issue.code),
            locations: Seq::new(
                issue.locations.len(),
                |i: int| BuildMessageLocationView::of_location(issue.locations[i]),
            ),
            schema_coordinate: None,
        }
    }
}

impl BuildMessage {
    /// The entry of the report that stands for an issue.
    pub fn from_issue(issue: Issue) -> (out: BuildMessage)
        ensures
            out.deep_view() == BuildMessageView::of_issue(issue.deep_view()),
    {
        let ghost expected = BuildMessageView::of_issue(issue.deep_view()).locations;
        let mut locations: Vec<BuildMessageLocation> = Vec::new();
        proof {
            lemma_deep_view_empty(locations);
        }
        for location in it: issue.locations
            invariant
                expected == BuildMessageView::of_issue(issue.deep_view()).locations,
                locations.deep_view() == expected.take(it.index as int),
        {
            let ghost before = locations;
            let out = BuildMessageLocation::from_location(location);
            locations.push(out);
            proof {
                lemma_deep_view_push(before, locations, out);
                assert(expected.take(it.index + 1) =~= expected.take(it.index as int).push(
                    expected[it.index as int],
                ));
            }
        }
        proof {
            assert(expected.take(expected.len() as int) =~= expected);
        }
        BuildMessage {
            level: BuildMessageLevel::from_severity(issue.severity),
            message: issue.message,
            step: None,
            code: Some(issue.code),
            locations,
            schema_coordinate: None,
        }
    }
}

impl From<Issue> for BuildMessage {
    fn from(issue: Issue) -> (out: BuildMessage)
        ensures
            out.deep_view() == BuildMessageView::of_issue(issue.deep_view()),
    {
        BuildMessage::from_issue(issue)
    }
}

impl FromSpecImpl<Issue> for BuildMessage {
    open spec fn obeys_from_spec() -> bool {
        false
    }

    open spec fn from_spec(issue: Issue) -> BuildMessage {
        choose|out: BuildMessage| out.deep_view() == BuildMessageView::of_issue(issue.deep_view())
    }
}

} // verus!
