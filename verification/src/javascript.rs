//! What the JavaScript composition engine hands over: subgraph definitions
//! going in, errors and hints with their syntax nodes coming back, and the
//! way each of them becomes an [`Issue`].
//!
//! The engine counts lines and columns from one. A [`Token`] keeps them as
//! they came; [`SubgraphLocation::from_ast`] shifts them in.

use crate::issue::{lemma_deep_view_empty, lemma_deep_view_push, Issue, IssueView, Severity};
use crate::source::{SourcePoint, SubgraphLocation, SubgraphLocationView};
use vstd::prelude::*;
use vstd::std_specs::convert::FromSpecImpl;

verus! {

/// Everything composition needs to know about one subgraph.
#[derive(Clone, Debug, PartialEq, Eq)]
pub struct SubgraphDefinition {
    /// The name of the subgraph, used in the composed schema and in
    /// diagnostics.
    pub name: String,
    /// The URL where the subgraph can be reached at run time.
    pub url: String,
    /// The schema of the subgraph, as text.
    pub sdl: String,
}

/// What a [`SubgraphDefinition`] stands for.
pub struct SubgraphDefinitionView {
    pub name: Seq<char>,
    pub url: Seq<char>,
    pub sdl: Seq<char>,
}

impl DeepView for SubgraphDefinition {
    type V = SubgraphDefinitionView;

    open spec fn deep_view(&self) -> SubgraphDefinitionView {
        SubgraphDefinitionView { name: self.name@, url: self.url@, sdl: self.sdl@ }
    }
}

/// One end of a syntax node: a line and a column counted from one, each of
/// which the engine may have left out.
#[derive(Clone, Copy, Debug, PartialEq, Eq, Hash)]
pub struct Token {
    column: Option<usize>,
    line: Option<usize>,
}

impl Token {
    #[verifier::type_invariant]
    spec fn counted_from_one(self) -> bool {
        &&& self.line matches Some(line) ==> line >= 1
        &&& self.column matches Some(column) ==> column >= 1
    }

    /// The one-indexed line, where the engine gave one.
    pub closed spec fn line_spec(&self) -> Option<usize> {
        self.line
    }

    /// The one-indexed column, where the engine gave one.
    pub closed spec fn column_spec(&self) -> Option<usize> {
        self.column
    }

    /// The point this token names, where it has both a line and a column.
    pub open spec fn point(&self) -> Option<SourcePoint> {
        match (self.line_spec(), self.column_spec()) {
            (Some(line), Some(column)) => Some(
                SourcePoint::zero_indexed(line as int, column as int),
            ),
            _ => None,
        }
    }

    /// A token with the given line and column. Zero is no one-indexed
    /// coordinate, so a token cannot hold it.
    pub fn new(line: Option<usize>, column: Option<usize>) -> (token: Option<Token>)
        ensures
            token is Some <==> line != Some(0usize) && column != Some(0usize),
            token matches Some(t) ==> t.line_spec() == line && t.column_spec() == column,
    {
        let line_fits = match line {
            Some(n) => n >= 1,
            None => true,
        };
        let column_fits = match column {
            Some(n) => n >= 1,
            None => true,
        };
        if line_fits && column_fits {
            Some(Token { column, line })
        } else {
            None
        }
    }

    #[verifier::when_used_as_spec(line_spec)]
    pub fn line(&self) -> (line: Option<usize>)
        ensures
            line == self.line_spec(),
            line matches Some(n) ==> n >= 1,
    {
        proof {
            use_type_invariant(self);
        }
        self.line
    }

    #[verifier::when_used_as_spec(column_spec)]
    pub fn column(&self) -> (column: Option<usize>)
        ensures
            column == self.column_spec(),
            column matches Some(n) ==> n >= 1,
    {
        proof {
            use_type_invariant(self);
        }
        self.column
    }

    /// Shifts this token in: the zero-indexed point it names, or nothing
    /// where the line or the column is missing.
    pub fn to_point(&self) -> (point: Option<SourcePoint>)
        ensures
            point == self.point(),
    {
        match (self.line(), self.column()) {
            (Some(line), Some(column)) => SourcePoint::from_one_indexed(line, column),
            _ => None,
        }
    }
}

/// Where a syntax node starts and ends.
#[derive(Clone, Copy, Debug, PartialEq, Eq, Hash)]
pub struct Location {
    pub start_token: Token,
    pub end_token: Token,
}

/// A syntax node that an error or a hint points at.
#[derive(Clone, Debug, PartialEq, Eq, Hash)]
pub struct SubgraphASTNode {
    /// Where the node starts and ends, where the engine gave it.
    pub loc: Option<Location>,
    pub subgraph: Option<String>,
}

/// What a [`SubgraphASTNode`] stands for.
pub struct SubgraphASTNodeView {
    pub loc: Option<Location>,
    pub subgraph: Option<Seq<char>>,
}

impl DeepView for SubgraphASTNode {
    type V = SubgraphASTNodeView;

    open spec fn deep_view(&self) -> SubgraphASTNodeView {
        SubgraphASTNodeView { loc: self.loc, subgraph: self.subgraph.deep_view() }
    }
}

impl SubgraphASTNodeView {
    /// The location this node gives: its subgraph's name, or the empty name
    /// where it has none, with both ends shifted in. A node without a start
    /// and an end, or with an end that lacks its line or its column, gives
    /// no location.
    pub open spec fn location(self) -> Option<SubgraphLocationView> {
        match self.loc {
            None => None,
            Some(loc) => match (loc.start_token.point(), loc.end_token.point()) {
                (Some(start), Some(end)) => Some(
                    SubgraphLocationView {
                        subgraph: match self.subgraph {
                            Some(name) => name,
                            None => Seq::empty(),
                        },
                        start,
                        end,
                    },
                ),
                _ => None,
            },
        }
    }
}

/// The locations that a list of nodes gives, in the nodes' order. A node
/// that gives none is left out.
pub open spec fn locations_of(nodes: Seq<SubgraphASTNodeView>) -> Seq<SubgraphLocationView>
    decreases nodes.len(),
{
    if nodes.len() == 0 {
        Seq::empty()
    } else {
        let before = locations_of(nodes.drop_last());
        match nodes.last().location() {
            Some(location) => before.push(location),
            None => before,
        }
    }
}

/// A node that lacks a position is left out and takes nothing else with it:
/// with such a node added, the locations are those of the nodes before it.
/// A node that gives a location adds it after theirs.
pub proof fn lemma_locations_of_one_more(nodes: Seq<SubgraphASTNodeView>, node: SubgraphASTNodeView)
    ensures
        node.loc is None ==> locations_of(nodes.push(node)) == locations_of(nodes),
        node.loc matches Some(loc) && (loc.start_token.point() is None || loc.end_token.point()
            is None) ==> locations_of(nodes.push(node)) == locations_of(nodes),
        node.location() matches Some(location) ==> locations_of(nodes.push(node)) == locations_of(
            nodes,
        ).push(location),
{
    assert(nodes.push(node).drop_last() =~= nodes);
}

impl SubgraphLocation {
    /// The location that a syntax node gives, if it gives one.
    pub fn from_ast(node: SubgraphASTNode) -> (location: Option<SubgraphLocation>)
        ensures
            location.deep_view() == node.deep_view().location(),
    {
        Self::from_ast_ref(&node)
    }

    /// [`SubgraphLocation::from_ast`] on a borrowed node.
    pub fn from_ast_ref(node: &SubgraphASTNode) -> (location: Option<SubgraphLocation>)
        ensures
            location.deep_view() == node.deep_view().location(),
    {
        let loc = match node.loc {
            Some(loc) => loc,
            None => { return None; },
        };
        let start = match loc.start_token.to_point() {
            Some(point) => point,
            None => { return None; },
        };
        let end = match loc.end_token.to_point() {
            Some(point) => point,
            None => { return None; },
        };
        let subgraph = match &node.subgraph {
            Some(name) => name.clone(),
            None => String::new(),
        };
        Some(SubgraphLocation { subgraph, start, end })
    }

    /// The locations that a list of syntax nodes gives.
    pub fn from_ast_nodes(nodes: &Vec<SubgraphASTNode>) -> (locations: Vec<SubgraphLocation>)
        ensures
            locations.deep_view() == locations_of(nodes.deep_view()),
    {
        let mut locations: Vec<SubgraphLocation> = Vec::new();
        let mut i: usize = 0;
        proof {
            lemma_deep_view_empty(locations);
            assert(nodes.deep_view().take(0) =~= Seq::empty());
        }
        while i < nodes.len()
            invariant
                i <= nodes.len(),
                locations.deep_view() == locations_of(nodes.deep_view().take(i as int)),
            decreases nodes.len() - i,
        {
            let ghost before = locations;
            let found = Self::from_ast_ref(&nodes[i]);
            proof {
                let upto = nodes.deep_view().take(i + 1);
                assert(upto.drop_last() =~= nodes.deep_view().take(i as int));
                assert(upto.last() == nodes[i as int].deep_view());
            }
            if let Some(location) = found {
                locations.push(location);
                proof {
                    lemma_deep_view_push(before, locations, location);
                }
            }
            i += 1;
        }
        proof {
            assert(nodes.deep_view().take(i as int) =~= nodes.deep_view());
        }
        locations
    }
}

/// The machine-readable part of a [`GraphQLError`].
#[derive(Clone, Debug, PartialEq, Eq)]
pub struct GraphQLErrorExtensions {
    pub code: String,
}

/// An error of the composition engine.
#[derive(Clone, Debug, PartialEq, Eq)]
pub struct GraphQLError {
    pub message: String,
    pub nodes: Vec<SubgraphASTNode>,
    pub extensions: Option<GraphQLErrorExtensions>,
}

/// What a [`GraphQLError`] stands for.
pub struct GraphQLErrorView {
    pub message: Seq<char>,
    pub nodes: Seq<SubgraphASTNodeView>,
    /// The code of the extensions, where the error has them.
    pub code: Option<Seq<char>>,
}

impl DeepView for GraphQLError {
    type V = GraphQLErrorView;

    open spec fn deep_view(&self) -> GraphQLErrorView {
        GraphQLErrorView {
            message: self.message@,
            nodes: self.nodes.deep_view(),
            code: match self.extensions {
                Some(extensions) => Some(extensions.code@),
                None => None,
            },
        }
    }
}

impl GraphQLErrorView {
    /// The issue that reports this error: an error, under the extensions'
    /// code or the empty code, at the locations its nodes give.
    pub open spec fn issue(self) -> IssueView {
        IssueView {
            code: match self.code {
                Some(code) => code,
                None => Seq::empty(),
            },
            message: self.message,
            locations: locations_of(self.nodes),
            severity: Severity::Error,
        }
    }
}

/// The name under which a kind of hint is known.
#[derive(Clone, Debug, PartialEq, Eq, Hash)]
pub struct HintCodeDefinition {
    pub code: String,
}

/// A hint of the composition engine: something that composes, but could be
/// better.
#[derive(Clone, Debug, PartialEq, Eq, Hash)]
pub struct CompositionHint {
    pub message: String,
    /// The nodes that the hint points at, where the engine gave any.
    pub nodes: Option<Vec<SubgraphASTNode>>,
    pub definition: HintCodeDefinition,
}

/// What a [`CompositionHint`] stands for.
pub struct CompositionHintView {
    pub message: Seq<char>,
    pub nodes: Option<Seq<SubgraphASTNodeView>>,
    /// The code of the hint's definition.
    pub code: Seq<char>,
}

impl DeepView for CompositionHint {
    type V = CompositionHintView;

    open spec fn deep_view(&self) -> CompositionHintView {
        CompositionHintView {
            message: self.message@,
            nodes: self.nodes.deep_view(),
            code: self.definition.code@,
        }
    }
}

impl CompositionHintView {
    /// The issue that reports this hint: a warning, under the code of the
    /// hint's definition, at the locations its nodes give. A hint without
    /// nodes has no locations.
    pub open spec fn issue(self) -> IssueView {
        IssueView {
            code: self.code,
            message: self.message,
            locations: match self.nodes {
                Some(nodes) => locations_of(nodes),
                None => Seq::empty(),
            },
            severity: Severity::Warning,
        }
    }
}

impl Issue {
    /// The issue that reports an error of the engine.
    pub fn from_graphql_error(error: GraphQLError) -> (issue: Issue)
        ensures
            issue.deep_view() == error.deep_view().issue(),
    {
        let locations = SubgraphLocation::from_ast_nodes(&error.nodes);
        let code = match error.extensions {
            Some(extensions) => extensions.code,
            None => String::new(),
        };
        Issue { code, message: error.message, locations, severity: Severity::Error }
    }

    /// The issue that reports a hint of the engine.
    pub fn from_composition_hint(hint: CompositionHint) -> (issue: Issue)
        ensures
            issue.deep_view() == hint.deep_view().issue(),
    {
        let locations = match &hint.nodes {
            Some(nodes) => SubgraphLocation::from_ast_nodes(nodes),
            None => {
                let none: Vec<SubgraphLocation> = Vec::new();
                proof {
                    lemma_deep_view_empty(none);
                }
                none
            },
        };
        Issue {
            code: hint.definition.code,
            message: hint.message,
            locations,
            severity: Severity::Warning,
        }
    }
}

impl From<GraphQLError> for Issue {
    fn from(error: GraphQLError) -> (issue: Issue)
        ensures
            issue.deep_view() == error.deep_view().issue(),
    {
        Issue::from_graphql_error(error)
    }
}

impl FromSpecImpl<GraphQLError> for Issue {
    open spec fn obeys_from_spec() -> bool {
        false
    }

    open spec fn from_spec(error: GraphQLError) -> Issue {
        choose|issue: Issue| issue.deep_view() == error.deep_view().issue()
    }
}

impl From<CompositionHint> for Issue {
    fn from(hint: CompositionHint) -> (issue: Issue)
        ensures
            issue.deep_view() == hint.deep_view().issue(),
    {
        Issue::from_composition_hint(hint)
    }
}

impl FromSpecImpl<CompositionHint> for Issue {
    open spec fn obeys_from_spec() -> bool {
        false
    }

    open spec fn from_spec(hint: CompositionHint) -> Issue {
        choose|issue: Issue| issue.deep_view() == hint.deep_view().issue()
    }
}

/// What the engine's satisfiability check returns when it ran.
#[derive(Clone, Debug, PartialEq, Eq)]
pub struct SatisfiabilityResult {
    pub errors: Option<Vec<GraphQLError>>,
    pub hints: Option<Vec<CompositionHint>>,
}

/// What a [`SatisfiabilityResult`] stands for.
pub struct SatisfiabilityResultView {
    pub errors: Option<Seq<GraphQLErrorView>>,
    pub hints: Option<Seq<CompositionHintView>>,
}

impl DeepView for SatisfiabilityResult {
    type V = SatisfiabilityResultView;

    open spec fn deep_view(&self) -> SatisfiabilityResultView {
        SatisfiabilityResultView {
            errors: self.errors.deep_view(),
            hints: self.hints.deep_view(),
        }
    }
}

/// What a satisfiability check came to: its result where it ran, or the one
/// issue that says why it could not.
pub type SatisfiabilityOutcomeView = Result<SatisfiabilityResultView, IssueView>;

/// What the outcome of a satisfiability check stands for.
pub open spec fn outcome_view(
    outcome: Result<SatisfiabilityResult, Issue>,
) -> SatisfiabilityOutcomeView {
    match outcome {
        Ok(result) => Ok(result.deep_view()),
        Err(issue) => Err(issue.deep_view()),
    }
}

/// The issues that report a list of errors, one for one.
pub open spec fn issues_of_errors(errors: Seq<GraphQLErrorView>) -> Seq<IssueView> {
    Seq::new(errors.len(), |i: int| errors[i].issue())
}

/// The issues that report a list of hints, one for one.
pub open spec fn issues_of_hints(hints: Seq<CompositionHintView>) -> Seq<IssueView> {
    Seq::new(hints.len(), |i: int| hints[i].issue())
}

/// The issues that report the outcome of a satisfiability check: all errors,
/// then all hints, where the check ran; the one issue it returned where it
/// did not.
pub open spec fn satisfiability_issues(outcome: SatisfiabilityOutcomeView) -> Seq<IssueView> {
    match outcome {
        Ok(result) => {
            let errors = match result.errors {
                Some(errors) => issues_of_errors(errors),
                None => Seq::empty(),
            };
            let hints = match result.hints {
                Some(hints) => issues_of_hints(hints),
                None => Seq::empty(),
            };
            errors + hints
        },
        Err(issue) => seq![issue],
    }
}

/// Turns the outcome of a satisfiability check into the issues that report
/// it.
pub fn satisfiability_result_into_issues(
    satisfiability_result: Result<SatisfiabilityResult, Issue>,
) -> (issues: Vec<Issue>)
    ensures
        issues.deep_view() == satisfiability_issues(outcome_view(satisfiability_result)),
{
    let mut issues: Vec<Issue> = Vec::new();
    proof {
        lemma_deep_view_empty(issues);
    }
    match satisfiability_result {
        Ok(result) => {
            let ghost errors_view = match result.errors.deep_view() {
                Some(errors) => issues_of_errors(errors),
                None => Seq::empty(),
            };
            let ghost hints_view = match result.hints.deep_view() {
                Some(hints) => issues_of_hints(hints),
                None => Seq::empty(),
            };
            if let Some(errors) = result.errors {
                for error in it: errors
                    invariant
                        issues.deep_view() == errors_view.take(it.index as int),
                        errors_view == issues_of_errors(errors.deep_view()),
                {
                    let ghost before = issues;
                    let issue = Issue::from_graphql_error(error);
                    issues.push(issue);
                    proof {
                        lemma_deep_view_push(before, issues, issue);
                        assert(errors_view.take(it.index + 1) =~= errors_view.take(
                            it.index as int,
                        ).push(errors_view[it.index as int]));
                    }
                }
                proof {
                    assert(errors_view.take(errors_view.len() as int) =~= errors_view);
                }
            }
            assert(issues.deep_view() == errors_view);
            if let Some(hints) = result.hints {
                for hint in it: hints
                    invariant
                        issues.deep_view() == errors_view + hints_view.take(it.index as int),
                        hints_view == issues_of_hints(hints.deep_view()),
                {
                    let ghost before = issues;
                    let issue = Issue::from_composition_hint(hint);
                    issues.push(issue);
                    proof {
                        lemma_deep_view_push(before, issues, issue);
                        assert(errors_view + hints_view.take(it.index + 1) =~= (errors_view
                            + hints_view.take(it.index as int)).push(hints_view[it.index as int]));
                    }
                }
                proof {
                    assert(hints_view.take(hints_view.len() as int) =~= hints_view);
                }
            }
            assert(issues.deep_view() =~= errors_view + hints_view);
        },
        Err(issue) => {
            let ghost before = issues;
            issues.push(issue);
            proof {
                lemma_deep_view_push(before, issues, issue);
                assert(issues.deep_view() =~= seq![issue.deep_view()]);
            }
        },
    }
    issues
}

} // verus!
