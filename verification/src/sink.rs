//! Where the issues of one run are kept until the run is over.

use crate::issue::{
    lemma_deep_view_append, lemma_deep_view_empty, Issue, IssueView, PartialSuccess, Severity,
};
use vstd::prelude::*;

verus! {

/// The issues that one run has reported, in the order in which they were
/// reported. Nothing that was accepted is ever dropped or moved.
#[derive(Clone, Debug)]
pub struct DiagnosticSink {
    issues: Vec<Issue>,
}

impl DiagnosticSink {
    /// The issues accepted so far, oldest first.
    pub closed spec fn accepted(&self) -> Seq<IssueView> {
        self.issues.deep_view()
    }

    /// A sink that has accepted nothing.
    pub fn new() -> (sink: DiagnosticSink)
        ensures
            sink.accepted() == Seq::<IssueView>::empty(),
    {
        let sink = DiagnosticSink { issues: Vec::new() };
        proof {
            lemma_deep_view_empty(sink.issues);
        }
        sink
    }

    /// Accepts issues, in their order, after those accepted before.
    pub fn accept(&mut self, issues: Vec<Issue>)
        ensures
            final(self).accepted() == old(self).accepted() + issues.deep_view(),
    {
        let ghost before = self.issues;
        let mut issues = issues;
        let ghost added = issues;
        self.issues.append(&mut issues);
        proof {
            lemma_deep_view_append(before, self.issues, added);
        }
    }

    /// How many issues were accepted.
    pub fn len(&self) -> (count: usize)
        ensures
            count == self.accepted().len(),
    {
        self.issues.len()
    }

    /// Whether an issue that blocks composition was accepted.
    pub fn has_errors(&self) -> (blocked: bool)
        ensures
            blocked == exists|i: int|
                0 <= i < self.accepted().len() && (#[trigger] self.accepted()[i]).severity
                    == Severity::Error,
    {
        let mut i: usize = 0;
        while i < self.issues.len()
            invariant
                i <= self.issues.len(),
                forall|j: int|
                    0 <= j < i ==> (#[trigger] self.accepted()[j]).severity
                        != Severity::Error,
            decreases self.issues.len() - i,
        {
            if self.issues[i].is_error() {
                assert(self.accepted()[i as int].severity == Severity::Error);
                return true;
            }
            assert(self.accepted()[i as int] == self.issues[i as int].deep_view());
            i += 1;
        }
        false
    }

    /// Everything that was accepted, in its order.
    pub fn into_issues(self) -> (issues: Vec<Issue>)
        ensures
            issues.deep_view() == self.accepted(),
    {
        self.issues
    }

    /// The summary of a run that gave a supergraph: its text, with
    /// everything that was accepted, in its order.
    pub fn into_partial_success(self, supergraph_sdl: String) -> (success: PartialSuccess)
        ensures
            success.supergraph_sdl@ == supergraph_sdl@,
            success.issues.deep_view() == self.accepted(),
    {
        PartialSuccess { supergraph_sdl, issues: self.issues }
    }
}

} // verus!
