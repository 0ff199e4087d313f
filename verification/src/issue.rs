//! The diagnostic that every stage of a composition run reports.

use crate::source::{SubgraphLocation, SubgraphLocationView};
use vstd::prelude::*;

verus! {

/// How much an [`Issue`] matters. Errors block composition, warnings do not.
#[derive(Clone, Copy, Debug, PartialEq, Eq, Hash, Structural)]
pub enum Severity {
    Error,
    Warning,
}

/// Some issue the user should address.
#[derive(Clone, Debug, PartialEq, Eq, Hash)]
pub struct Issue {
    pub code: String,
    pub message: String,
    pub locations: Vec<SubgraphLocation>,
    pub severity: Severity,
}

/// What an [`Issue`] stands for.
pub struct IssueView {
    pub code: Seq<char>,
    pub message: Seq<char>,
    pub locations: Seq<SubgraphLocationView>,
    pub severity: Severity,
}

impl DeepView for Issue {
    type V = IssueView;

    open spec fn deep_view(&self) -> IssueView {
        IssueView {
            code: self.code@,
            message: self.message@,
            locations: self.locations.deep_view(),
            severity: self.severity,
        }
    }
}

impl IssueView {
    /// This issue with another message.
    pub open spec fn with_message(self, message: Seq<char>) -> IssueView {
        IssueView { message, ..self }
    }
}

impl Issue {
    /// Whether this issue blocks composition.
    pub fn is_error(&self) -> (blocking: bool)
        ensures
            blocking == (self.severity == Severity::Error),
    {
        self.severity == Severity::Error
    }
}

/// A successfully composed supergraph, optionally with some issues that
/// should be addressed.
#[derive(Clone, Debug)]
pub struct PartialSuccess {
    pub supergraph_sdl: String,
    pub issues: Vec<Issue>,
}

/// Appending one element to a vector appends its view to the vector's view.
pub proof fn lemma_deep_view_push<T: DeepView>(before: Vec<T>, after: Vec<T>, last: T)
    requires
        after@ == before@.push(last),
    ensures
        after.deep_view() == before.deep_view().push(last.deep_view()),
{
    assert(after.deep_view() =~= before.deep_view().push(last.deep_view()));
}

/// Appending one vector to another appends their views.
pub proof fn lemma_deep_view_append<T: DeepView>(before: Vec<T>, after: Vec<T>, more: Vec<T>)
    requires
        after@ == before@ + more@,
    ensures
        after.deep_view() == before.deep_view() + more.deep_view(),
{
    assert(after.deep_view() =~= before.deep_view() + more.deep_view());
}

/// The view of an empty vector is empty.
pub proof fn lemma_deep_view_empty<T: DeepView>(v: Vec<T>)
    requires
        v@.len() == 0,
    ensures
        v.deep_view() == Seq::<T::V>::empty(),
{
    assert(v.deep_view() =~= Seq::<T::V>::empty());
}

} // verus!
