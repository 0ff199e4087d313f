//! What expanding the connectors of a composed supergraph comes to, and
//! what is reported once the supergraph has been checked.
//!
//! The expander either leaves the supergraph as it is, or gives every
//! connector a subgraph of its own, under a service name of the expander's
//! making. In the second case the diagnostics of the satisfiability check
//! speak of those service names, and are rewritten before they are reported.
//! The expander itself is the host's to call: it can fail in ways that only
//! the host can contain.

use crate::issue::{lemma_deep_view_empty, lemma_deep_view_push, Issue, IssueView, Severity};
use crate::javascript::{
    outcome_view, satisfiability_issues, satisfiability_result_into_issues,
    SatisfiabilityOutcomeView, SatisfiabilityResult,
};
use crate::rewrite::{rewrite_message, rewritten};
use vstd::prelude::*;
use vstd::string::*;

verus! {

/// What expanding the connectors of a supergraph came to.
#[derive(Clone, Debug, PartialEq, Eq)]
pub enum ExpansionOutcome {
    /// The supergraph had connectors, and each has become a subgraph.
    Expanded {
        /// The expanded supergraph, as text.
        raw_sdl: String,
        /// For each connector, in the expander's order: the service name of
        /// its subgraph, and the name of the subgraph it was written in.
        service_names: Vec<(String, String)>,
    },
    /// The supergraph had no connectors and is unchanged.
    Unchanged,
}

/// What an [`ExpansionOutcome`] stands for.
pub enum ExpansionOutcomeView {
    Expanded { raw_sdl: Seq<char>, service_names: Seq<(Seq<char>, Seq<char>)> },
    Unchanged,
}

impl DeepView for ExpansionOutcome {
    type V = ExpansionOutcomeView;

    open spec fn deep_view(&self) -> ExpansionOutcomeView {
        match self {
            ExpansionOutcome::Expanded { raw_sdl, service_names } => ExpansionOutcomeView::Expanded {
                raw_sdl: raw_sdl@,
                service_names: service_names.deep_view(),
            },
            ExpansionOutcome::Unchanged => ExpansionOutcomeView::Unchanged,
        }
    }
}

impl ExpansionOutcome {
    /// The text that the host is to check from now on: the expanded
    /// supergraph where there is one, and none where the supergraph is
    /// unchanged, which the host has already.
    pub fn text_to_check(&self) -> (text: Option<&String>)
        ensures
            match self.deep_view() {
                ExpansionOutcomeView::Expanded { raw_sdl, .. } => text matches Some(t) && t@
                    == raw_sdl,
                ExpansionOutcomeView::Unchanged => text is None,
            },
    {
        match self {
            ExpansionOutcome::Expanded { raw_sdl, .. } => Some(raw_sdl),
            ExpansionOutcome::Unchanged => None,
        }
    }
}

/// The issue that reports a failure of the expander itself.
pub open spec fn internal_error_view(reason: Seq<char>) -> IssueView {
    IssueView {
        code: "INTERNAL_ERROR"@,
        message: "Composition failed due to an internal error, please report this: "@ + reason,
        locations: Seq::empty(),
        severity: Severity::Error,
    }
}

/// The notice that goes with every expanded supergraph.
pub open spec fn experimental_feature_view() -> IssueView {
    IssueView {
        code: "EXPERIMENTAL_FEATURE"@,
        message: "Connectors are an experimental feature. Breaking changes are likely to occur in future versions."@,
        locations: Seq::empty(),
        severity: Severity::Warning,
    }
}

/// The given issues, each with the service names in its message replaced.
/// Nothing but the message changes.
pub open spec fn rewritten_issues(
    issues: Seq<IssueView>,
    service_names: Seq<(Seq<char>, Seq<char>)>,
) -> Seq<IssueView> {
    Seq::new(
        issues.len(),
        |i: int| issues[i].with_message(rewritten(issues[i].message, service_names)),
    )
}

/// What a run reports once satisfiability has been checked. Of an unchanged
/// supergraph: the issues of the check, as they are. Of an expanded one:
/// the issues of the check, rewritten, and after them the notice that
/// connectors are experimental.
pub open spec fn reported(
    expansion: ExpansionOutcomeView,
    satisfiability: SatisfiabilityOutcomeView,
) -> Seq<IssueView> {
    match expansion {
        ExpansionOutcomeView::Unchanged => satisfiability_issues(satisfiability),
        ExpansionOutcomeView::Expanded { raw_sdl, service_names } => rewritten_issues(
            satisfiability_issues(satisfiability),
            service_names,
        ).push(experimental_feature_view()),
    }
}

/// What the expander's answer means for the run: its outcome, or the issue
/// that reports its failure.
pub open spec fn expansion_or_issue(
    answer: Result<ExpansionOutcomeView, Seq<char>>,
) -> Result<ExpansionOutcomeView, IssueView> {
    match answer {
        Ok(outcome) => Ok(outcome),
        Err(reason) => Err(internal_error_view(reason)),
    }
}

/// What the answer of the expander stands for.
pub open spec fn answer_view(
    answer: Result<ExpansionOutcome, String>,
) -> Result<ExpansionOutcomeView, Seq<char>> {
    match answer {
        Ok(outcome) => Ok(outcome.deep_view()),
        Err(reason) => Err(reason@),
    }
}

/// What an outcome of [`read_expansion`] stands for.
pub open spec fn expansion_view(
    expansion: Result<ExpansionOutcome, Issue>,
) -> Result<ExpansionOutcomeView, IssueView> {
    match expansion {
        Ok(outcome) => Ok(outcome.deep_view()),
        Err(issue) => Err(issue.deep_view()),
    }
}

impl Issue {
    /// The issue that reports a failure of the expander itself.
    pub fn internal_error(reason: &str) -> (issue: Issue)
        ensures
            issue.deep_view() == internal_error_view(reason@),
    {
        let mut message = String::from_str(
            "Composition failed due to an internal error, please report this: ",
        );
        message.append(reason);
        let issue = Issue {
            code: String::from_str("INTERNAL_ERROR"),
            message,
            locations: Vec::new(),
            severity: Severity::Error,
        };
        proof {
            lemma_deep_view_empty(issue.locations);
        }
        issue
    }

    /// The notice that goes with every expanded supergraph.
    pub fn experimental_feature() -> (issue: Issue)
        ensures
            issue.deep_view() == experimental_feature_view(),
    {
        let issue = Issue {
            code: String::from_str("EXPERIMENTAL_FEATURE"),
            message: String::from_str(
                "Connectors are an experimental feature. Breaking changes are likely to occur in future versions.",
            ),
            locations: Vec::new(),
            severity: Severity::Warning,
        };
        proof {
            lemma_deep_view_empty(issue.locations);
        }
        issue
    }

    /// This issue with the service names in its message replaced.
    pub fn rewrite(self, service_names: &Vec<(String, String)>) -> (issue: Issue)
        ensures
            issue.deep_view() == self.deep_view().with_message(
                rewritten(self.message@, service_names.deep_view()),
            ),
    {
        Issue {
            code: self.code,
            message: rewrite_message(self.message, service_names),
            locations: self.locations,
            severity: self.severity,
        }
    }
}

/// Replaces the service names in the message of every issue.
pub fn rewrite_issues(issues: Vec<Issue>, service_names: &Vec<(String, String)>) -> (out: Vec<
    Issue,
>)
    ensures
        out.deep_view() == rewritten_issues(issues.deep_view(), service_names.deep_view()),
{
    let ghost expected = rewritten_issues(issues.deep_view(), service_names.deep_view());
    let mut out: Vec<Issue> = Vec::new();
    proof {
        lemma_deep_view_empty(out);
    }
    for issue in it: issues
        invariant
            expected == rewritten_issues(issues.deep_view(), service_names.deep_view()),
            out.deep_view() == expected.take(it.index as int),
    {
        let ghost before = out;
        let rewritten_issue = issue.rewrite(service_names);
        out.push(rewritten_issue);
        proof {
            lemma_deep_view_push(before, out, rewritten_issue);
            assert(expected.take(it.index + 1) =~= expected.take(it.index as int).push(
                expected[it.index as int],
            ));
        }
    }
    proof {
        assert(expected.take(expected.len() as int) =~= expected);
    }
    out
}

/// The issues to report once satisfiability has been checked.
pub fn issues_to_report(
    expansion: &ExpansionOutcome,
    satisfiability_result: Result<SatisfiabilityResult, Issue>,
) -> (issues: Vec<Issue>)
    ensures
        issues.deep_view() == reported(expansion.deep_view(), outcome_view(satisfiability_result)),
{
    let found = satisfiability_result_into_issues(satisfiability_result);
    match expansion {
        ExpansionOutcome::Unchanged => found,
        ExpansionOutcome::Expanded { raw_sdl, service_names } => {
            let mut issues = rewrite_issues(found, service_names);
            let ghost before = issues;
            let notice = Issue::experimental_feature();
            issues.push(notice);
            proof {
                lemma_deep_view_push(before, issues, notice);
            }
            issues
        },
    }
}

/// What the expander's answer means for the run: its outcome, or the issue
/// that reports its failure.
pub fn read_expansion(answer: Result<ExpansionOutcome, String>) -> (expansion: Result<
    ExpansionOutcome,
    Issue,
>)
    ensures
        expansion_view(expansion) == expansion_or_issue(answer_view(answer)),
{
    match answer {
        Ok(outcome) => Ok(outcome),
        Err(reason) => Err(Issue::internal_error(reason.as_str())),
    }
}

} // verus!
